//! Response frames received from the card.

pub mod nfc_f;
