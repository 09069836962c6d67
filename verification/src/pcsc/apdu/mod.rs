//! Command frames sent to the card.

pub mod nfc_f;
