//! Talking to a FeliCa card through a PC/SC reader in transparent mode.

pub mod apdu;
pub mod error;
pub mod parser;
pub mod session;

pub use error::NfcError;
pub use parser::nfc_f::{BLOCK_LENGTH, IDM_LENGTH, PMM_LENGTH};
pub use session::{find_reader, EscapeRequest, ReaderSession, SessionState};
