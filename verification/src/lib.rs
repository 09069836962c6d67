//! FeliCa (NFC-F) over a PC/SC transparent session: the frame codec and the
//! reader-session state machine, with their contracts.

pub mod pcsc;
