//! The failures a session can report.

use vstd::prelude::*;

verus! {

/// Why an operation on a reader session failed.
///
/// The first four arise while the session is being set up and end it; the
/// next three say that a card's reply was not the frame that was expected;
/// the last one passes on a failure of the transport itself.
#[derive(Clone, Copy, Debug, PartialEq, Eq, Structural)]
pub enum NfcError {
    /// No reader answers to the requested name.
    TransportUnavailable,
    /// The driver exposes no control code for escape commands.
    EscapeCodeUnavailable,
    /// The reader refused to enter transparent mode.
    TransparentSessionRejected,
    /// The reader refused to select the NFC-F protocol.
    ProtocolSwitchRejected,
    /// The reply ends before a field that must be there.
    MalformedFrame,
    /// The reply carries another response code than the command's.
    UnexpectedResponseCode,
    /// The card answered with a status flag other than `00`.
    CardStatusError,
    /// The transport reported a failure of its own.
    TransportError,
}

/// Whether `r` is the failure `error`.
pub open spec fn fails_with<T>(r: Result<T, NfcError>, error: NfcError) -> bool {
    r matches Err(e) && e == error
}

} // verus!
