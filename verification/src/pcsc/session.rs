//! The reader session: the order in which a reader is set up, and what each
//! reply of the reader or the card does to the session.
//!
//! The session performs no transfer itself. For each step it offers the bytes
//! to send and a method that takes what the transport answered, `None` where
//! the transport failed. Whoever owns the transport carries the bytes to and
//! fro.

use vstd::prelude::*;
use crate::pcsc::apdu::nfc_f::{
    polling_frame,
    read_without_encryption_frame,
    write_without_encryption_frame,
    Command,
    RequestCode,
    TimeSlot,
    SYSTEM_ALL,
};
use crate::pcsc::error::{fails_with, NfcError};
use crate::pcsc::parser::nfc_f::{
    polling_response,
    read_response,
    write_response,
    PollingResponse,
    ReadFields,
    ReadResponse,
    WriteResponse,
};
use crate::pcsc::{BLOCK_LENGTH, IDM_LENGTH};

verus! {

/// How far the setup of a session has come. The states are passed through in
/// the order written here, and only a release leads back.
#[derive(Clone, Copy, Debug, PartialEq, Eq, Structural)]
pub enum SessionState {
    Disconnected,
    Connected,
    EscapeCodeAcquired,
    TransparentSessionActive,
    ProtocolSelected,
}

/// An escape command for the reader: the payload, and the control code under
/// which the driver accepts it.
#[derive(Debug)]
pub struct EscapeRequest {
    pub control_code: u32,
    pub payload: Vec<u8>,
}

/// Payload that puts the reader into transparent mode.
pub open spec fn start_transparent_session_payload() -> Seq<u8> {
    seq![0xFFu8, 0xC2, 0x00, 0x00, 0x02, 0x81, 0x00]
}

/// Payload that takes the reader out of transparent mode.
pub open spec fn end_transparent_session_payload() -> Seq<u8> {
    seq![0xFFu8, 0xC2, 0x00, 0x00, 0x02, 0x82, 0x00]
}

/// Payload that selects the NFC-F protocol.
pub open spec fn switch_protocol_to_nfc_f_payload() -> Seq<u8> {
    seq![0xFFu8, 0xC2, 0x00, 0x02, 0x04, 0x8F, 0x02, 0x03, 0x00]
}

/// Whether `reply` opens with an error status object, `C0 03` and three bytes
/// of status.
pub open spec fn opens_with_error_status(reply: Seq<u8>) -> bool {
    reply.len() >= 2 && reply[0] == 0xC0 && reply[1] == 0x03
}

/// Whether the reader's reply to an escape command reports success: its
/// status word, the last two bytes, is `90 00`, and where the reply opens
/// with an error status object, that object reports no error, `00 90 00`.
pub open spec fn reports_success(reply: Seq<u8>) -> bool {
    &&& reply.len() >= 2
    &&& reply[reply.len() - 2] == 0x90
    &&& reply[reply.len() - 1] == 0x00
    &&& opens_with_error_status(reply) ==> {
        &&& reply.len() >= 5
        &&& reply[2] == 0x00
        &&& reply[3] == 0x90
        &&& reply[4] == 0x00
    }
}

/// Whether every byte of `bytes` is zero.
pub open spec fn is_zero(bytes: Seq<u8>) -> bool {
    forall|i: int| 0 <= i < bytes.len() ==> bytes[i] == 0
}

/// Whether a Polling reply shows a card: it parses and its IDm is not zero.
pub open spec fn card_present(reply: Seq<u8>) -> bool {
    polling_response(reply) matches Ok(fields) && !is_zero(fields.idm)
}

/// Whether `suffix` is what PC/SC puts behind a reader's name to tell the
/// attached readers apart: numbers, and the spaces between them.
pub open spec fn is_numeric_suffix(suffix: Seq<u8>) -> bool {
    forall|i: int| 0 <= i < suffix.len() ==> suffix[i] == 0x20 || 0x30 <= suffix[i] <= 0x39
}

/// Whether the reader listed as `reader` is the one called `name`: the
/// listed name is `name`, followed by nothing but a numeric suffix.
pub open spec fn is_called(reader: Seq<u8>, name: Seq<u8>) -> bool {
    &&& name.len() <= reader.len()
    &&& reader.subrange(0, name.len() as int) == name
    &&& is_numeric_suffix(reader.subrange(name.len() as int, reader.len() as int))
}

/// What a session holds.
pub struct SessionView {
    pub state: SessionState,
    /// Control code for escape commands; zero until it is acquired.
    pub escape_control_code: u32,
    /// IDm of the card found by the last successful Polling; zero while no
    /// card has been found.
    pub idm: Seq<u8>,
    /// The last reply received from the transport.
    pub recv_buf: Seq<u8>,
}

impl SessionView {
    /// What holds of every session: the control code is set only once it was
    /// acquired, and an IDm is known only where polling was possible.
    pub open spec fn well_formed(self) -> bool {
        &&& self.idm.len() == IDM_LENGTH
        &&& (self.state == SessionState::Disconnected || self.state == SessionState::Connected)
            ==> self.escape_control_code == 0
        &&& self.state != SessionState::ProtocolSelected ==> is_zero(self.idm)
    }

    /// Whether the reader was put into transparent mode.
    pub open spec fn transparent_mode_entered(self) -> bool {
        self.state == SessionState::TransparentSessionActive || self.state
            == SessionState::ProtocolSelected
    }

    /// What a release of this session has sent before the transport is let
    /// go, as control code and payload: the end of the transparent session
    /// for a session that holds a connection, however far its setup came,
    /// and nothing for one that holds none.
    pub open spec fn teardown(self) -> Option<(u32, Seq<u8>)> {
        if self.state == SessionState::Disconnected {
            None
        } else {
            Some((self.escape_control_code, end_transparent_session_payload()))
        }
    }

    /// The session after its release.
    pub open spec fn released(self) -> SessionView {
        SessionView {
            state: SessionState::Disconnected,
            escape_control_code: 0,
            idm: Seq::new(IDM_LENGTH as nat, |i: int| 0u8),
            recv_buf: self.recv_buf,
        }
    }
}

/// A session with one reader.
#[derive(Debug)]
pub struct ReaderSession {
    state: SessionState,
    escape_control_code: u32,
    idm: [u8; IDM_LENGTH],
    recv_buf: Vec<u8>,
}

impl View for ReaderSession {
    type V = SessionView;

    closed spec fn view(&self) -> SessionView {
        SessionView {
            state: self.state,
            escape_control_code: self.escape_control_code,
            idm: self.idm@,
            recv_buf: self.recv_buf@,
        }
    }
}

/// Whether every byte of `bytes` is zero.
fn all_zero(bytes: &[u8]) -> (zero: bool)
    ensures
        zero == is_zero(bytes@),
{
    let mut i: usize = 0;
    while i < bytes.len()
        invariant
            i <= bytes@.len(),
            forall|k: int| 0 <= k < i ==> bytes@[k] == 0,
        decreases bytes@.len() - i,
    {
        if bytes[i] != 0 {
            return false;
        }
        i += 1;
    }
    true
}

/// The eight bytes of `bytes` as an IDm.
fn idm_of(bytes: &[u8]) -> (idm: [u8; IDM_LENGTH])
    requires
        bytes@.len() == IDM_LENGTH,
    ensures
        idm@ == bytes@,
{
    let mut idm = [0u8; IDM_LENGTH];
    let mut i: usize = 0;
    while i < IDM_LENGTH
        invariant
            i <= IDM_LENGTH,
            bytes@.len() == IDM_LENGTH,
            forall|k: int| 0 <= k < i ==> idm@[k] == bytes@[k],
        decreases IDM_LENGTH - i,
    {
        idm[i] = bytes[i];
        i += 1;
    }
    assert(idm@ =~= bytes@);
    idm
}

/// The sixteen bytes of `bytes` as a block.
fn block_of(bytes: &[u8]) -> (block: [u8; BLOCK_LENGTH])
    requires
        bytes@.len() == BLOCK_LENGTH,
    ensures
        block@ == bytes@,
{
    let mut block = [0u8; BLOCK_LENGTH];
    let mut i: usize = 0;
    while i < BLOCK_LENGTH
        invariant
            i <= BLOCK_LENGTH,
            bytes@.len() == BLOCK_LENGTH,
            forall|k: int| 0 <= k < i ==> block@[k] == bytes@[k],
        decreases BLOCK_LENGTH - i,
    {
        block[i] = bytes[i];
        i += 1;
    }
    assert(block@ =~= bytes@);
    block
}

/// Whether the reader listed as `reader` is the one called `name`.
pub fn reader_is_called(reader: &[u8], name: &[u8]) -> (called: bool)
    ensures
        called == is_called(reader@, name@),
{
    if reader.len() < name.len() {
        return false;
    }
    let mut i: usize = 0;
    while i < name.len()
        invariant
            i <= name@.len() <= reader@.len(),
            forall|k: int| 0 <= k < i ==> reader@[k] == name@[k],
        decreases name@.len() - i,
    {
        if reader[i] != name[i] {
            assert(reader@.subrange(0, name@.len() as int)[i as int] != name@[i as int]);
            return false;
        }
        i += 1;
    }
    assert(reader@.subrange(0, name@.len() as int) =~= name@);
    let ghost suffix = reader@.subrange(name@.len() as int, reader@.len() as int);
    while i < reader.len()
        invariant
            name@.len() <= i <= reader@.len(),
            suffix == reader@.subrange(name@.len() as int, reader@.len() as int),
            forall|k: int|
                0 <= k < i - name@.len() ==> suffix[k] == 0x20 || 0x30 <= suffix[k] <= 0x39,
        decreases reader@.len() - i,
    {
        let byte = reader[i];
        if byte != 0x20 && (byte < 0x30 || byte > 0x39) {
            assert(suffix[i - name@.len()] == byte);
            return false;
        }
        assert(suffix[i - name@.len()] == byte);
        i += 1;
    }
    true
}

/// The first of `readers` that is called `name`, by its index.
pub fn find_reader(readers: &Vec<Vec<u8>>, name: &[u8]) -> (found: Option<usize>)
    ensures
        match found {
            Some(index) => {
                &&& index < readers@.len()
                &&& is_called(readers@[index as int]@, name@)
                &&& forall|j: int| 0 <= j < index ==> !is_called(readers@[j]@, name@)
            },
            None => forall|j: int| 0 <= j < readers@.len() ==> !is_called(readers@[j]@, name@),
        },
{
    let mut i: usize = 0;
    while i < readers.len()
        invariant
            i <= readers@.len(),
            forall|j: int| 0 <= j < i ==> !is_called(readers@[j]@, name@),
        decreases readers@.len() - i,
    {
        if reader_is_called(readers[i].as_slice(), name) {
            return Some(i);
        }
        i += 1;
    }
    None
}

/// Whether the reader's reply to an escape command reports success.
fn status_is_success(reply: &[u8]) -> (ok: bool)
    ensures
        ok == reports_success(reply@),
{
    let n = reply.len();
    if n < 2 || reply[n - 2] != 0x90 || reply[n - 1] != 0x00 {
        return false;
    }
    if reply[0] == 0xC0 && reply[1] == 0x03 {
        n >= 5 && reply[2] == 0x00 && reply[3] == 0x90 && reply[4] == 0x00
    } else {
        true
    }
}

impl ReaderSession {
    #[verifier::type_invariant]
    spec fn holds_together(&self) -> bool {
        self@.well_formed()
    }

    /// Begins a session from the outcome of opening the reader: `opened`
    /// says whether a reader of the requested name was there and is open.
    pub fn start_session_for_reader(opened: bool) -> (r: Result<ReaderSession, NfcError>)
        ensures
            match r {
                Ok(session) => {
                    &&& opened
                    &&& session@.state == SessionState::Connected
                    &&& session@.escape_control_code == 0
                    &&& is_zero(session@.idm)
                    &&& session@.recv_buf.len() == 0
                    &&& session@.well_formed()
                },
                Err(e) => !opened && e == NfcError::TransportUnavailable,
            },
    {
        if opened {
            Ok(
                ReaderSession {
                    state: SessionState::Connected,
                    escape_control_code: 0,
                    idm: [0u8; IDM_LENGTH],
                    recv_buf: Vec::new(),
                },
            )
        } else {
            Err(NfcError::TransportUnavailable)
        }
    }

    /// How far the setup has come. This is also where a caller learns that
    /// the session is well formed, as every session is.
    pub fn state(&self) -> (state: SessionState)
        ensures
            state == self@.state,
            self@.well_formed(),
    {
        proof {
            use_type_invariant(self);
        }
        self.state
    }

    /// The control code for escape commands; zero until it is acquired.
    pub fn escape_control_code(&self) -> (code: u32)
        ensures
            code == self@.escape_control_code,
    {
        self.escape_control_code
    }

    /// The IDm of the card found last; zero while none has been found.
    pub fn idm(&self) -> (idm: &[u8; IDM_LENGTH])
        ensures
            idm@ == self@.idm,
    {
        &self.idm
    }

    /// Whether polling has found a card: the IDm is not zero.
    pub fn card_found(&self) -> (found: bool)
        ensures
            found == !is_zero(self@.idm),
    {
        !all_zero(self.idm.as_slice())
    }

    /// The last reply received.
    pub fn recv_buf(&self) -> (bytes: &[u8])
        ensures
            bytes@ == self@.recv_buf,
    {
        self.recv_buf.as_slice()
    }

    /// Takes the driver's answer to the query for its escape control code,
    /// `None` where it exposes none.
    pub fn acquire_escape_code_from_reader(&mut self, code: Option<u32>) -> (r: Result<
        (),
        NfcError,
    >)
        requires
            old(self)@.state == SessionState::Connected,
        ensures
            match code {
                Some(c) => r is Ok && final(self)@ == (SessionView {
                    state: SessionState::EscapeCodeAcquired,
                    escape_control_code: c,
                    ..old(self)@
                }),
                None => fails_with(r, NfcError::EscapeCodeUnavailable) && final(self)@ == old(
                    self,
                )@,
            },
    {
        proof {
            use_type_invariant(&*self);
        }
        match code {
            Some(c) => {
                self.state = SessionState::EscapeCodeAcquired;
                self.escape_control_code = c;
                Ok(())
            },
            None => Err(NfcError::EscapeCodeUnavailable),
        }
    }

    /// The escape command that asks the reader for transparent mode.
    pub fn start_transparent_session_command(&self) -> (request: EscapeRequest)
        requires
            self@.state == SessionState::EscapeCodeAcquired,
        ensures
            request.control_code == self@.escape_control_code,
            request.payload@ == start_transparent_session_payload(),
    {
        EscapeRequest {
            control_code: self.escape_control_code,
            payload: vec![0xFF, 0xC2, 0x00, 0x00, 0x02, 0x81, 0x00],
        }
    }

    /// Takes the reader's reply to the command of
    /// [`Self::start_transparent_session_command`].
    pub fn start_transparent_session(&mut self, reply: Option<Vec<u8>>) -> (r: Result<
        (),
        NfcError,
    >)
        requires
            old(self)@.state == SessionState::EscapeCodeAcquired,
        ensures
            match reply {
                None => fails_with(r, NfcError::TransportError) && final(self)@ == old(self)@,
                Some(bytes) => if reports_success(bytes@) {
                    r is Ok && final(self)@ == (SessionView {
                        state: SessionState::TransparentSessionActive,
                        recv_buf: bytes@,
                        ..old(self)@
                    })
                } else {
                    fails_with(r, NfcError::TransparentSessionRejected) && final(self)@ == (
                    SessionView { recv_buf: bytes@, ..old(self)@ })
                },
            },
    {
        proof {
            use_type_invariant(&*self);
        }
        let bytes = match reply {
            Some(bytes) => bytes,
            None => {
                return Err(NfcError::TransportError);
            },
        };
        self.recv_buf = bytes;
        if status_is_success(self.recv_buf.as_slice()) {
            self.state = SessionState::TransparentSessionActive;
            Ok(())
        } else {
            Err(NfcError::TransparentSessionRejected)
        }
    }

    /// The escape command that selects the NFC-F protocol.
    pub fn switch_protocol_to_nfc_f_command(&self) -> (request: EscapeRequest)
        requires
            self@.state == SessionState::TransparentSessionActive,
        ensures
            request.control_code == self@.escape_control_code,
            request.payload@ == switch_protocol_to_nfc_f_payload(),
    {
        EscapeRequest {
            control_code: self.escape_control_code,
            payload: vec![0xFF, 0xC2, 0x00, 0x02, 0x04, 0x8F, 0x02, 0x03, 0x00],
        }
    }

    /// Takes the reader's reply to the command of
    /// [`Self::switch_protocol_to_nfc_f_command`].
    pub fn switch_protocol_to_nfc_f(&mut self, reply: Option<Vec<u8>>) -> (r: Result<
        (),
        NfcError,
    >)
        requires
            old(self)@.state == SessionState::TransparentSessionActive,
        ensures
            match reply {
                None => fails_with(r, NfcError::TransportError) && final(self)@ == old(self)@,
                Some(bytes) => if reports_success(bytes@) {
                    r is Ok && final(self)@ == (SessionView {
                        state: SessionState::ProtocolSelected,
                        recv_buf: bytes@,
                        ..old(self)@
                    })
                } else {
                    fails_with(r, NfcError::ProtocolSwitchRejected) && final(self)@ == (
                    SessionView { recv_buf: bytes@, ..old(self)@ })
                },
            },
    {
        proof {
            use_type_invariant(&*self);
        }
        let bytes = match reply {
            Some(bytes) => bytes,
            None => {
                return Err(NfcError::TransportError);
            },
        };
        self.recv_buf = bytes;
        if status_is_success(self.recv_buf.as_slice()) {
            self.state = SessionState::ProtocolSelected;
            Ok(())
        } else {
            Err(NfcError::ProtocolSwitchRejected)
        }
    }

    /// The Polling command with the usual parameters: every system, no
    /// requested data, one time slot.
    pub fn nfc_f_polling_command(&self) -> (apdu: Vec<u8>)
        requires
            self@.state == SessionState::ProtocolSelected,
        ensures
            apdu@ == polling_frame(SYSTEM_ALL, RequestCode::NoRequest, TimeSlot::Slot1),
    {
        self.nfc_f_polling_command_with(SYSTEM_ALL, RequestCode::NoRequest, TimeSlot::Slot1)
    }

    /// The Polling command with parameters of the caller's choice.
    pub fn nfc_f_polling_command_with(
        &self,
        system_code: u16,
        request_code: RequestCode,
        time_slot: TimeSlot,
    ) -> (apdu: Vec<u8>)
        requires
            self@.state == SessionState::ProtocolSelected,
        ensures
            apdu@ == polling_frame(system_code, request_code, time_slot),
    {
        Command::Polling { system_code, request_code, time_slot }.encode()
    }

    /// Takes the reply to a Polling command and says whether a card is
    /// there. A reply that is no Polling reply, or that names the IDm zero,
    /// means that no card is there, and leaves the known IDm as it was.
    pub fn nfc_f_polling(&mut self, reply: Option<Vec<u8>>) -> (r: Result<bool, NfcError>)
        requires
            old(self)@.state == SessionState::ProtocolSelected,
        ensures
            match reply {
                None => fails_with(r, NfcError::TransportError) && final(self)@ == old(self)@,
                Some(bytes) => {
                    &&& r matches Ok(found) && found == card_present(bytes@)
                    &&& final(self)@ == (SessionView {
                        idm: if card_present(bytes@) {
                            polling_response(bytes@)->Ok_0.idm
                        } else {
                            old(self)@.idm
                        },
                        recv_buf: bytes@,
                        ..old(self)@
                    })
                },
            },
    {
        let bytes = match reply {
            Some(bytes) => bytes,
            None => {
                return Err(NfcError::TransportError);
            },
        };
        self.recv_buf = bytes;
        let found = match PollingResponse::parse_from_data(self.recv_buf.as_slice()) {
            Ok(response) => {
                if all_zero(response.idm) {
                    None
                } else {
                    Some(idm_of(response.idm))
                }
            },
            Err(_) => None,
        };
        match found {
            Some(idm) => {
                self.idm = idm;
                Ok(true)
            },
            None => Ok(false),
        }
    }

    /// The command that reads blocks `block1` and `block2` of the card found
    /// by polling.
    pub fn nfc_f_read_without_encryption_command(&self, block1: u8, block2: u8) -> (apdu: Vec<u8>)
        requires
            self@.state == SessionState::ProtocolSelected,
            !is_zero(self@.idm),
        ensures
            apdu@ == read_without_encryption_frame(self@.idm, block1, block2),
    {
        Command::ReadWithoutEncryption { idm: self.idm, block1, block2 }.encode()
    }

    /// Takes the reply to a read command and hands out the two blocks, in
    /// the order in which they were asked for.
    pub fn nfc_f_read_without_encryption(&mut self, reply: Option<Vec<u8>>) -> (r: Result<
        ([u8; BLOCK_LENGTH], [u8; BLOCK_LENGTH]),
        NfcError,
    >)
        requires
            old(self)@.state == SessionState::ProtocolSelected,
        ensures
            match reply {
                None => fails_with(r, NfcError::TransportError) && final(self)@ == old(self)@,
                Some(bytes) => {
                    &&& final(self)@ == (SessionView { recv_buf: bytes@, ..old(self)@ })
                    &&& match r {
                        Ok((data1, data2)) => read_response(bytes@) matches Ok(fields)
                            && fields == (ReadFields { data1: data1@, data2: data2@ }),
                        Err(e) => fails_with(read_response(bytes@), e),
                    }
                },
            },
    {
        let bytes = match reply {
            Some(bytes) => bytes,
            None => {
                return Err(NfcError::TransportError);
            },
        };
        self.recv_buf = bytes;
        match ReadResponse::parse_from_data(self.recv_buf.as_slice()) {
            Ok(response) => Ok((block_of(response.data1), block_of(response.data2))),
            Err(e) => Err(e),
        }
    }

    /// The command that stores `data` in block `block` of the card found by
    /// polling.
    pub fn nfc_f_write_without_encryption_command(
        &self,
        block: u8,
        data: [u8; BLOCK_LENGTH],
    ) -> (apdu: Vec<u8>)
        requires
            self@.state == SessionState::ProtocolSelected,
            !is_zero(self@.idm),
        ensures
            apdu@ == write_without_encryption_frame(self@.idm, block, data@),
    {
        Command::WriteWithoutEncryption { idm: self.idm, block, data }.encode()
    }

    /// Takes the reply to a write command; `Ok` means that the card has
    /// acknowledged the write.
    pub fn nfc_f_write_without_encryption(&mut self, reply: Option<Vec<u8>>) -> (r: Result<
        (),
        NfcError,
    >)
        requires
            old(self)@.state == SessionState::ProtocolSelected,
        ensures
            match reply {
                None => fails_with(r, NfcError::TransportError) && final(self)@ == old(self)@,
                Some(bytes) => {
                    &&& final(self)@ == (SessionView { recv_buf: bytes@, ..old(self)@ })
                    &&& match r {
                        Ok(_) => write_response(bytes@) is Ok,
                        Err(e) => fails_with(write_response(bytes@), e),
                    }
                },
            },
    {
        let bytes = match reply {
            Some(bytes) => bytes,
            None => {
                return Err(NfcError::TransportError);
            },
        };
        self.recv_buf = bytes;
        match WriteResponse::parse_from_data(self.recv_buf.as_slice()) {
            Ok(_) => Ok(()),
            Err(e) => Err(e),
        }
    }

    /// Ends the session. Where it holds a connection, the result is the
    /// escape command that ends the transparent session: it is to be sent,
    /// whatever comes of it, before the transport is let go. Where it holds
    /// none, there is nothing to send and nothing to let go.
    pub fn release(&mut self) -> (request: Option<EscapeRequest>)
        ensures
            final(self)@ == old(self)@.released(),
            match request {
                Some(escape) => old(self)@.teardown() == Some(
                    (escape.control_code, escape.payload@),
                ),
                None => old(self)@.teardown() is None,
            },
    {
        proof {
            use_type_invariant(&*self);
        }
        let request = match self.state {
            SessionState::Disconnected => None,
            _ => Some(
                EscapeRequest {
                    control_code: self.escape_control_code,
                    payload: vec![0xFF, 0xC2, 0x00, 0x00, 0x02, 0x82, 0x00],
                },
            ),
        };
        self.idm = [0u8; IDM_LENGTH];
        self.escape_control_code = 0;
        self.state = SessionState::Disconnected;
        assert(self.idm@ =~= Seq::new(IDM_LENGTH as nat, |i: int| 0u8));
        request
    }
}

/// The end of the transparent session is sent once per session. A release
/// sends it for every session that holds a connection, so also for one whose
/// setup stopped before transparent mode; it sends none only where
/// transparent mode was never entered; and a session once released sends
/// none again.
pub proof fn lemma_teardown_once(session: SessionView)
    ensures
        session.state != SessionState::Disconnected ==> session.teardown() == Some(
            (session.escape_control_code, end_transparent_session_payload()),
        ),
        session.teardown() is None ==> !session.transparent_mode_entered(),
        session.released().teardown() is None,
        session.released().well_formed(),
{
}

} // verus!
