//! Parsers for the card's replies to Polling, Read Without Encryption and
//! Write Without Encryption.
//!
//! A reply is read from its first byte on and refused at the first field that
//! is missing or wrong, so a reply that is both too short and wrongly tagged
//! fails with the error of whichever comes first. Nothing is copied: the
//! parsed fields borrow from the reply.

use vstd::prelude::*;
use vstd::slice::slice_subrange;
use crate::pcsc::apdu::nfc_f::{polling_frame, RequestCode, TimeSlot};
use crate::pcsc::error::{fails_with, NfcError};

verus! {

/// Length of a card identifier (IDm) in bytes.
pub const IDM_LENGTH: usize = 8;

/// Length of a card's manufacturer parameters (PMm) in bytes.
pub const PMM_LENGTH: usize = 8;

/// Length of one block of card memory in bytes.
pub const BLOCK_LENGTH: usize = 16;

/// Response code of a Polling reply.
pub const POLLING_RESPONSE_CODE: u8 = 0x01;

/// Response code of a Read Without Encryption reply.
pub const READ_RESPONSE_CODE: u8 = 0x07;

/// Response code of a Write Without Encryption reply.
pub const WRITE_RESPONSE_CODE: u8 = 0x09;

/// The fields of a Polling reply, as byte sequences.
pub struct PollingFields {
    pub idm: Seq<u8>,
    pub pmm: Seq<u8>,
    pub requested_data: Option<Seq<u8>>,
}

/// The fields of a Read Without Encryption reply, as byte sequences.
pub struct ReadFields {
    pub data1: Seq<u8>,
    pub data2: Seq<u8>,
}

/// The fields of a Write Without Encryption reply, as byte sequences.
pub struct WriteFields {
    pub idm: Seq<u8>,
}

/// What a Polling reply holds: after the length byte and the response code
/// `01` come IDm and PMm, and two bytes of requested data where the reply is
/// long enough to hold them.
pub open spec fn polling_response(data: Seq<u8>) -> Result<PollingFields, NfcError> {
    if data.len() < 2 {
        Err(NfcError::MalformedFrame)
    } else if data[1] != POLLING_RESPONSE_CODE {
        Err(NfcError::UnexpectedResponseCode)
    } else if data.len() < 18 {
        Err(NfcError::MalformedFrame)
    } else {
        Ok(
            PollingFields {
                idm: data.subrange(2, 10),
                pmm: data.subrange(10, 18),
                requested_data: if data.len() >= 20 {
                    Some(data.subrange(18, 20))
                } else {
                    None
                },
            },
        )
    }
}

/// Number of bytes of `data` that a Polling reply takes up.
pub open spec fn polling_response_length(data: Seq<u8>) -> int {
    if data.len() >= 20 {
        20
    } else {
        18
    }
}

/// What a Read Without Encryption reply holds: after the length byte, the
/// response code `07`, the IDm, status flag 1 equal to `00`, status flag 2
/// and the data-length byte come the two blocks, in the order in which they
/// were asked for.
pub open spec fn read_response(data: Seq<u8>) -> Result<ReadFields, NfcError> {
    if data.len() < 2 {
        Err(NfcError::MalformedFrame)
    } else if data[1] != READ_RESPONSE_CODE {
        Err(NfcError::UnexpectedResponseCode)
    } else if data.len() < 11 {
        Err(NfcError::MalformedFrame)
    } else if data[10] != 0x00 {
        Err(NfcError::CardStatusError)
    } else if data.len() < 45 {
        Err(NfcError::MalformedFrame)
    } else {
        Ok(ReadFields { data1: data.subrange(13, 29), data2: data.subrange(29, 45) })
    }
}

/// What a Write Without Encryption reply holds: after the length byte and the
/// response code `09` comes the IDm, then status flag 1 equal to `00` and
/// status flag 2.
pub open spec fn write_response(data: Seq<u8>) -> Result<WriteFields, NfcError> {
    if data.len() < 2 {
        Err(NfcError::MalformedFrame)
    } else if data[1] != WRITE_RESPONSE_CODE {
        Err(NfcError::UnexpectedResponseCode)
    } else if data.len() < 11 {
        Err(NfcError::MalformedFrame)
    } else if data[10] != 0x00 {
        Err(NfcError::CardStatusError)
    } else if data.len() < 12 {
        Err(NfcError::MalformedFrame)
    } else {
        Ok(WriteFields { idm: data.subrange(2, 10) })
    }
}

/// Splits `input` after its first `count` bytes into what remains and what
/// was taken; fails where `input` is shorter than that.
fn take<'a>(input: &'a [u8], count: usize) -> (r: Result<(&'a [u8], &'a [u8]), NfcError>)
    ensures
        match r {
            Ok((rest, taken)) => {
                &&& count <= input@.len()
                &&& taken@ == input@.subrange(0, count as int)
                &&& rest@ == input@.subrange(count as int, input@.len() as int)
            },
            Err(e) => input@.len() < count && e == NfcError::MalformedFrame,
        },
{
    if input.len() < count {
        Err(NfcError::MalformedFrame)
    } else {
        Ok((slice_subrange(input, count, input.len()), slice_subrange(input, 0, count)))
    }
}

/// Steps over the first byte of `input` where it is `expected`; fails with
/// `mismatch` where it is another byte.
fn expect_byte<'a>(input: &'a [u8], expected: u8, mismatch: NfcError) -> (r: Result<
    &'a [u8],
    NfcError,
>)
    ensures
        match r {
            Ok(rest) => {
                &&& input@.len() >= 1
                &&& input@[0] == expected
                &&& rest@ == input@.subrange(1, input@.len() as int)
            },
            Err(e) => if input@.len() == 0 {
                e == NfcError::MalformedFrame
            } else {
                input@[0] != expected && e == mismatch
            },
        },
{
    if input.len() == 0 {
        Err(NfcError::MalformedFrame)
    } else if input[0] != expected {
        Err(mismatch)
    } else {
        Ok(slice_subrange(input, 1, input.len()))
    }
}

/// A parsed Polling reply.
#[derive(Clone, Copy, Debug)]
pub struct PollingResponse<'data> {
    pub idm: &'data [u8],
    pub pmm: &'data [u8],
    pub requested_data: Option<&'data [u8]>,
}

impl<'data> View for PollingResponse<'data> {
    type V = PollingFields;

    open spec fn view(&self) -> PollingFields {
        PollingFields {
            idm: self.idm@,
            pmm: self.pmm@,
            requested_data: match self.requested_data {
                Some(bytes) => Some(bytes@),
                None => None,
            },
        }
    }
}

impl<'data> PollingResponse<'data> {
    /// Parses a Polling reply.
    pub fn parse_from_data(data: &'data [u8]) -> (r: Result<Self, NfcError>)
        ensures
            match r {
                Ok(response) => polling_response(data@) matches Ok(fields) && fields == response@,
                Err(e) => polling_response(data@) matches Err(error) && error == e,
            },
            data@.len() >= 2 && data@[1] != POLLING_RESPONSE_CODE ==> fails_with(
                r,
                NfcError::UnexpectedResponseCode,
            ),
    {
        match Self::parse_polling_response(data) {
            Ok((_, response)) => Ok(response),
            Err(e) => Err(e),
        }
    }

    /// Parses a Polling reply from the front of `data` and hands back what
    /// follows it.
    pub fn parse_polling_response(data: &'data [u8]) -> (r: Result<(&'data [u8], Self), NfcError>)
        ensures
            match r {
                Ok((rest, response)) => {
                    &&& polling_response(data@) matches Ok(fields) && fields == response@
                    &&& rest@ == data@.subrange(polling_response_length(data@), data@.len() as int)
                },
                Err(e) => polling_response(data@) matches Err(error) && error == e,
            },
            data@.len() >= 2 && data@[1] != POLLING_RESPONSE_CODE ==> fails_with(
                r,
                NfcError::UnexpectedResponseCode,
            ),
    {
        let (input, _) = take(data, 1)?;
        let input = expect_byte(input, POLLING_RESPONSE_CODE, NfcError::UnexpectedResponseCode)?;
        let (input, idm) = take(input, IDM_LENGTH)?;
        let (input, pmm) = take(input, PMM_LENGTH)?;
        let (input, requested_data) = match take(input, 2) {
            Ok((rest, bytes)) => (rest, Some(bytes)),
            Err(_) => (input, None),
        };
        let response = Self { idm, pmm, requested_data };
        proof {
            assert(idm@ =~= data@.subrange(2, 10));
            assert(pmm@ =~= data@.subrange(10, 18));
            if data@.len() >= 20 {
                assert(requested_data.unwrap()@ =~= data@.subrange(18, 20));
            }
            assert(input@ =~= data@.subrange(polling_response_length(data@), data@.len() as int));
        }
        Ok((input, response))
    }
}

/// A parsed Read Without Encryption reply.
#[derive(Clone, Copy, Debug)]
pub struct ReadResponse<'data> {
    pub data1: &'data [u8],
    pub data2: &'data [u8],
}

impl<'data> View for ReadResponse<'data> {
    type V = ReadFields;

    open spec fn view(&self) -> ReadFields {
        ReadFields { data1: self.data1@, data2: self.data2@ }
    }
}

impl<'data> ReadResponse<'data> {
    /// Parses a Read Without Encryption reply.
    pub fn parse_from_data(data: &'data [u8]) -> (r: Result<Self, NfcError>)
        ensures
            match r {
                Ok(response) => read_response(data@) matches Ok(fields) && fields == response@,
                Err(e) => read_response(data@) matches Err(error) && error == e,
            },
            data@.len() >= 11 && data@[1] == READ_RESPONSE_CODE && data@[10] != 0x00 ==> fails_with(
                r,
                NfcError::CardStatusError,
            ),
    {
        match Self::parse_read_response(data) {
            Ok((_, response)) => Ok(response),
            Err(e) => Err(e),
        }
    }

    /// Parses a Read Without Encryption reply from the front of `data` and
    /// hands back what follows it.
    pub fn parse_read_response(data: &'data [u8]) -> (r: Result<(&'data [u8], Self), NfcError>)
        ensures
            match r {
                Ok((rest, response)) => {
                    &&& read_response(data@) matches Ok(fields) && fields == response@
                    &&& rest@ == data@.subrange(45, data@.len() as int)
                },
                Err(e) => read_response(data@) matches Err(error) && error == e,
            },
            data@.len() >= 11 && data@[1] == READ_RESPONSE_CODE && data@[10] != 0x00 ==> fails_with(
                r,
                NfcError::CardStatusError,
            ),
    {
        let (input, _) = take(data, 1)?;
        let input = expect_byte(input, READ_RESPONSE_CODE, NfcError::UnexpectedResponseCode)?;
        let (input, _) = take(input, IDM_LENGTH)?;
        let input = expect_byte(input, 0x00, NfcError::CardStatusError)?;
        let (input, _) = take(input, 1)?;
        let (input, _) = take(input, 1)?;
        let (input, data1) = take(input, BLOCK_LENGTH)?;
        let (input, data2) = take(input, BLOCK_LENGTH)?;
        proof {
            assert(data1@ =~= data@.subrange(13, 29));
            assert(data2@ =~= data@.subrange(29, 45));
            assert(input@ =~= data@.subrange(45, data@.len() as int));
        }
        Ok((input, Self { data1, data2 }))
    }
}

/// A parsed Write Without Encryption reply.
#[derive(Clone, Copy, Debug)]
pub struct WriteResponse<'data> {
    pub idm: &'data [u8],
}

impl<'data> View for WriteResponse<'data> {
    type V = WriteFields;

    open spec fn view(&self) -> WriteFields {
        WriteFields { idm: self.idm@ }
    }
}

impl<'data> WriteResponse<'data> {
    /// Parses a Write Without Encryption reply.
    pub fn parse_from_data(data: &'data [u8]) -> (r: Result<Self, NfcError>)
        ensures
            match r {
                Ok(response) => write_response(data@) matches Ok(fields) && fields == response@,
                Err(e) => write_response(data@) matches Err(error) && error == e,
            },
    {
        match Self::parse_write_response(data) {
            Ok((_, response)) => Ok(response),
            Err(e) => Err(e),
        }
    }

    /// Parses a Write Without Encryption reply from the front of `data` and
    /// hands back what follows it.
    pub fn parse_write_response(data: &'data [u8]) -> (r: Result<(&'data [u8], Self), NfcError>)
        ensures
            match r {
                Ok((rest, response)) => {
                    &&& write_response(data@) matches Ok(fields) && fields == response@
                    &&& rest@ == data@.subrange(12, data@.len() as int)
                },
                Err(e) => write_response(data@) matches Err(error) && error == e,
            },
    {
        let (input, _) = take(data, 1)?;
        let input = expect_byte(input, WRITE_RESPONSE_CODE, NfcError::UnexpectedResponseCode)?;
        let (input, idm) = take(input, IDM_LENGTH)?;
        let input = expect_byte(input, 0x00, NfcError::CardStatusError)?;
        let (input, _) = take(input, 1)?;
        proof {
            assert(idm@ =~= data@.subrange(2, 10));
            assert(input@ =~= data@.subrange(12, data@.len() as int));
        }
        Ok((input, Self { idm }))
    }
}

/// The reply of the card `idm`, `pmm` to the Polling command `command`: the
/// length byte, the response code, IDm and PMm, and after them `requested`
/// where the command's request code asks for data.
pub open spec fn polling_reply_to(
    command: Seq<u8>,
    idm: Seq<u8>,
    pmm: Seq<u8>,
    requested: Seq<u8>,
) -> Seq<u8> {
    if command[11] == RequestCode::NoRequest.wire() {
        seq![18u8, POLLING_RESPONSE_CODE] + idm + pmm
    } else {
        seq![20u8, POLLING_RESPONSE_CODE] + idm + pmm + requested
    }
}

/// Polling round trip: whatever system code, request code and time slot a
/// Polling command carries, the reply of a card to it parses back to the IDm
/// and the PMm that the card put in, and to the requested data exactly where
/// the command asked for any.
pub proof fn lemma_polling_round_trip(
    system_code: u16,
    request_code: RequestCode,
    time_slot: TimeSlot,
    idm: Seq<u8>,
    pmm: Seq<u8>,
    requested: Seq<u8>,
)
    requires
        idm.len() == IDM_LENGTH,
        pmm.len() == PMM_LENGTH,
        requested.len() == 2,
    ensures
        polling_response(
            polling_reply_to(
                polling_frame(system_code, request_code, time_slot),
                idm,
                pmm,
                requested,
            ),
        ) == Ok::<PollingFields, NfcError>(
            PollingFields {
                idm,
                pmm,
                requested_data: if request_code == RequestCode::NoRequest {
                    None
                } else {
                    Some(requested)
                },
            },
        ),
{
    let reply = polling_reply_to(
        polling_frame(system_code, request_code, time_slot),
        idm,
        pmm,
        requested,
    );
    assert(reply.subrange(2, 10) =~= idm);
    assert(reply.subrange(10, 18) =~= pmm);
    if request_code != RequestCode::NoRequest {
        assert(reply.subrange(18, 20) =~= requested);
    }
}

} // verus!
