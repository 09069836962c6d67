//! Encoders for the FeliCa commands Polling, Read Without Encryption and
//! Write Without Encryption, each wrapped in the reader's transceive envelope
//! `FF C2 00 01 <len> 95 <datalen> <datalen> ...`.

use vstd::prelude::*;
use vstd::slice::slice_to_vec;
use crate::pcsc::{BLOCK_LENGTH, IDM_LENGTH};

verus! {

/// System code that matches every system on a card.
pub const SYSTEM_ALL: u16 = 0xFFFF;

/// Extra data a Polling command asks the card to return.
#[derive(Clone, Copy, Debug, PartialEq, Eq, Structural)]
pub enum RequestCode {
    NoRequest,
    SystemCode,
    Capability,
}

impl RequestCode {
    /// The byte that stands for this request code on the wire.
    pub open spec fn wire(self) -> u8 {
        match self {
            RequestCode::NoRequest => 0x00,
            RequestCode::SystemCode => 0x01,
            RequestCode::Capability => 0x02,
        }
    }

    pub fn encode(&self) -> (byte: u8)
        ensures
            byte == self.wire(),
    {
        match self {
            RequestCode::NoRequest => 0x00,
            RequestCode::SystemCode => 0x01,
            RequestCode::Capability => 0x02,
        }
    }
}

/// Number of time slots in which cards may answer a Polling command.
#[derive(Clone, Copy, Debug, PartialEq, Eq, Structural)]
pub enum TimeSlot {
    Slot1,
    Slot2,
    Slot4,
    Slot8,
    Slot16,
}

impl TimeSlot {
    /// The byte that stands for this time slot on the wire: the slot count
    /// minus one.
    pub open spec fn wire(self) -> u8 {
        match self {
            TimeSlot::Slot1 => 0x00,
            TimeSlot::Slot2 => 0x01,
            TimeSlot::Slot4 => 0x03,
            TimeSlot::Slot8 => 0x07,
            TimeSlot::Slot16 => 0x0F,
        }
    }

    pub fn encode(&self) -> (byte: u8)
        ensures
            byte == self.wire(),
    {
        match self {
            TimeSlot::Slot1 => 0x00,
            TimeSlot::Slot2 => 0x01,
            TimeSlot::Slot4 => 0x03,
            TimeSlot::Slot8 => 0x07,
            TimeSlot::Slot16 => 0x0F,
        }
    }
}

/// The Polling frame: envelope, the fixed byte `00`, the system code with its
/// high byte first, the request code and the time slot.
pub open spec fn polling_frame(
    system_code: u16,
    request_code: RequestCode,
    time_slot: TimeSlot,
) -> Seq<u8> {
    seq![
        0xFFu8, 0xC2, 0x00, 0x01, 0x08, 0x95, 0x06, 0x06,
        0x00,
        (system_code / 256) as u8,
        (system_code % 256) as u8,
        request_code.wire(),
        time_slot.wire(),
    ]
}

/// What follows the two data-size bytes of a Read Without Encryption frame:
/// command code `06`, the IDm, one service `0B 00`, and two block
/// descriptors `80 <block>`.
pub open spec fn read_request(idm: Seq<u8>, block1: u8, block2: u8) -> Seq<u8> {
    seq![0x06u8] + idm + seq![0x01u8, 0x0B, 0x00, 0x02, 0x80, block1, 0x80, block2]
}

/// The Read Without Encryption frame, with the data size written as `12 12`.
pub open spec fn read_without_encryption_frame(idm: Seq<u8>, block1: u8, block2: u8) -> Seq<u8> {
    seq![0xFFu8, 0xC2, 0x00, 0x01, 0x14, 0x95, 0x12, 0x12] + read_request(idm, block1, block2)
}

/// The Read Without Encryption frame of the older layout, which differs from
/// [`read_without_encryption_frame`] only in the data size, written `11 11`.
pub open spec fn read_without_encryption_legacy_frame(
    idm: Seq<u8>,
    block1: u8,
    block2: u8,
) -> Seq<u8> {
    seq![0xFFu8, 0xC2, 0x00, 0x01, 0x14, 0x95, 0x11, 0x11] + read_request(idm, block1, block2)
}

/// The Write Without Encryption frame: envelope, command code `08`, the IDm,
/// one service `09 00`, one block descriptor `80 <block>` and the 16 bytes
/// to store.
pub open spec fn write_without_encryption_frame(idm: Seq<u8>, block: u8, data: Seq<u8>) -> Seq<
    u8,
> {
    seq![0xFFu8, 0xC2, 0x00, 0x01, 0x22, 0x95, 0x20, 0x20, 0x08] + idm + seq![
        0x01u8,
        0x09,
        0x00,
        0x01,
        0x80,
        block,
    ] + data
}

/// Copies `bytes` into `buf` from index `at` on and leaves the rest alone.
fn put<const N: usize>(buf: &mut [u8; N], at: usize, bytes: &[u8])
    requires
        at + bytes@.len() <= N,
    ensures
        final(buf)@ == old(buf)@.subrange(0, at as int) + bytes@ + old(buf)@.subrange(
            at + bytes@.len(),
            N as int,
        ),
{
    let mut i: usize = 0;
    while i < bytes.len()
        invariant
            i <= bytes@.len(),
            at + bytes@.len() <= N,
            buf@.len() == N,
            forall|k: int| 0 <= k < at ==> buf@[k] == old(buf)@[k],
            forall|k: int| 0 <= k < i ==> buf@[at + k] == bytes@[k],
            forall|k: int| at + i <= k < N ==> buf@[k] == old(buf)@[k],
        decreases bytes@.len() - i,
    {
        buf[at + i] = bytes[i];
        i += 1;
    }
    assert(buf@ =~= old(buf)@.subrange(0, at as int) + bytes@ + old(buf)@.subrange(
        at + bytes@.len(),
        N as int,
    ));
}

/// Writes the Polling command for `system_code` into `apdu_buf`.
pub fn polling(
    apdu_buf: &mut [u8; 13],
    system_code: u16,
    request_code: RequestCode,
    time_slot: TimeSlot,
)
    ensures
        final(apdu_buf)@ == polling_frame(system_code, request_code, time_slot),
{
    let high: u8 = (system_code >> 8) as u8;
    let low: u8 = (system_code & 0xFF) as u8;
    assert(system_code >> 8 == system_code / 256 && system_code & 0xFF == system_code % 256)
        by (bit_vector);
    put(apdu_buf, 0, &[0xFF, 0xC2, 0x00, 0x01, 0x08, 0x95, 0x06, 0x06]);
    apdu_buf[8] = 0x00;
    apdu_buf[9] = high;
    apdu_buf[10] = low;
    apdu_buf[11] = request_code.encode();
    apdu_buf[12] = time_slot.encode();
    assert(apdu_buf@ =~= polling_frame(system_code, request_code, time_slot));
}

/// Fills `apdu_buf` with a Read Without Encryption frame whose two data-size
/// bytes are both `data_size`.
fn read_with_data_size(
    apdu_buf: &mut [u8; 25],
    data_size: u8,
    idm: &[u8; IDM_LENGTH],
    block1: u8,
    block2: u8,
)
    ensures
        final(apdu_buf)@ == seq![0xFFu8, 0xC2, 0x00, 0x01, 0x14, 0x95, data_size, data_size]
            + read_request(idm@, block1, block2),
{
    put(apdu_buf, 0, &[0xFF, 0xC2, 0x00, 0x01, 0x14]);
    apdu_buf[5] = 0x95;
    apdu_buf[6] = data_size;
    apdu_buf[7] = data_size;
    apdu_buf[8] = 0x06;
    put(apdu_buf, 9, idm.as_slice());
    apdu_buf[17] = 0x01;
    apdu_buf[18] = 0x0B;
    apdu_buf[19] = 0x00;
    apdu_buf[20] = 0x02;
    apdu_buf[21] = 0x80;
    apdu_buf[22] = block1;
    apdu_buf[23] = 0x80;
    apdu_buf[24] = block2;
    assert(apdu_buf@ =~= seq![0xFFu8, 0xC2, 0x00, 0x01, 0x14, 0x95, data_size, data_size]
        + read_request(idm@, block1, block2));
}

/// Writes into `apdu_buf` the command that reads blocks `block1` and `block2`
/// of the card `idm`.
pub fn read_without_encryption(
    apdu_buf: &mut [u8; 25],
    idm: &[u8; IDM_LENGTH],
    block1: u8,
    block2: u8,
)
    ensures
        final(apdu_buf)@ == read_without_encryption_frame(idm@, block1, block2),
{
    read_with_data_size(apdu_buf, 0x12, idm, block1, block2);
}

/// As [`read_without_encryption`], in the older layout with data size `11 11`.
pub fn read_without_encryption_legacy(
    apdu_buf: &mut [u8; 25],
    idm: &[u8; IDM_LENGTH],
    block1: u8,
    block2: u8,
)
    ensures
        final(apdu_buf)@ == read_without_encryption_legacy_frame(idm@, block1, block2),
{
    read_with_data_size(apdu_buf, 0x11, idm, block1, block2);
}

/// Writes into `apdu_buf` the command that stores `data` in block `block` of
/// the card `idm`.
pub fn write_without_encryption(
    apdu_buf: &mut [u8; 39],
    idm: &[u8; IDM_LENGTH],
    block: u8,
    data: &[u8; BLOCK_LENGTH],
)
    ensures
        final(apdu_buf)@ == write_without_encryption_frame(idm@, block, data@),
{
    put(apdu_buf, 0, &[0xFF, 0xC2, 0x00, 0x01, 0x22]);
    apdu_buf[5] = 0x95;
    apdu_buf[6] = 0x20;
    apdu_buf[7] = 0x20;
    apdu_buf[8] = 0x08;
    put(apdu_buf, 9, idm.as_slice());
    apdu_buf[17] = 0x01;
    apdu_buf[18] = 0x09;
    apdu_buf[19] = 0x00;
    apdu_buf[20] = 0x01;
    apdu_buf[21] = 0x80;
    apdu_buf[22] = block;
    put(apdu_buf, 23, data.as_slice());
    assert(apdu_buf@ =~= write_without_encryption_frame(idm@, block, data@));
}

/// One command to the card, with its parameters.
#[derive(Clone, Copy, Debug)]
pub enum Command {
    Polling { system_code: u16, request_code: RequestCode, time_slot: TimeSlot },
    ReadWithoutEncryption { idm: [u8; IDM_LENGTH], block1: u8, block2: u8 },
    WriteWithoutEncryption { idm: [u8; IDM_LENGTH], block: u8, data: [u8; BLOCK_LENGTH] },
}

impl Command {
    /// The bytes that carry this command to the card.
    pub open spec fn frame(self) -> Seq<u8> {
        match self {
            Command::Polling { system_code, request_code, time_slot } => polling_frame(
                system_code,
                request_code,
                time_slot,
            ),
            Command::ReadWithoutEncryption { idm, block1, block2 } => {
                read_without_encryption_frame(idm@, block1, block2)
            },
            Command::WriteWithoutEncryption { idm, block, data } => {
                write_without_encryption_frame(idm@, block, data@)
            },
        }
    }

    /// Encodes the command into a buffer of its own.
    pub fn encode(self) -> (bytes: Vec<u8>)
        ensures
            bytes@ == self.frame(),
    {
        match self {
            Command::Polling { system_code, request_code, time_slot } => {
                let mut apdu_buf = [0u8; 13];
                polling(&mut apdu_buf, system_code, request_code, time_slot);
                slice_to_vec(apdu_buf.as_slice())
            },
            Command::ReadWithoutEncryption { idm, block1, block2 } => {
                let mut apdu_buf = [0u8; 25];
                read_without_encryption(&mut apdu_buf, &idm, block1, block2);
                slice_to_vec(apdu_buf.as_slice())
            },
            Command::WriteWithoutEncryption { idm, block, data } => {
                let mut apdu_buf = [0u8; 39];
                write_without_encryption(&mut apdu_buf, &idm, block, &data);
                slice_to_vec(apdu_buf.as_slice())
            },
        }
    }
}

} // verus!
