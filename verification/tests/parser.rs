use felica_pcsc::pcsc::apdu::nfc_f::{polling, RequestCode, TimeSlot};
use felica_pcsc::pcsc::parser::nfc_f::{PollingResponse, ReadResponse, WriteResponse};
use felica_pcsc::pcsc::{NfcError, BLOCK_LENGTH, IDM_LENGTH, PMM_LENGTH};

const IDM: [u8; 8] = [0x01, 0x2E, 0x3D, 0x4C, 0x5B, 0x6A, 0x79, 0x88];
const PMM: [u8; 8] = [0x03, 0x01, 0x4B, 0x02, 0x4F, 0x49, 0x93, 0xFF];

fn polling_reply(idm: &[u8; 8], pmm: &[u8; 8], requested: Option<[u8; 2]>) -> Vec<u8> {
    let mut reply = vec![0x12, 0x01];
    reply.extend_from_slice(idm);
    reply.extend_from_slice(pmm);
    if let Some(bytes) = requested {
        reply[0] = 0x14;
        reply.extend_from_slice(&bytes);
    }
    reply
}

fn read_reply(idm: &[u8; 8], status1: u8, data1: &[u8; 16], data2: &[u8; 16]) -> Vec<u8> {
    let mut reply = vec![0x2D, 0x07];
    reply.extend_from_slice(idm);
    reply.extend_from_slice(&[status1, 0x00, 0x02]);
    reply.extend_from_slice(data1);
    reply.extend_from_slice(data2);
    reply
}

fn write_reply(idm: &[u8; 8], status1: u8, status2: u8) -> Vec<u8> {
    let mut reply = vec![0x0C, 0x09];
    reply.extend_from_slice(idm);
    reply.extend_from_slice(&[status1, status2]);
    reply
}

fn ascending(from: u8) -> [u8; 16] {
    let mut block = [0u8; 16];
    for (i, byte) in block.iter_mut().enumerate() {
        *byte = from.wrapping_add(i as u8);
    }
    block
}

#[test]
fn field_lengths() {
    assert_eq!(IDM_LENGTH, 8);
    assert_eq!(PMM_LENGTH, 8);
    assert_eq!(BLOCK_LENGTH, 16);
}

#[test]
fn polling_reply_without_requested_data() {
    let reply = polling_reply(&IDM, &PMM, None);
    let response = PollingResponse::parse_from_data(&reply).unwrap();
    assert_eq!(response.idm, &IDM[..]);
    assert_eq!(response.pmm, &PMM[..]);
    assert_eq!(response.requested_data, None);
}

#[test]
fn polling_reply_with_requested_data() {
    let reply = polling_reply(&IDM, &PMM, Some([0x88, 0xB4]));
    let response = PollingResponse::parse_from_data(&reply).unwrap();
    assert_eq!(response.idm, &IDM[..]);
    assert_eq!(response.pmm, &PMM[..]);
    assert_eq!(response.requested_data, Some(&[0x88u8, 0xB4][..]));
}

#[test]
fn polling_reply_with_one_byte_after_the_pmm_has_no_requested_data() {
    let mut reply = polling_reply(&IDM, &PMM, None);
    reply.push(0x77);
    let (rest, response) = PollingResponse::parse_polling_response(&reply).unwrap();
    assert_eq!(response.idm, &IDM[..]);
    assert_eq!(response.pmm, &PMM[..]);
    assert_eq!(response.requested_data, None);
    assert_eq!(rest, &[0x77u8][..]);
}

#[test]
fn polling_reply_hands_back_what_follows() {
    let mut reply = polling_reply(&IDM, &PMM, Some([0x00, 0x03]));
    reply.extend_from_slice(&[0x90, 0x00]);
    let (rest, response) = PollingResponse::parse_polling_response(&reply).unwrap();
    assert_eq!(response.requested_data, Some(&[0x00u8, 0x03][..]));
    assert_eq!(rest, &[0x90u8, 0x00][..]);

    let reply = polling_reply(&IDM, &PMM, None);
    let (rest, _) = PollingResponse::parse_polling_response(&reply).unwrap();
    assert!(rest.is_empty());
}

#[test]
fn polling_reply_ignores_the_length_byte() {
    for length in [0x00u8, 0x12, 0x14, 0xFF] {
        let mut reply = polling_reply(&IDM, &PMM, None);
        reply[0] = length;
        let response = PollingResponse::parse_from_data(&reply).unwrap();
        assert_eq!(response.idm, &IDM[..]);
        assert_eq!(response.pmm, &PMM[..]);
    }
}

#[test]
fn polling_round_trip_for_every_command() {
    let request_codes = [RequestCode::NoRequest, RequestCode::SystemCode, RequestCode::Capability];
    let time_slots =
        [TimeSlot::Slot1, TimeSlot::Slot2, TimeSlot::Slot4, TimeSlot::Slot8, TimeSlot::Slot16];
    for system_code in [0x0000u16, 0x0003, 0x12FC, 0x8008, 0xFFFF] {
        for request_code in request_codes {
            for time_slot in time_slots {
                let mut command = [0u8; 13];
                polling(&mut command, system_code, request_code, time_slot);
                let requested = if command[11] == 0x00 {
                    None
                } else {
                    Some(system_code.to_be_bytes())
                };
                let reply = polling_reply(&IDM, &PMM, requested);
                let response = PollingResponse::parse_from_data(&reply).unwrap();
                assert_eq!(response.idm, &IDM[..]);
                assert_eq!(response.pmm, &PMM[..]);
                match requested {
                    Some(bytes) => assert_eq!(response.requested_data, Some(&bytes[..])),
                    None => assert_eq!(response.requested_data, None),
                }
            }
        }
    }
}

#[test]
fn parse_polling_response_refuses_every_other_response_code() {
    for code in 0..=255u8 {
        if code == 0x01 {
            continue;
        }
        let mut reply = polling_reply(&IDM, &PMM, Some([0xAB, 0xCD]));
        reply[1] = code;
        assert_eq!(
            PollingResponse::parse_polling_response(&reply).unwrap_err(),
            NfcError::UnexpectedResponseCode
        );
        assert_eq!(
            PollingResponse::parse_from_data(&reply).unwrap_err(),
            NfcError::UnexpectedResponseCode
        );
        assert_eq!(
            PollingResponse::parse_from_data(&[0x02, code]).unwrap_err(),
            NfcError::UnexpectedResponseCode
        );
    }
}

#[test]
fn polling_reply_that_ends_early_is_malformed() {
    let reply = polling_reply(&IDM, &PMM, None);
    for length in 0..reply.len() {
        assert_eq!(
            PollingResponse::parse_from_data(&reply[..length]).unwrap_err(),
            NfcError::MalformedFrame
        );
    }
    assert!(PollingResponse::parse_from_data(&reply).is_ok());
}

#[test]
fn read_reply_gives_the_two_blocks_in_order() {
    let data1 = ascending(0x10);
    let data2 = ascending(0xA0);
    let reply = read_reply(&IDM, 0x00, &data1, &data2);
    let response = ReadResponse::parse_from_data(&reply).unwrap();
    assert_eq!(response.data1, &data1[..]);
    assert_eq!(response.data2, &data2[..]);
}

#[test]
fn read_reply_hands_back_what_follows() {
    let mut reply = read_reply(&IDM, 0x00, &ascending(0), &ascending(16));
    reply.extend_from_slice(&[0x90, 0x00]);
    let (rest, response) = ReadResponse::parse_read_response(&reply).unwrap();
    assert_eq!(response.data1, &ascending(0)[..]);
    assert_eq!(response.data2, &ascending(16)[..]);
    assert_eq!(rest, &[0x90u8, 0x00][..]);
}

#[test]
fn read_reply_ignores_status_flag_2_and_block_count() {
    let mut reply = read_reply(&IDM, 0x00, &ascending(1), &ascending(2));
    reply[11] = 0xFF;
    reply[12] = 0x09;
    let response = ReadResponse::parse_from_data(&reply).unwrap();
    assert_eq!(response.data1, &ascending(1)[..]);
    assert_eq!(response.data2, &ascending(2)[..]);
}

#[test]
fn parse_read_response_refuses_every_status_but_zero() {
    for status in 1..=255u8 {
        let full = read_reply(&IDM, status, &ascending(0), &ascending(16));
        assert_eq!(
            ReadResponse::parse_read_response(&full).unwrap_err(),
            NfcError::CardStatusError
        );
        assert_eq!(ReadResponse::parse_from_data(&full).unwrap_err(), NfcError::CardStatusError);
        // the card's own error reply: nothing follows the two status flags
        let mut short = vec![0x0C, 0x07];
        short.extend_from_slice(&IDM);
        short.extend_from_slice(&[status, 0xA8]);
        assert_eq!(ReadResponse::parse_from_data(&short).unwrap_err(), NfcError::CardStatusError);
        // nor does it matter what stands around the flag
        let mut other = read_reply(&[0xFF; 8], status, &[0xFF; 16], &[0x00; 16]);
        other[0] = 0x00;
        other[11] = status;
        assert_eq!(
            ReadResponse::parse_from_data(&other[..11]).unwrap_err(),
            NfcError::CardStatusError
        );
        assert_eq!(ReadResponse::parse_from_data(&other).unwrap_err(), NfcError::CardStatusError);
    }
}

#[test]
fn read_reply_with_another_response_code() {
    for code in [0x00u8, 0x01, 0x06, 0x08, 0x09, 0xFF] {
        let mut reply = read_reply(&IDM, 0x00, &ascending(0), &ascending(16));
        reply[1] = code;
        assert_eq!(
            ReadResponse::parse_from_data(&reply).unwrap_err(),
            NfcError::UnexpectedResponseCode
        );
        // the response code is looked at before the status flag
        reply[10] = 0x01;
        assert_eq!(
            ReadResponse::parse_from_data(&reply).unwrap_err(),
            NfcError::UnexpectedResponseCode
        );
    }
}

#[test]
fn read_reply_that_ends_early_is_malformed() {
    let reply = read_reply(&IDM, 0x00, &ascending(0), &ascending(16));
    assert_eq!(reply.len(), 45);
    for length in 0..reply.len() {
        assert_eq!(
            ReadResponse::parse_from_data(&reply[..length]).unwrap_err(),
            NfcError::MalformedFrame
        );
    }
}

#[test]
fn write_reply_echoes_the_idm() {
    let reply = write_reply(&IDM, 0x00, 0x00);
    let response = WriteResponse::parse_from_data(&reply).unwrap();
    assert_eq!(response.idm, &IDM[..]);
    let (rest, response) = WriteResponse::parse_write_response(&reply).unwrap();
    assert_eq!(response.idm, &IDM[..]);
    assert!(rest.is_empty());
}

#[test]
fn write_reply_hands_back_what_follows() {
    let mut reply = write_reply(&IDM, 0x00, 0x55);
    reply.extend_from_slice(&[0x90, 0x00, 0x01]);
    let (rest, response) = WriteResponse::parse_write_response(&reply).unwrap();
    assert_eq!(response.idm, &IDM[..]);
    assert_eq!(rest, &[0x90u8, 0x00, 0x01][..]);
}

#[test]
fn write_reply_with_a_status_other_than_zero() {
    for status in [0x01u8, 0x02, 0xA8, 0xFF] {
        let reply = write_reply(&IDM, status, 0x00);
        assert_eq!(WriteResponse::parse_from_data(&reply).unwrap_err(), NfcError::CardStatusError);
        assert_eq!(
            WriteResponse::parse_from_data(&reply[..11]).unwrap_err(),
            NfcError::CardStatusError
        );
    }
}

#[test]
fn write_reply_with_another_response_code() {
    for code in [0x00u8, 0x01, 0x07, 0x08, 0x0A, 0xFF] {
        let mut reply = write_reply(&IDM, 0x00, 0x00);
        reply[1] = code;
        assert_eq!(
            WriteResponse::parse_from_data(&reply).unwrap_err(),
            NfcError::UnexpectedResponseCode
        );
    }
}

#[test]
fn write_reply_that_ends_early_is_malformed() {
    let reply = write_reply(&IDM, 0x00, 0x00);
    assert_eq!(reply.len(), 12);
    for length in 0..reply.len() {
        assert_eq!(
            WriteResponse::parse_from_data(&reply[..length]).unwrap_err(),
            NfcError::MalformedFrame
        );
    }
}

#[test]
fn parsed_fields_borrow_from_the_reply() {
    let reply = polling_reply(&IDM, &PMM, Some([0x01, 0x02]));
    let response = PollingResponse::parse_from_data(&reply).unwrap();
    assert!(std::ptr::eq(response.idm, &reply[2..10]));
    assert!(std::ptr::eq(response.pmm, &reply[10..18]));
    assert!(std::ptr::eq(response.requested_data.unwrap(), &reply[18..20]));

    let reply = read_reply(&IDM, 0x00, &ascending(0), &ascending(16));
    let response = ReadResponse::parse_from_data(&reply).unwrap();
    assert!(std::ptr::eq(response.data1, &reply[13..29]));
    assert!(std::ptr::eq(response.data2, &reply[29..45]));

    let reply = write_reply(&IDM, 0x00, 0x00);
    let response = WriteResponse::parse_from_data(&reply).unwrap();
    assert!(std::ptr::eq(response.idm, &reply[2..10]));
}
