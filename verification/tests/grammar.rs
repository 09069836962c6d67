use felica_pcsc::pcsc::parser::nfc_f::{PollingResponse, ReadResponse, WriteResponse};
use nom::bytes::complete::{tag, take};
use nom::combinator::opt;
use nom::IResult;

type Polling<'a> = (&'a [u8], &'a [u8], Option<&'a [u8]>);

fn polling_by_combinators(data: &[u8]) -> IResult<&[u8], Polling<'_>> {
    let (input, _) = take(1usize)(data)?;
    let (input, _) = tag(&b"\x01"[..])(input)?;
    let (input, idm) = take(8usize)(input)?;
    let (input, pmm) = take(8usize)(input)?;
    let (input, requested_data) = opt(take(2usize))(input)?;
    Ok((input, (idm, pmm, requested_data)))
}

fn read_by_combinators(data: &[u8]) -> IResult<&[u8], (&[u8], &[u8])> {
    let (input, _) = take(1usize)(data)?;
    let (input, _) = tag(&b"\x07"[..])(input)?;
    let (input, _) = take(8usize)(input)?;
    let (input, _) = tag(&b"\x00"[..])(input)?;
    let (input, _) = take(1usize)(input)?;
    let (input, _) = take(1usize)(input)?;
    let (input, data1) = take(16usize)(input)?;
    let (input, data2) = take(16usize)(input)?;
    Ok((input, (data1, data2)))
}

fn write_by_combinators(data: &[u8]) -> IResult<&[u8], &[u8]> {
    let (input, _) = take(1usize)(data)?;
    let (input, _) = tag(&b"\x09"[..])(input)?;
    let (input, idm) = take(8usize)(input)?;
    let (input, _) = tag(&b"\x00"[..])(input)?;
    let (input, _) = take(1usize)(input)?;
    Ok((input, idm))
}

/// Replies of every length up to `longest`, with the bytes at `marks` set to
/// each of a few values in turn.
fn samples(longest: usize, marks: &[usize], values: &[u8]) -> Vec<Vec<u8>> {
    let mut out = Vec::new();
    for length in 0..=longest {
        let base: Vec<u8> = (0..length).map(|i| (i * 7 + 3) as u8).collect();
        out.push(base.clone());
        for &first in values {
            for &second in values {
                let mut reply = base.clone();
                if let Some(byte) = marks.first().and_then(|&at| reply.get_mut(at)) {
                    *byte = first;
                }
                if let Some(byte) = marks.get(1).and_then(|&at| reply.get_mut(at)) {
                    *byte = second;
                }
                out.push(reply);
            }
        }
    }
    out
}

#[test]
fn polling_agrees_with_the_combinator_grammar() {
    for reply in samples(24, &[1], &[0x00, 0x01, 0x02, 0x07]) {
        let expected = polling_by_combinators(&reply);
        let got = PollingResponse::parse_polling_response(&reply);
        match (expected, got) {
            (Ok((rest, (idm, pmm, requested))), Ok((got_rest, response))) => {
                assert_eq!(response.idm, idm);
                assert_eq!(response.pmm, pmm);
                assert_eq!(response.requested_data, requested);
                assert_eq!(got_rest, rest);
            }
            (Err(_), Err(_)) => {}
            (expected, got) => panic!("{:02X?}: {:?} against {:?}", reply, expected, got),
        }
    }
}

#[test]
fn read_agrees_with_the_combinator_grammar() {
    for reply in samples(50, &[1, 10], &[0x00, 0x01, 0x07, 0xA8]) {
        let expected = read_by_combinators(&reply);
        let got = ReadResponse::parse_read_response(&reply);
        match (expected, got) {
            (Ok((rest, (data1, data2))), Ok((got_rest, response))) => {
                assert_eq!(response.data1, data1);
                assert_eq!(response.data2, data2);
                assert_eq!(got_rest, rest);
            }
            (Err(_), Err(_)) => {}
            (expected, got) => panic!("{:02X?}: {:?} against {:?}", reply, expected, got),
        }
    }
}

#[test]
fn write_agrees_with_the_combinator_grammar() {
    for reply in samples(16, &[1, 10], &[0x00, 0x01, 0x09, 0xA8]) {
        let expected = write_by_combinators(&reply);
        let got = WriteResponse::parse_write_response(&reply);
        match (expected, got) {
            (Ok((rest, idm)), Ok((got_rest, response))) => {
                assert_eq!(response.idm, idm);
                assert_eq!(got_rest, rest);
            }
            (Err(_), Err(_)) => {}
            (expected, got) => panic!("{:02X?}: {:?} against {:?}", reply, expected, got),
        }
    }
}
