use example_app::wire::{decode_i32, decode_u32, encode_i32, encode_u32, Malformed};

fn expected_bytes(n: u32) -> Vec<u8> {
    let le: [u8; 4] = n.to_le_bytes();
    if n <= 250 {
        vec![le[0]]
    } else if n <= 65535 {
        vec![251, le[0], le[1]]
    } else {
        vec![252, le[0], le[1], le[2], le[3]]
    }
}

fn expected_stand_in(value: i32) -> u32 {
    let wide: i64 = value as i64;
    if wide < 0 {
        (-2 * wide - 1) as u32
    } else {
        (2 * wide) as u32
    }
}

fn expected_signed(n: u32) -> i32 {
    let wide: i64 = n as i64;
    if wide % 2 == 0 {
        (wide / 2) as i32
    } else {
        (-(wide / 2) - 1) as i32
    }
}

fn expected_parse(bytes: &[u8]) -> Result<(u32, usize), Malformed> {
    if bytes.is_empty() {
        return Err(Malformed::UnexpectedEnd { additional: 1 });
    }
    let marker: u8 = bytes[0];
    if marker <= 250 {
        Ok((marker as u32, 1))
    } else if marker == 251 {
        if bytes.len() < 3 {
            Err(Malformed::UnexpectedEnd { additional: 3 - bytes.len() })
        } else {
            Ok((u16::from_le_bytes([bytes[1], bytes[2]]) as u32, 3))
        }
    } else if marker == 252 {
        if bytes.len() < 5 {
            Err(Malformed::UnexpectedEnd { additional: 5 - bytes.len() })
        } else {
            Ok((u32::from_le_bytes([bytes[1], bytes[2], bytes[3], bytes[4]]), 5))
        }
    } else {
        Err(Malformed::InvalidInteger { marker })
    }
}

fn sweep() -> Vec<u32> {
    let mut all: Vec<u32> = Vec::new();
    let mut n: u32 = 0;
    while n < 70_000 {
        all.push(n);
        n += 1;
    }
    let mut shift: u32 = 16;
    while shift < 32 {
        let power: u32 = 1u32 << shift;
        all.push(power - 1);
        all.push(power);
        all.push(power + 1);
        all.push(power.wrapping_mul(3) / 2);
        shift += 1;
    }
    all.push(u32::MAX - 1);
    all.push(u32::MAX);
    all
}

#[test]
fn unsigned_bytes_over_a_sweep() {
    for n in sweep() {
        let bytes: Vec<u8> = encode_u32(n);
        assert_eq!(bytes, expected_bytes(n));
        assert_eq!(decode_u32(&bytes), Ok((n, bytes.len())));
    }
}

#[test]
fn signed_bytes_over_a_sweep() {
    for n in sweep() {
        let value: i32 = expected_signed(n);
        assert_eq!(expected_stand_in(value), n);
        let bytes: Vec<u8> = encode_i32(value);
        assert_eq!(bytes, expected_bytes(n));
        assert_eq!(decode_i32(&bytes), Ok((value, bytes.len())));
    }
}

#[test]
fn every_first_byte_at_every_length() {
    let filler: [u8; 7] = [0x11, 0x82, 0xf3, 0x04, 0xff, 0x00, 0x7f];
    let mut first: u16 = 0;
    while first < 256 {
        let mut length: usize = 0;
        while length <= 7 {
            let mut bytes: Vec<u8> = Vec::new();
            if length > 0 {
                bytes.push(first as u8);
                bytes.extend_from_slice(&filler[..length - 1]);
            }
            let expected: Result<(u32, usize), Malformed> = expected_parse(&bytes);
            assert_eq!(decode_u32(&bytes), expected);
            assert_eq!(decode_i32(&bytes), expected.map(|(n, used)| (expected_signed(n), used)));
            length += 1;
        }
        first += 1;
    }
}

#[test]
fn every_two_byte_integer() {
    let mut n: u32 = 0;
    while n <= 65535 {
        let le: [u8; 4] = n.to_le_bytes();
        assert_eq!(decode_u32(&[251, le[0], le[1]]), Ok((n, 3)));
        assert_eq!(decode_i32(&[251, le[0], le[1], 9]), Ok((expected_signed(n), 3)));
        assert_eq!(decode_u32(&[252, le[0], le[1], 0, 0, 9, 9]), Ok((n, 5)));
        n += 1;
    }
}
