//! The byte format of integers on the wire: bincode's variable-length encoding in its
//! standard configuration. The bytes are produced and read by bincode itself; this
//! module says what they are, and proves that reading gives back what was written.

use vstd::pervasive::unreached;
use vstd::prelude::*;

verus! {

/// `bincode::error::EncodeError`, as bincode hands it out. Nothing is known of what it
/// holds.
#[verifier::external_type_specification]
#[verifier::external_body]
pub struct ExEncodeError(bincode::error::EncodeError);

/// `bincode::error::DecodeError`, as bincode hands it out. Nothing is known of what it
/// holds.
#[verifier::external_type_specification]
#[verifier::external_body]
pub struct ExDecodeError(bincode::error::DecodeError);

/// Why bytes are not the encoding of a value.
#[derive(Clone, Copy, Debug, PartialEq, Eq, Structural)]
pub enum Malformed {
    /// The bytes stop before the value is complete. Nothing can be decoded before
    /// `additional` more bytes have arrived.
    UnexpectedEnd { additional: usize },
    /// An integer starts with a `marker` byte that no 32-bit integer starts with: one
    /// that announces 64 or 128 bits, or the reserved one.
    InvalidInteger { marker: u8 },
    /// The tag of an operation names none.
    UnknownOperation { tag: u32 },
}

/// The largest integer that is written as a single byte.
pub const SINGLE_BYTE_MAX: u8 = 250;

/// The first byte of an integer that follows in two bytes.
pub const TWO_BYTES: u8 = 251;

/// The first byte of an integer that follows in four bytes.
pub const FOUR_BYTES: u8 = 252;

/// The unsigned number that stands for a signed one on the wire: the non-negative
/// numbers take the even places, the negative ones the odd places.
pub open spec fn zigzag(value: i32) -> u32 {
    if value < 0 {
        (-2 * value - 1) as u32
    } else {
        (2 * value) as u32
    }
}

/// The signed number that an unsigned one stands for on the wire.
pub open spec fn unzigzag(n: u32) -> i32 {
    if n % 2 == 0 {
        (n / 2) as i32
    } else {
        (-(n as int / 2) - 1) as i32
    }
}

/// The bytes of an unsigned integer: itself up to 250; else a marker byte and the
/// integer in two or in four bytes, the least significant byte first.
pub open spec fn varint(n: u32) -> Seq<u8> {
    if n <= SINGLE_BYTE_MAX {
        seq![n as u8]
    } else if n <= u16::MAX {
        seq![TWO_BYTES, (n % 256) as u8, (n / 256) as u8]
    } else {
        seq![
            FOUR_BYTES,
            (n % 256) as u8,
            (n / 256 % 256) as u8,
            (n / 65536 % 256) as u8,
            (n / 16777216) as u8,
        ]
    }
}

/// The unsigned integer at the start of `bytes` and the number of bytes it takes, or
/// why there is none. What follows the integer is not looked at, and an integer need not
/// be written in the shortest way to be read.
pub open spec fn parse_varint(bytes: Seq<u8>) -> Result<(u32, usize), Malformed> {
    if bytes.len() == 0 {
        Err(Malformed::UnexpectedEnd { additional: 1 })
    } else if bytes[0] <= SINGLE_BYTE_MAX {
        Ok((bytes[0] as u32, 1))
    } else if bytes[0] == TWO_BYTES {
        if bytes.len() < 3 {
            Err(Malformed::UnexpectedEnd { additional: (3 - bytes.len()) as usize })
        } else {
            Ok(((bytes[1] + 256 * bytes[2]) as u32, 3))
        }
    } else if bytes[0] == FOUR_BYTES {
        if bytes.len() < 5 {
            Err(Malformed::UnexpectedEnd { additional: (5 - bytes.len()) as usize })
        } else {
            Ok(
                (
                    (bytes[1] + 256 * bytes[2] + 65536 * bytes[3] + 16777216 * bytes[4]) as u32,
                    5,
                ),
            )
        }
    } else {
        Err(Malformed::InvalidInteger { marker: bytes[0] })
    }
}

/// The bytes of a signed integer: those of the unsigned one that stands for it.
pub open spec fn signed_varint(value: i32) -> Seq<u8> {
    varint(zigzag(value))
}

/// The signed integer at the start of `bytes` and the number of bytes it takes, or why
/// there is none.
pub open spec fn parse_signed_varint(bytes: Seq<u8>) -> Result<(i32, usize), Malformed> {
    match parse_varint(bytes) {
        Ok((n, used)) => Ok((unzigzag(n), used)),
        Err(e) => Err(e),
    }
}

/// An unsigned integer is read back from its bytes, whatever follows them.
pub proof fn lemma_varint_round_trip(n: u32, rest: Seq<u8>)
    ensures
        1 <= varint(n).len() <= 5,
        parse_varint(varint(n) + rest) == Ok::<(u32, usize), Malformed>(
            (n, varint(n).len() as usize),
        ),
{
    let bytes: Seq<u8> = varint(n) + rest;
    assert(forall|i: int| 0 <= i < varint(n).len() ==> bytes[i] == varint(n)[i]);
}

/// Each signed integer has an unsigned stand-in of its own, and each unsigned integer
/// stands for a signed one.
pub proof fn lemma_zigzag_inverse(value: i32, n: u32)
    ensures
        unzigzag(zigzag(value)) == value,
        zigzag(unzigzag(n)) == n,
{
}

/// A signed integer is read back from its bytes, whatever follows them.
pub proof fn lemma_signed_varint_round_trip(value: i32, rest: Seq<u8>)
    ensures
        1 <= signed_varint(value).len() <= 5,
        parse_signed_varint(signed_varint(value) + rest) == Ok::<(i32, usize), Malformed>(
            (value, signed_varint(value).len() as usize),
        ),
{
    lemma_varint_round_trip(zigzag(value), rest);
    lemma_zigzag_inverse(value, 0);
}

/// Bytes that arrive later change no verdict but that the bytes stop too early: an
/// integer that was read is read again, the same and as long, and a marker that was
/// refused stays refused. Where they stop too early, they still do until `additional`
/// more bytes have arrived.
pub proof fn lemma_varint_more_bytes(bytes: Seq<u8>, more: Seq<u8>)
    ensures
        match parse_varint(bytes) {
            Err(Malformed::UnexpectedEnd { additional }) => more.len() < additional
                ==> parse_varint(bytes + more) == Err::<(u32, usize), Malformed>(
                Malformed::UnexpectedEnd { additional: (additional - more.len()) as usize },
            ),
            verdict => parse_varint(bytes + more) == verdict,
        },
        match parse_signed_varint(bytes) {
            Err(Malformed::UnexpectedEnd { additional }) => more.len() < additional
                ==> parse_signed_varint(bytes + more) == Err::<(i32, usize), Malformed>(
                Malformed::UnexpectedEnd { additional: (additional - more.len()) as usize },
            ),
            verdict => parse_signed_varint(bytes + more) == verdict,
        },
{
    let longer: Seq<u8> = bytes + more;
    assert(forall|i: int| 0 <= i < bytes.len() ==> longer[i] == bytes[i]);
}

/// What is read never reaches past the end of the bytes, and where bytes are missing, at
/// least one is and at most four are.
pub proof fn lemma_parse_varint_within(bytes: Seq<u8>)
    ensures
        parse_varint(bytes) matches Ok((_, used)) ==> 1 <= used <= bytes.len() && used <= 5,
        parse_signed_varint(bytes) matches Ok((_, used)) ==> 1 <= used <= bytes.len() && used
            <= 5,
        parse_varint(bytes) matches Err(Malformed::UnexpectedEnd { additional }) ==> 1
            <= additional <= 4,
        parse_signed_varint(bytes) matches Err(Malformed::UnexpectedEnd { additional }) ==> 1
            <= additional <= 4,
{
}

/// `bincode::encode_to_vec` for a `u32` in `bincode::config::standard()`. Trusted: the
/// call succeeds, and the bytes are the variable-length little-endian form that
/// `varint` spells out.
#[verifier::external_body]
fn bincode_encode_u32(value: u32) -> (r: Result<Vec<u8>, bincode::error::EncodeError>)
    ensures
        match r {
            Ok(bytes) => bytes@ == varint(value),
            Err(_) => false,
        },
{
    bincode::encode_to_vec(value, bincode::config::standard())
}

/// `bincode::encode_to_vec` for an `i32` in `bincode::config::standard()`. Trusted: the
/// call succeeds, and the bytes are those of the unsigned stand-in of `value`.
#[verifier::external_body]
fn bincode_encode_i32(value: i32) -> (r: Result<Vec<u8>, bincode::error::EncodeError>)
    ensures
        match r {
            Ok(bytes) => bytes@ == signed_varint(value),
            Err(_) => false,
        },
{
    bincode::encode_to_vec(value, bincode::config::standard())
}

/// `bincode::decode_from_slice` for a `u32` in `bincode::config::standard()`. Trusted:
/// the call succeeds exactly on the bytes that `parse_varint` accepts, and then gives
/// the integer and the number of bytes read that `parse_varint` gives. Nothing is
/// claimed of the error.
#[verifier::external_body]
fn bincode_decode_u32(bytes: &[u8]) -> (r: Result<(u32, usize), bincode::error::DecodeError>)
    ensures
        match parse_varint(bytes@) {
            Ok(parsed) => r matches Ok(found) && found == parsed,
            Err(_) => r is Err,
        },
{
    bincode::decode_from_slice(bytes, bincode::config::standard())
}

/// `bincode::decode_from_slice` for an `i32` in `bincode::config::standard()`. Trusted:
/// the call succeeds exactly on the bytes that `parse_signed_varint` accepts, and then
/// gives the integer and the number of bytes read that `parse_signed_varint` gives.
/// Nothing is claimed of the error.
#[verifier::external_body]
fn bincode_decode_i32(bytes: &[u8]) -> (r: Result<(i32, usize), bincode::error::DecodeError>)
    ensures
        match parse_signed_varint(bytes@) {
            Ok(parsed) => r matches Ok(found) && found == parsed,
            Err(_) => r is Err,
        },
{
    bincode::decode_from_slice(bytes, bincode::config::standard())
}

/// Says why no integer starts `bytes`.
fn varint_error(bytes: &[u8]) -> (e: Malformed)
    requires
        parse_varint(bytes@) is Err,
    ensures
        parse_varint(bytes@) == Err::<(u32, usize), Malformed>(e),
{
    if bytes.len() == 0 {
        Malformed::UnexpectedEnd { additional: 1 }
    } else {
        let marker: u8 = bytes[0];
        if marker == TWO_BYTES {
            Malformed::UnexpectedEnd { additional: 3 - bytes.len() }
        } else if marker == FOUR_BYTES {
            Malformed::UnexpectedEnd { additional: 5 - bytes.len() }
        } else {
            Malformed::InvalidInteger { marker }
        }
    }
}

/// Writes an unsigned integer.
pub fn encode_u32(value: u32) -> (bytes: Vec<u8>)
    ensures
        bytes@ == varint(value),
{
    match bincode_encode_u32(value) {
        Ok(bytes) => bytes,
        Err(_) => unreached(),
    }
}

/// Writes a signed integer.
pub fn encode_i32(value: i32) -> (bytes: Vec<u8>)
    ensures
        bytes@ == signed_varint(value),
{
    match bincode_encode_i32(value) {
        Ok(bytes) => bytes,
        Err(_) => unreached(),
    }
}

/// Reads the unsigned integer at the start of `bytes`, and says how many bytes it took.
pub fn decode_u32(bytes: &[u8]) -> (r: Result<(u32, usize), Malformed>)
    ensures
        r == parse_varint(bytes@),
{
    match bincode_decode_u32(bytes) {
        Ok(found) => Ok(found),
        Err(_) => Err(varint_error(bytes)),
    }
}

/// Reads the signed integer at the start of `bytes`, and says how many bytes it took.
pub fn decode_i32(bytes: &[u8]) -> (r: Result<(i32, usize), Malformed>)
    ensures
        r == parse_signed_varint(bytes@),
{
    match bincode_decode_i32(bytes) {
        Ok(found) => Ok(found),
        Err(_) => Err(varint_error(bytes)),
    }
}

} // verus!
