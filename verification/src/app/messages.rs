//! What clients and replicas exchange: a request names an operation and its operand, a
//! reply carries the value of the register. Both have a byte encoding that is read back
//! exactly.

use crate::wire::{
    decode_i32, decode_u32, encode_i32, encode_u32, lemma_parse_varint_within,
    lemma_signed_varint_round_trip, lemma_varint_more_bytes, lemma_varint_round_trip,
    parse_signed_varint, parse_varint, signed_varint, varint, Malformed,
};
use vstd::prelude::*;
use vstd::slice::slice_subrange;

verus! {

/// The encodings of the messages of the calculator.
pub struct AppData;

/// What a request asks to be done to the register.
#[derive(Clone, Copy, Debug, PartialEq, Eq, Structural)]
pub enum Operation {
    Add,
    Sub,
    Mult,
    Divide,
    Remainder,
    Exponent,
}

/// One command for the state machine.
#[derive(Clone, Copy, Debug, PartialEq, Eq, Structural)]
pub struct Request {
    pub operation: Operation,
    pub value: i32,
}

/// The answer to a request: the value of the register.
#[derive(Clone, Copy, Debug, PartialEq, Eq, Structural)]
pub struct Reply {
    pub value: i32,
}

/// A request as the state machine reads it: the operation, and the operand as the
/// integer it is.
pub struct Command {
    pub operation: Operation,
    pub operand: int,
}

impl View for Request {
    type V = Command;

    open spec fn view(&self) -> Command {
        Command { operation: self.operation, operand: self.value as int }
    }
}

impl View for Reply {
    type V = int;

    /// The integer that the reply carries.
    open spec fn view(&self) -> int {
        self.value as int
    }
}

/// The number of operations.
pub const OPERATIONS: u32 = 6;

impl Operation {
    /// The number by which the operation goes on the wire: its place in the list of
    /// operations, counted from zero.
    pub open spec fn spec_tag(self) -> u32 {
        match self {
            Operation::Add => 0,
            Operation::Sub => 1,
            Operation::Mult => 2,
            Operation::Divide => 3,
            Operation::Remainder => 4,
            Operation::Exponent => 5,
        }
    }

    /// The operation that goes by `tag`, if there is one.
    pub open spec fn spec_from_tag(tag: u32) -> Option<Operation> {
        if tag == 0 {
            Some(Operation::Add)
        } else if tag == 1 {
            Some(Operation::Sub)
        } else if tag == 2 {
            Some(Operation::Mult)
        } else if tag == 3 {
            Some(Operation::Divide)
        } else if tag == 4 {
            Some(Operation::Remainder)
        } else if tag == 5 {
            Some(Operation::Exponent)
        } else {
            None
        }
    }

    /// The number by which the operation goes on the wire.
    #[verifier::when_used_as_spec(spec_tag)]
    pub fn tag(self) -> (tag: u32)
        ensures
            tag == self.spec_tag(),
            tag < OPERATIONS,
    {
        match self {
            Operation::Add => 0,
            Operation::Sub => 1,
            Operation::Mult => 2,
            Operation::Divide => 3,
            Operation::Remainder => 4,
            Operation::Exponent => 5,
        }
    }

    /// The operation that goes by `tag` on the wire; none from `OPERATIONS` on.
    #[verifier::when_used_as_spec(spec_from_tag)]
    pub fn from_tag(tag: u32) -> (operation: Option<Operation>)
        ensures
            operation == Self::spec_from_tag(tag),
            operation is Some <==> tag < OPERATIONS,
            operation matches Some(found) ==> found.spec_tag() == tag,
    {
        match tag {
            0 => Some(Operation::Add),
            1 => Some(Operation::Sub),
            2 => Some(Operation::Mult),
            3 => Some(Operation::Divide),
            4 => Some(Operation::Remainder),
            5 => Some(Operation::Exponent),
            _ => None,
        }
    }
}

impl Request {
    /// A request to apply `operation` with the operand `value`.
    pub fn new(operation: Operation, value: i32) -> (request: Self)
        ensures
            request@ == (Command { operation, operand: value as int }),
    {
        Request { operation, value }
    }

    /// Takes the request apart into its operation and its operand.
    pub fn into(self) -> (parts: (Operation, i32))
        ensures
            parts.0 == self@.operation,
            parts.1 == self@.operand,
    {
        (self.operation, self.value)
    }
}

impl Reply {
    /// A reply that carries `value`.
    pub fn new(value: i32) -> (reply: Self)
        ensures
            reply@ == value,
    {
        Reply { value }
    }

    /// The value that the reply carries.
    pub fn value(&self) -> (value: i32)
        ensures
            value == self@,
    {
        self.value
    }
}

impl AppData {
    /// The bytes of a request: the tag of its operation as an unsigned integer, then
    /// its operand as a signed one.
    pub open spec fn request_bytes(request: Request) -> Seq<u8> {
        varint(request.operation.spec_tag()) + signed_varint(request.value)
    }

    /// The request at the start of `bytes` and the number of bytes it takes, or what is
    /// wrong with the bytes: the first thing that is, in the order in which they are
    /// read.
    pub open spec fn parse_request(bytes: Seq<u8>) -> Result<(Request, usize), Malformed> {
        match parse_varint(bytes) {
            Err(e) => Err(e),
            Ok((tag, used)) => match Operation::spec_from_tag(tag) {
                None => Err(Malformed::UnknownOperation { tag }),
                Some(operation) => match parse_signed_varint(
                    bytes.subrange(used as int, bytes.len() as int),
                ) {
                    Err(e) => Err(e),
                    Ok((value, more)) => Ok(
                        (Request { operation, value }, (used + more) as usize),
                    ),
                },
            },
        }
    }

    /// The bytes of a reply: its value as a signed integer.
    pub open spec fn reply_bytes(reply: Reply) -> Seq<u8> {
        signed_varint(reply.value)
    }

    /// The reply at the start of `bytes` and the number of bytes it takes, or what is
    /// wrong with the bytes.
    pub open spec fn parse_reply(bytes: Seq<u8>) -> Result<(Reply, usize), Malformed> {
        match parse_signed_varint(bytes) {
            Err(e) => Err(e),
            Ok((value, used)) => Ok((Reply { value }, used)),
        }
    }

    /// Encodes a request.
    pub fn serialize_request(request: &Request) -> (bytes: Vec<u8>)
        ensures
            bytes@ == Self::request_bytes(*request),
    {
        let mut bytes: Vec<u8> = encode_u32(request.operation.tag());
        let mut operand: Vec<u8> = encode_i32(request.value);
        bytes.append(&mut operand);
        bytes
    }

    /// Decodes the request at the start of `bytes`, and says how many bytes it took.
    /// Bytes after the request are left alone.
    pub fn deserialize_request(bytes: &[u8]) -> (r: Result<(Request, usize), Malformed>)
        ensures
            r == Self::parse_request(bytes@),
    {
        let (tag, used): (u32, usize) = match decode_u32(bytes) {
            Ok(found) => found,
            Err(e) => { return Err(e); },
        };
        let operation: Operation = match Operation::from_tag(tag) {
            Some(operation) => operation,
            None => { return Err(Malformed::UnknownOperation { tag }); },
        };
        proof {
            lemma_parse_varint_within(bytes@);
        }
        let rest: &[u8] = slice_subrange(bytes, used, bytes.len());
        match decode_i32(rest) {
            Ok((value, more)) => {
                proof {
                    lemma_parse_varint_within(rest@);
                }
                Ok((Request::new(operation, value), used + more))
            },
            Err(e) => Err(e),
        }
    }

    /// Encodes a reply.
    pub fn serialize_reply(reply: &Reply) -> (bytes: Vec<u8>)
        ensures
            bytes@ == Self::reply_bytes(*reply),
    {
        encode_i32(reply.value)
    }

    /// Decodes the reply at the start of `bytes`, and says how many bytes it took.
    /// Bytes after the reply are left alone.
    pub fn deserialize_reply(bytes: &[u8]) -> (r: Result<(Reply, usize), Malformed>)
        ensures
            r == Self::parse_reply(bytes@),
    {
        match decode_i32(bytes) {
            Ok((value, used)) => Ok((Reply::new(value), used)),
            Err(e) => Err(e),
        }
    }
}

/// Every operation is found again by its tag, and every tag below `OPERATIONS` is the
/// tag of the operation found by it.
pub proof fn lemma_tag_inverse(operation: Operation, tag: u32)
    ensures
        Operation::spec_from_tag(operation.spec_tag()) == Some(operation),
        operation.spec_tag() < OPERATIONS,
        tag < OPERATIONS ==> Operation::spec_from_tag(tag) is Some,
        Operation::spec_from_tag(tag) matches Some(found) ==> found.spec_tag() == tag,
{
}

/// Decoding the bytes of a request gives the request back and takes exactly its bytes,
/// whatever follows them.
pub proof fn lemma_request_round_trip(request: Request, rest: Seq<u8>)
    ensures
        AppData::parse_request(AppData::request_bytes(request) + rest) == Ok::<
            (Request, usize),
            Malformed,
        >((request, AppData::request_bytes(request).len() as usize)),
{
    let head: Seq<u8> = varint(request.operation.spec_tag());
    let tail: Seq<u8> = signed_varint(request.value);
    let bytes: Seq<u8> = AppData::request_bytes(request) + rest;
    assert(bytes == head + (tail + rest));
    lemma_varint_round_trip(request.operation.spec_tag(), tail + rest);
    lemma_signed_varint_round_trip(request.value, rest);
    assert(bytes.subrange(head.len() as int, bytes.len() as int) == tail + rest);
}

/// Decoding the bytes of a reply gives the reply back and takes exactly its bytes,
/// whatever follows them.
pub proof fn lemma_reply_round_trip(reply: Reply, rest: Seq<u8>)
    ensures
        AppData::parse_reply(AppData::reply_bytes(reply) + rest) == Ok::<
            (Reply, usize),
            Malformed,
        >((reply, AppData::reply_bytes(reply).len() as usize)),
{
    lemma_signed_varint_round_trip(reply.value, rest);
}

/// Bytes that arrive later change no verdict on a request but that the bytes stop too
/// early: a request that was read is read again, the same and as long, and bytes that
/// were refused stay refused for the same reason. Where they stop too early, they still
/// do until `additional` more bytes have arrived.
pub proof fn lemma_request_more_bytes(bytes: Seq<u8>, more: Seq<u8>)
    ensures
        match AppData::parse_request(bytes) {
            Err(Malformed::UnexpectedEnd { additional }) => more.len() < additional
                ==> AppData::parse_request(bytes + more) == Err::<(Request, usize), Malformed>(
                Malformed::UnexpectedEnd { additional: (additional - more.len()) as usize },
            ),
            verdict => AppData::parse_request(bytes + more) == verdict,
        },
        AppData::parse_request(bytes) matches Err(Malformed::UnexpectedEnd { additional })
            ==> 1 <= additional <= 4,
        AppData::parse_request(bytes) matches Ok((_, used)) ==> 2 <= used <= bytes.len()
            && used <= 10,
{
    lemma_varint_more_bytes(bytes, more);
    lemma_parse_varint_within(bytes);
    if let Ok((tag, used)) = parse_varint(bytes) {
        let rest: Seq<u8> = bytes.subrange(used as int, bytes.len() as int);
        let longer: Seq<u8> = bytes + more;
        assert(longer.subrange(used as int, longer.len() as int) == rest + more);
        lemma_varint_more_bytes(rest, more);
        lemma_parse_varint_within(rest);
    }
}

} // verus!
