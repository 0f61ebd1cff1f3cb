//! The replicated state: one signed 32-bit register.

use crate::wire::{
    decode_i32, encode_i32, lemma_signed_varint_round_trip, parse_signed_varint, signed_varint,
    Malformed,
};
use vstd::prelude::*;

verus! {

/// The register of the calculator. It starts at zero, and only applied requests change
/// it.
#[derive(Clone, Copy, Debug, PartialEq, Eq, Structural)]
pub struct CalculatorState {
    pub value: i32,
}

impl View for CalculatorState {
    type V = int;

    /// The integer that the register holds.
    open spec fn view(&self) -> int {
        self.value as int
    }
}

impl Default for CalculatorState {
    /// The state that every replica starts from.
    fn default() -> (state: Self)
        ensures
            state@ == 0,
    {
        CalculatorState { value: 0 }
    }
}

impl CalculatorState {
    /// The value of the register.
    pub fn value(&self) -> (value: i32)
        ensures
            value == self@,
    {
        self.value
    }

    /// Puts `value` in the register.
    pub fn set_value(&mut self, value: i32)
        ensures
            final(self)@ == value,
    {
        self.value = value;
    }

    /// The bytes of a state: the value of the register as a signed integer.
    pub open spec fn state_bytes(state: CalculatorState) -> Seq<u8> {
        signed_varint(state.value)
    }

    /// The state at the start of `bytes` and the number of bytes it takes, or what is
    /// wrong with the bytes.
    pub open spec fn parse_state(bytes: Seq<u8>) -> Result<(CalculatorState, usize), Malformed> {
        match parse_signed_varint(bytes) {
            Err(e) => Err(e),
            Ok((value, used)) => Ok((CalculatorState { value }, used)),
        }
    }

    /// Encodes a state, for a checkpoint or for a replica that catches up.
    pub fn serialize_state(state: &Self) -> (bytes: Vec<u8>)
        ensures
            bytes@ == Self::state_bytes(*state),
    {
        encode_i32(state.value)
    }

    /// Decodes the state at the start of `bytes`, and says how many bytes it took. Bytes
    /// after the state are left alone.
    pub fn deserialize_state(bytes: &[u8]) -> (r: Result<(Self, usize), Malformed>)
        ensures
            r == Self::parse_state(bytes@),
    {
        match decode_i32(bytes) {
            Ok((value, used)) => Ok((CalculatorState { value }, used)),
            Err(e) => Err(e),
        }
    }
}

/// Decoding the bytes of a state gives the state back and takes exactly its bytes,
/// whatever follows them.
pub proof fn lemma_state_round_trip(state: CalculatorState, rest: Seq<u8>)
    ensures
        CalculatorState::parse_state(CalculatorState::state_bytes(state) + rest) == Ok::<
            (CalculatorState, usize),
            Malformed,
        >((state, CalculatorState::state_bytes(state).len() as usize)),
{
    lemma_signed_varint_round_trip(state.value, rest);
}

} // verus!
