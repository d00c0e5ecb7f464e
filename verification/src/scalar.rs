//! Carriers for the toolkit's real-valued payload fields.
//!
//! The core never computes with a cursor coordinate, a gesture delta or a
//! scale factor; it only hands them on to a handler. Such a value travels as
//! the bit pattern of its IEEE 754 encoding, which the caller obtains with
//! `to_bits` and a handler turns back with `from_bits`, so nothing is lost on
//! the way.

use vstd::prelude::*;

verus! {

/// A double-precision value, held as its 64-bit pattern.
#[derive(Clone, Copy, Debug, PartialEq, Eq, Structural)]
pub struct Double {
    bits: u64,
}

impl Double {
    /// The bit pattern carried.
    pub closed spec fn view(&self) -> u64 {
        self.bits
    }

    /// Wraps a bit pattern.
    pub fn from_bits(bits: u64) -> (d: Double)
        ensures
            d@ == bits,
    {
        Double { bits }
    }

    /// The bit pattern that was wrapped.
    pub fn to_bits(&self) -> (bits: u64)
        ensures
            bits == self@,
    {
        self.bits
    }
}

/// A single-precision value, held as its 32-bit pattern.
#[derive(Clone, Copy, Debug, PartialEq, Eq, Structural)]
pub struct Single {
    bits: u32,
}

impl Single {
    /// The bit pattern carried.
    pub closed spec fn view(&self) -> u32 {
        self.bits
    }

    /// Wraps a bit pattern.
    pub fn from_bits(bits: u32) -> (s: Single)
        ensures
            s@ == bits,
    {
        Single { bits }
    }

    /// The bit pattern that was wrapped.
    pub fn to_bits(&self) -> (bits: u32)
        ensures
            bits == self@,
    {
        self.bits
    }
}

} // verus!
