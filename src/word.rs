use vstd::prelude::*;
use crate::field::{P, is_canonical};

verus! {

/// A 32-bit value held as four little-endian byte lanes, each a field element.
#[derive(Clone, Copy, Debug)]
pub struct Word(pub [u32; 4]);

/// The integer that four byte lanes stand for.
pub open spec fn lanes_value(b0: int, b1: int, b2: int, b3: int) -> int {
    b0 + 256 * b1 + 65536 * b2 + 16777216 * b3
}

impl Word {
    /// Every lane lies in `[0, 256)`.
    pub open spec fn is_bytes(&self) -> bool {
        &&& self.0[0] < 256
        &&& self.0[1] < 256
        &&& self.0[2] < 256
        &&& self.0[3] < 256
    }

    /// Every lane is a canonical field element.
    pub open spec fn is_canonical(&self) -> bool {
        &&& is_canonical(self.0[0])
        &&& is_canonical(self.0[1])
        &&& is_canonical(self.0[2])
        &&& is_canonical(self.0[3])
    }

    /// The integer the lanes stand for, read as bytes.
    pub open spec fn value(&self) -> int {
        lanes_value(self.0[0] as int, self.0[1] as int, self.0[2] as int, self.0[3] as int)
    }

    /// The field element `b0 + 256 b1 + 256^2 b2 + 256^3 b3`.
    pub open spec fn reduce_spec(&self) -> int {
        self.value() % (P as int)
    }

    /// The all-zero word.
    pub fn zero() -> (r: Word)
        ensures
            r.is_bytes(),
            r.value() == 0,
    {
        Word([0, 0, 0, 0])
    }

    /// Splits `v` into its four little-endian bytes.
    pub fn from_u32(v: u32) -> (r: Word)
        ensures
            r.is_bytes(),
            r.value() == v as int,
    {
        let b0 = v % 256;
        let b1 = (v / 256) % 256;
        let b2 = (v / 65536) % 256;
        let b3 = v / 16777216;
        assert(b3 < 256);
        Word([b0, b1, b2, b3])
    }

    /// Whether every lane lies in `[0, 256)`.
    pub fn check_bytes(&self) -> (r: bool)
        ensures
            r == self.is_bytes(),
    {
        self.0[0] < 256 && self.0[1] < 256 && self.0[2] < 256 && self.0[3] < 256
    }

    /// The field element that the lanes stand for.
    pub fn reduce(&self) -> (r: u32)
        requires
            self.is_canonical(),
        ensures
            r as int == self.reduce_spec(),
            is_canonical(r),
    {
        let v: u64 = self.0[0] as u64 + 256 * (self.0[1] as u64) + 65536 * (self.0[2] as u64)
            + 16777216 * (self.0[3] as u64);
        (v % (P as u64)) as u32
    }

    /// Lane-wise equality.
    pub fn lanes_eq(&self, o: &Word) -> (r: bool)
        ensures
            r == (self.0@ == o.0@),
    {
        let r = self.0[0] == o.0[0] && self.0[1] == o.0[1] && self.0[2] == o.0[2] && self.0[3]
            == o.0[3];
        proof {
            if r {
                assert(self.0@ =~= o.0@);
            }
        }
        r
    }
}

} // verus!
