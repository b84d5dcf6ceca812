use vstd::prelude::*;

verus! {

/// Readable.
pub const IN: u32 = 0x001;
/// Urgent data readable.
pub const PRI: u32 = 0x002;
/// Writable.
pub const OUT: u32 = 0x004;
/// An error condition.
pub const ERR: u32 = 0x008;
/// Hang up.
pub const HUP: u32 = 0x010;
/// The peer closed its writing half.
pub const RDHUP: u32 = 0x2000;

/// Status flag: reads and writes report "would block" instead of waiting.
pub const O_NONBLOCK: u32 = 0o4000;

/// A set of readiness conditions, held as a bit mask.
#[derive(Debug, Clone, Copy, PartialEq, Eq, Structural)]
pub struct Events {
    pub bits: u32,
}

impl Events {
    /// Every bit of `other` is set in `self`.
    pub open spec fn has_all(self, other: Events) -> bool {
        self.bits & other.bits == other.bits
    }

    /// `self` and `other` share at least one bit.
    pub open spec fn meets(self, other: Events) -> bool {
        self.bits & other.bits != 0
    }

    pub fn empty() -> (r: Events)
        ensures
            r.bits == 0,
    {
        Events { bits: 0 }
    }

    pub fn from_bits(bits: u32) -> (r: Events)
        ensures
            r.bits == bits,
    {
        Events { bits }
    }

    pub fn bits(&self) -> (r: u32)
        ensures
            r == self.bits,
    {
        self.bits
    }

    pub fn is_empty(&self) -> (r: bool)
        ensures
            r == (self.bits == 0),
    {
        self.bits == 0
    }

    pub fn union(&self, other: Events) -> (r: Events)
        ensures
            r.bits == self.bits | other.bits,
    {
        Events { bits: self.bits | other.bits }
    }

    pub fn intersection(&self, other: Events) -> (r: Events)
        ensures
            r.bits == self.bits & other.bits,
    {
        Events { bits: self.bits & other.bits }
    }

    /// The bits of `self` that are not in `other`.
    pub fn difference(&self, other: Events) -> (r: Events)
        ensures
            r.bits == self.bits & !other.bits,
    {
        Events { bits: self.bits & !other.bits }
    }

    pub fn contains(&self, other: Events) -> (r: bool)
        ensures
            r == self.has_all(other),
    {
        self.bits & other.bits == other.bits
    }

    pub fn intersects(&self, other: Events) -> (r: bool)
        ensures
            r == self.meets(other),
    {
        self.bits & other.bits != 0
    }
}

/// Status flags of an open file. Only `O_NONBLOCK` has a meaning here.
#[derive(Debug, Clone, Copy, PartialEq, Eq, Structural)]
pub struct StatusFlags {
    pub bits: u32,
}

impl StatusFlags {
    pub open spec fn has_all(self, other: StatusFlags) -> bool {
        self.bits & other.bits == other.bits
    }

    pub fn empty() -> (r: StatusFlags)
        ensures
            r.bits == 0,
    {
        StatusFlags { bits: 0 }
    }

    pub fn from_bits(bits: u32) -> (r: StatusFlags)
        ensures
            r.bits == bits,
    {
        StatusFlags { bits }
    }

    pub fn bits(&self) -> (r: u32)
        ensures
            r == self.bits,
    {
        self.bits
    }

    pub fn union(&self, other: StatusFlags) -> (r: StatusFlags)
        ensures
            r.bits == self.bits | other.bits,
    {
        StatusFlags { bits: self.bits | other.bits }
    }

    pub fn contains(&self, other: StatusFlags) -> (r: bool)
        ensures
            r == self.has_all(other),
    {
        self.bits & other.bits == other.bits
    }
}

} // verus!
