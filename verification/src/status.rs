//! Sensor status flags: a bit-mask over a small closed vocabulary.
//!
//! Unknown bits coming from the hardware interface are preserved losslessly
//! unless truncation is explicitly requested, in which case they are dropped.

use vstd::prelude::*;

verus! {

/// Raw mask of the "sensor is active" flag.
pub const STATUS_ACTIVE: u32 = 0x01;

/// Raw mask of the "sensor raised an alarm" flag.
pub const STATUS_ALARM: u32 = 0x02;

/// Raw mask of the "sensor is broken" flag.
pub const STATUS_BROKEN: u32 = 0x04;

/// Raw mask of the "sensor reports a short circuit" flag.
pub const STATUS_SHORT_CIRCUIT: u32 = 0x08;

/// Union of all documented status flags.
pub const STATUS_KNOWN_MASK: u32 = 0x0f;

/// Status flags reported alongside a sensor reading.
#[derive(Clone, Copy, Debug, PartialEq, Eq, Structural)]
pub struct Status {
    bits: u32,
}

impl Status {
    /// The raw bit pattern this set stands for.
    pub closed spec fn spec_bits(self) -> u32 {
        self.bits
    }

    /// The set holding exactly the given raw bits, unknown bits included.
    pub closed spec fn spec_from_bits(bits: u32) -> Status {
        Status { bits }
    }

    /// The set holding the given raw bits with unknown bits dropped.
    pub open spec fn spec_from_bits_truncate(bits: u32) -> Status {
        Status::spec_from_bits(bits & STATUS_KNOWN_MASK)
    }

    /// This set with unknown bits dropped.
    pub open spec fn spec_truncate(self) -> Status {
        Status::spec_from_bits_truncate(self.spec_bits())
    }

    /// Builds a set from raw bits, preserving unknown bits losslessly.
    pub fn from_bits(bits: u32) -> (r: Status)
        ensures
            r == Status::spec_from_bits(bits),
            r.spec_bits() == bits,
    {
        Status { bits }
    }

    /// Builds a set from raw bits, dropping bits outside the documented
    /// vocabulary.
    pub fn from_bits_truncate(bits: u32) -> (r: Status)
        ensures
            r == Status::spec_from_bits_truncate(bits),
            r.spec_bits() == bits & STATUS_KNOWN_MASK,
    {
        Status { bits: bits & STATUS_KNOWN_MASK }
    }

    /// The raw bit pattern, for handing back to the hardware interface.
    pub fn bits(&self) -> (r: u32)
        ensures
            r == self.spec_bits(),
    {
        self.bits
    }

    /// This set with unknown bits dropped.
    pub fn truncate(&self) -> (r: Status)
        ensures
            r == self.spec_truncate(),
            r.spec_bits() == self.spec_bits() & STATUS_KNOWN_MASK,
    {
        Status { bits: self.bits & STATUS_KNOWN_MASK }
    }

    /// Union of the two sets.
    pub fn union(&self, other: &Status) -> (r: Status)
        ensures
            r.spec_bits() == self.spec_bits() | other.spec_bits(),
    {
        Status { bits: self.bits | other.bits }
    }

    /// Intersection of the two sets.
    pub fn intersection(&self, other: &Status) -> (r: Status)
        ensures
            r.spec_bits() == self.spec_bits() & other.spec_bits(),
    {
        Status { bits: self.bits & other.bits }
    }

    /// Membership: whether every flag of `other` is set in `self`.
    pub fn contains(&self, other: &Status) -> (r: bool)
        ensures
            r == (self.spec_bits() & other.spec_bits() == other.spec_bits()),
    {
        self.bits & other.bits == other.bits
    }

    /// Whether no flag at all is set.
    pub fn is_empty(&self) -> (r: bool)
        ensures
            r == (self.spec_bits() == 0),
    {
        self.bits == 0
    }

    /// The "sensor is active" flag alone.
    pub fn active() -> (r: Status)
        ensures
            r.spec_bits() == STATUS_ACTIVE,
    {
        Status { bits: STATUS_ACTIVE }
    }

    /// The "sensor raised an alarm" flag alone.
    pub fn alarm() -> (r: Status)
        ensures
            r.spec_bits() == STATUS_ALARM,
    {
        Status { bits: STATUS_ALARM }
    }

    /// The "sensor is broken" flag alone.
    pub fn broken() -> (r: Status)
        ensures
            r.spec_bits() == STATUS_BROKEN,
    {
        Status { bits: STATUS_BROKEN }
    }

    /// The "sensor reports a short circuit" flag alone.
    pub fn short_circuit() -> (r: Status)
        ensures
            r.spec_bits() == STATUS_SHORT_CIRCUIT,
    {
        Status { bits: STATUS_SHORT_CIRCUIT }
    }
}

/// Law: converting a truncated status set to raw bits and building a set
/// from those bits again gives the truncated set back, whether or not the
/// rebuilding truncates once more.
pub proof fn lemma_status_truncate_roundtrip(x: Status)
    ensures
        Status::spec_from_bits(x.spec_truncate().spec_bits()) == x.spec_truncate(),
        Status::spec_from_bits_truncate(x.spec_truncate().spec_bits()) == x.spec_truncate(),
{
    let b = x.spec_bits();
    assert(b & STATUS_KNOWN_MASK & STATUS_KNOWN_MASK == b & STATUS_KNOWN_MASK) by (bit_vector);
}

} // verus!
