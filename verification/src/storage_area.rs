//! Storage areas: the capability-class bit-set, the asynchronous erase
//! status, and the accessor scoped to one board.
//!
//! An accessor selects a logical region of onboard memory either by ordinal
//! index or by capability class, lazily: no query is issued until an
//! operation is invoked against the interface.

use core::marker::PhantomData;
use vstd::prelude::*;

verus! {

/// Raw mask of an area of unknown kind.
pub const STORAGE_AREA_UNKNOWN: u32 = 0x00000000;

/// Raw mask of an EEPROM area.
pub const STORAGE_AREA_EEPROM: u32 = 0x00010000;

/// Raw mask of a flash area.
pub const STORAGE_AREA_FLASH: u32 = 0x00020000;

/// Raw mask of a CMOS area.
pub const STORAGE_AREA_CMOS: u32 = 0x00030000;

/// Raw mask of a RAM area.
pub const STORAGE_AREA_RAM: u32 = 0x00040000;

/// Union of all documented storage-area class bits.
pub const STORAGE_AREA_KNOWN_MASK: u32 = 0x00070000;

/// Capability class of a storage area: a bit-mask over the documented
/// vocabulary. Unknown bits coming from the interface are preserved
/// losslessly unless truncation is explicitly requested.
#[derive(Clone, Copy, Debug, PartialEq, Eq, Structural)]
pub struct StorageAreaType {
    bits: u32,
}

impl StorageAreaType {
    /// The raw bit pattern this set stands for.
    pub closed spec fn spec_bits(self) -> u32 {
        self.bits
    }

    /// The set holding exactly the given raw bits, unknown bits included.
    pub closed spec fn spec_from_bits(bits: u32) -> StorageAreaType {
        StorageAreaType { bits }
    }

    /// The set holding the given raw bits with unknown bits dropped.
    pub open spec fn spec_from_bits_truncate(bits: u32) -> StorageAreaType {
        StorageAreaType::spec_from_bits(bits & STORAGE_AREA_KNOWN_MASK)
    }

    /// This set with unknown bits dropped.
    pub open spec fn spec_truncate(self) -> StorageAreaType {
        StorageAreaType::spec_from_bits_truncate(self.spec_bits())
    }

    /// Builds a set from raw bits, preserving unknown bits losslessly.
    pub fn from_bits(bits: u32) -> (r: StorageAreaType)
        ensures
            r == StorageAreaType::spec_from_bits(bits),
            r.spec_bits() == bits,
    {
        StorageAreaType { bits }
    }

    /// Builds a set from raw bits, dropping bits outside the documented
    /// vocabulary.
    pub fn from_bits_truncate(bits: u32) -> (r: StorageAreaType)
        ensures
            r == StorageAreaType::spec_from_bits_truncate(bits),
            r.spec_bits() == bits & STORAGE_AREA_KNOWN_MASK,
    {
        StorageAreaType { bits: bits & STORAGE_AREA_KNOWN_MASK }
    }

    /// The raw bit pattern, for handing back to the hardware interface.
    pub fn bits(&self) -> (r: u32)
        ensures
            r == self.spec_bits(),
    {
        self.bits
    }

    /// This set with unknown bits dropped.
    pub fn truncate(&self) -> (r: StorageAreaType)
        ensures
            r == self.spec_truncate(),
            r.spec_bits() == self.spec_bits() & STORAGE_AREA_KNOWN_MASK,
    {
        StorageAreaType { bits: self.bits & STORAGE_AREA_KNOWN_MASK }
    }

    /// Union of the two sets.
    pub fn union(&self, other: &StorageAreaType) -> (r: StorageAreaType)
        ensures
            r.spec_bits() == self.spec_bits() | other.spec_bits(),
    {
        StorageAreaType { bits: self.bits | other.bits }
    }

    /// Intersection of the two sets.
    pub fn intersection(&self, other: &StorageAreaType) -> (r: StorageAreaType)
        ensures
            r.spec_bits() == self.spec_bits() & other.spec_bits(),
    {
        StorageAreaType { bits: self.bits & other.bits }
    }

    /// Membership: whether every class bit of `other` is set in `self`.
    pub fn contains(&self, other: &StorageAreaType) -> (r: bool)
        ensures
            r == (self.spec_bits() & other.spec_bits() == other.spec_bits()),
    {
        self.bits & other.bits == other.bits
    }

    /// The unknown-kind class alone.
    pub fn unknown() -> (r: StorageAreaType)
        ensures
            r.spec_bits() == STORAGE_AREA_UNKNOWN,
    {
        StorageAreaType { bits: STORAGE_AREA_UNKNOWN }
    }

    /// The EEPROM class alone.
    pub fn eeprom() -> (r: StorageAreaType)
        ensures
            r.spec_bits() == STORAGE_AREA_EEPROM,
    {
        StorageAreaType { bits: STORAGE_AREA_EEPROM }
    }

    /// The flash class alone.
    pub fn flash() -> (r: StorageAreaType)
        ensures
            r.spec_bits() == STORAGE_AREA_FLASH,
    {
        StorageAreaType { bits: STORAGE_AREA_FLASH }
    }

    /// The CMOS class alone.
    pub fn cmos() -> (r: StorageAreaType)
        ensures
            r.spec_bits() == STORAGE_AREA_CMOS,
    {
        StorageAreaType { bits: STORAGE_AREA_CMOS }
    }

    /// The RAM class alone.
    pub fn ram() -> (r: StorageAreaType)
        ensures
            r.spec_bits() == STORAGE_AREA_RAM,
    {
        StorageAreaType { bits: STORAGE_AREA_RAM }
    }
}

/// Law: converting a truncated storage-area class set to raw bits and
/// building a set from those bits again gives the truncated set back,
/// whether or not the rebuilding truncates once more.
pub proof fn lemma_storage_area_type_truncate_roundtrip(x: StorageAreaType)
    ensures
        StorageAreaType::spec_from_bits(x.spec_truncate().spec_bits()) == x.spec_truncate(),
        StorageAreaType::spec_from_bits_truncate(x.spec_truncate().spec_bits())
            == x.spec_truncate(),
{
    let b = x.spec_bits();
    assert(b & STORAGE_AREA_KNOWN_MASK & STORAGE_AREA_KNOWN_MASK == b & STORAGE_AREA_KNOWN_MASK)
        by (bit_vector);
}

/// Raw code the interface reports for a completed erase.
pub const ERASE_STATUS_SUCCESSFUL: u32 = 0;

/// Raw code the interface reports while an erase is still running.
pub const ERASE_STATUS_IN_PROGRESS: u32 = 1;

/// Raw code the interface reports for a failed erase.
pub const ERASE_STATUS_FAILED: u32 = 2;

/// State of an asynchronous storage-area erase, polled by the caller until
/// a terminal state is reported. Polling policy (interval, timeout) is the
/// caller's concern.
#[derive(Clone, Copy, Debug, PartialEq, Eq, Structural)]
pub enum EraseStatus {
    /// Terminal: the erase completed.
    Successful,
    /// The erase is still running.
    InProgress,
    /// Terminal: the erase failed.
    Failed,
}

impl EraseStatus {
    /// Whether a raw code belongs to the erase-status vocabulary. The
    /// vocabulary is believed exhaustive, so a value outside it is a fatal
    /// condition, not an input to decode.
    pub open spec fn is_known_raw(v: u32) -> bool {
        v == ERASE_STATUS_SUCCESSFUL || v == ERASE_STATUS_IN_PROGRESS || v == ERASE_STATUS_FAILED
    }

    /// The status a known raw code decodes to (immaterial outside the
    /// vocabulary, where decoding is refused).
    pub open spec fn spec_from_raw(v: u32) -> EraseStatus {
        if v == ERASE_STATUS_SUCCESSFUL {
            EraseStatus::Successful
        } else if v == ERASE_STATUS_IN_PROGRESS {
            EraseStatus::InProgress
        } else {
            EraseStatus::Failed
        }
    }

    /// Decodes a raw erase-status code. In-progress is reported exactly for
    /// the in-flight code, so a terminal code can never decode back to
    /// in-progress.
    pub fn from_raw(v: u32) -> (r: EraseStatus)
        requires
            EraseStatus::is_known_raw(v),
        ensures
            r == EraseStatus::spec_from_raw(v),
            r == EraseStatus::InProgress <==> v == ERASE_STATUS_IN_PROGRESS,
            r == EraseStatus::Successful <==> v == ERASE_STATUS_SUCCESSFUL,
            r == EraseStatus::Failed <==> v == ERASE_STATUS_FAILED,
    {
        if v == ERASE_STATUS_SUCCESSFUL {
            EraseStatus::Successful
        } else if v == ERASE_STATUS_IN_PROGRESS {
            EraseStatus::InProgress
        } else {
            EraseStatus::Failed
        }
    }
}

/// Reads the interface's lock report for a storage area: any nonzero value
/// means the area is locked.
pub fn lock_state_from_raw(raw: u32) -> (r: bool)
    ensures
        r <==> raw != 0,
{
    raw != 0
}

/// Accessor for one storage area: the owning board's handle plus a unit
/// selector, which is either a zero-based ordinal or a capability-class bit
/// pattern, as the interface overloads that parameter. It holds no
/// releasable resource of its own and cannot outlive the board it was
/// minted from.
pub struct StorageArea<'library> {
    handle: u32,
    unit: u32,
    _library_lifetime: PhantomData<&'library ()>,
}

impl<'library> StorageArea<'library> {
    /// The board handle this accessor is scoped to.
    pub closed spec fn spec_handle(self) -> u32 {
        self.handle
    }

    /// The unit selector handed to the interface: an ordinal or a class bit
    /// pattern.
    pub closed spec fn spec_unit(self) -> u32 {
        self.unit
    }

    /// Selects an area by zero-based ordinal. The selection is lazy: no
    /// query is issued, and an out-of-range ordinal only surfaces when an
    /// operation against the interface fails.
    pub fn from_index(handle: u32, index: usize) -> (r: StorageArea<'library>)
        requires
            index <= u32::MAX,
        ensures
            r.spec_handle() == handle,
            r.spec_unit() == index,
    {
        StorageArea { handle, unit: index as u32, _library_lifetime: PhantomData }
    }

    /// Selects the first area matching a capability class. The selection is
    /// lazy: no query is issued until an operation is invoked.
    pub fn from_type(handle: u32, type_: StorageAreaType) -> (r: StorageArea<'library>)
        ensures
            r.spec_handle() == handle,
            r.spec_unit() == type_.spec_bits(),
    {
        StorageArea { handle, unit: type_.bits(), _library_lifetime: PhantomData }
    }

    /// The board handle, for the layer that makes the raw calls.
    pub fn handle(&self) -> (r: u32)
        ensures
            r == self.spec_handle(),
    {
        self.handle
    }

    /// The unit selector, for the layer that makes the raw calls.
    pub fn unit(&self) -> (r: u32)
        ensures
            r == self.spec_unit(),
    {
        self.unit
    }
}

} // verus!
