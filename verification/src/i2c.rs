//! I2C buses: bus-role decoding and the accessor scoped to one board.
//!
//! This subsystem differs from the others in error policy. Bus transactions
//! routinely fail (a missing device, a lost arbitration), so every operation
//! reports a recoverable result instead of treating failure as fatal, and
//! construction validates the requested ordinal against the live bus count
//! up front — callers commonly probe bus topology by iterating indices, and
//! an off-by-one there must not be fatal. Observed hardware also returns bus
//! roles outside the documented vocabulary, so decoding falls back to an
//! escape variant instead of refusing such values.

use core::marker::PhantomData;
use vstd::prelude::*;

verus! {

/// Raw enumerant of a bus with an unknown role.
pub const I2C_TYPE_UNKNOWN: u32 = 0x00000000;

/// Raw enumerant of the primary I2C bus.
pub const I2C_TYPE_PRIMARY: u32 = 0x00010000;

/// Raw enumerant of the system-management bus.
pub const I2C_TYPE_SMB: u32 = 0x00020000;

/// Raw enumerant of the DDC display-data bus.
pub const I2C_TYPE_DDC: u32 = 0x00030000;

/// Error reported by I2C operations.
#[derive(Clone, Copy, Debug, PartialEq, Eq, Structural)]
pub enum I2cErr {
    /// The requested bus ordinal is at or past the live bus count.
    IdxOutOfRange,
    /// A bus transaction failed.
    BusErr,
}

/// Result of an I2C operation.
pub type I2cResult<T> = Result<T, I2cErr>;

/// The role of an I2C bus: the documented vocabulary plus an escape variant
/// carrying the exact raw value of a vendor-internal role.
#[derive(Clone, Copy, Debug, PartialEq, Eq, Structural)]
pub enum I2cType {
    Unknown,
    Primary,
    Smb,
    Ddc,
    CongatecInternalUse(u32),
}

impl I2cType {
    /// The raw enumerant this role is encoded as.
    pub open spec fn spec_raw(self) -> u32 {
        match self {
            I2cType::Unknown => I2C_TYPE_UNKNOWN,
            I2cType::Primary => I2C_TYPE_PRIMARY,
            I2cType::Smb => I2C_TYPE_SMB,
            I2cType::Ddc => I2C_TYPE_DDC,
            I2cType::CongatecInternalUse(x) => x,
        }
    }

    /// The role a raw enumerant decodes to: a documented role, or the escape
    /// variant carrying the raw value unchanged.
    pub open spec fn spec_from_raw(v: u32) -> I2cType {
        if v == I2C_TYPE_UNKNOWN {
            I2cType::Unknown
        } else if v == I2C_TYPE_PRIMARY {
            I2cType::Primary
        } else if v == I2C_TYPE_SMB {
            I2cType::Smb
        } else if v == I2C_TYPE_DDC {
            I2cType::Ddc
        } else {
            I2cType::CongatecInternalUse(v)
        }
    }

    /// Decodes a raw bus-role enumerant; a value outside the documented
    /// vocabulary lands in the escape variant, never in an error.
    pub fn from_raw(v: u32) -> (r: I2cType)
        ensures
            r == I2cType::spec_from_raw(v),
            r.spec_raw() == v,
    {
        if v == I2C_TYPE_UNKNOWN {
            I2cType::Unknown
        } else if v == I2C_TYPE_PRIMARY {
            I2cType::Primary
        } else if v == I2C_TYPE_SMB {
            I2cType::Smb
        } else if v == I2C_TYPE_DDC {
            I2cType::Ddc
        } else {
            I2cType::CongatecInternalUse(v)
        }
    }

    /// Encodes this role back to its raw enumerant; the escape variant
    /// reproduces the raw value it was decoded from.
    pub fn to_raw(&self) -> (r: u32)
        ensures
            r == self.spec_raw(),
    {
        match self {
            I2cType::Unknown => I2C_TYPE_UNKNOWN,
            I2cType::Primary => I2C_TYPE_PRIMARY,
            I2cType::Smb => I2C_TYPE_SMB,
            I2cType::Ddc => I2C_TYPE_DDC,
            I2cType::CongatecInternalUse(x) => *x,
        }
    }
}

/// Law: decoding any raw bus-role value and encoding the result reproduces
/// the raw value unchanged; and a value decodes to the primary role exactly
/// when it is the documented primary constant.
pub proof fn lemma_i2c_type_raw_roundtrip(v: u32)
    ensures
        I2cType::spec_from_raw(v).spec_raw() == v,
        I2cType::spec_from_raw(v) == I2cType::Primary <==> v == I2C_TYPE_PRIMARY,
{
}

/// Turns the interface's return code of a bus transaction into the
/// recoverable result: nonzero reports success, zero a bus error.
pub fn transaction_result(retcode: u32) -> (r: I2cResult<()>)
    ensures
        retcode != 0 <==> r is Ok,
        r is Err ==> r->Err_0 == I2cErr::BusErr,
{
    if retcode != 0 {
        Ok(())
    } else {
        Err(I2cErr::BusErr)
    }
}

/// Turns the interface's return code of a value-producing bus transaction
/// into the recoverable result carrying the value the call filled in.
pub fn transaction_value_result(retcode: u32, value: u32) -> (r: I2cResult<u32>)
    ensures
        retcode != 0 <==> r is Ok,
        r is Ok ==> r->Ok_0 == value,
        r is Err ==> r->Err_0 == I2cErr::BusErr,
{
    if retcode != 0 {
        Ok(value)
    } else {
        Err(I2cErr::BusErr)
    }
}

/// Turns the interface's return code of a register read into the
/// recoverable result carrying the byte the call filled in.
pub fn transaction_byte_result(retcode: u32, value: u8) -> (r: I2cResult<u8>)
    ensures
        retcode != 0 <==> r is Ok,
        r is Ok ==> r->Ok_0 == value,
        r is Err ==> r->Err_0 == I2cErr::BusErr,
{
    if retcode != 0 {
        Ok(value)
    } else {
        Err(I2cErr::BusErr)
    }
}

/// Reads the interface's availability report: one means available, any
/// other value means not.
pub fn availability_from_raw(raw: u32) -> (r: bool)
    ensures
        r <==> raw == 1,
{
    raw == 1
}

/// Accessor for one I2C bus: the owning board's handle plus a zero-based
/// ordinal, validated against the live bus count at construction. It holds
/// no releasable resource of its own and cannot outlive the board it was
/// minted from.
#[derive(Clone, Copy, PartialEq, Eq)]
pub struct I2c<'library> {
    handle: u32,
    index: u32,
    _library_lifetime: PhantomData<&'library ()>,
}

impl<'library> I2c<'library> {
    /// The board handle this accessor is scoped to.
    pub closed spec fn spec_handle(self) -> u32 {
        self.handle
    }

    /// The zero-based bus ordinal on that board.
    pub closed spec fn spec_index(self) -> u32 {
        self.index
    }

    /// Builds the accessor for the bus with the given ordinal, checked
    /// against the live bus count as last queried from the interface. An
    /// ordinal at or past the count is reported as out of range without any
    /// bus query being made.
    pub fn new(handle: u32, index: usize, bus_count: u32) -> (r: I2cResult<I2c<'library>>)
        ensures
            r is Ok <==> (index as int) < (bus_count as int),
            r is Ok ==> r->Ok_0.spec_handle() == handle && r->Ok_0.spec_index() == index,
            r is Err ==> r->Err_0 == I2cErr::IdxOutOfRange,
    {
        if index < bus_count as usize {
            Ok(I2c { handle, index: index as u32, _library_lifetime: PhantomData })
        } else {
            Err(I2cErr::IdxOutOfRange)
        }
    }

    /// The board handle, for the layer that makes the raw calls.
    pub fn handle(&self) -> (r: u32)
        ensures
            r == self.spec_handle(),
    {
        self.handle
    }

    /// The bus ordinal, for the layer that makes the raw calls.
    pub fn index(&self) -> (r: u32)
        ensures
            r == self.spec_index(),
    {
        self.index
    }
}

} // verus!
