//! Fixed-point sensor values.
//!
//! The hardware interface reports physical quantities as signed 32-bit
//! integers in milli-units (for example millidegrees Celsius), carried in an
//! unsigned 32-bit field. These conversions reinterpret that field as the
//! signed milli-unit value and back, losslessly in both directions.

use vstd::prelude::*;

verus! {

/// The signed milli-unit value a raw unsigned field stands for: the two's
/// complement reading of its 32 bits.
pub open spec fn milli_from_raw_spec(v: u32) -> i32 {
    if v <= 0x7fff_ffff {
        v as i32
    } else {
        ((v as int) - 0x1_0000_0000) as i32
    }
}

/// The raw unsigned field a signed milli-unit value is carried in.
pub open spec fn milli_to_raw_spec(m: i32) -> u32 {
    if m >= 0 {
        m as u32
    } else {
        ((m as int) + 0x1_0000_0000) as u32
    }
}

/// Reads a signed milli-unit value out of its raw unsigned field.
pub fn milli_from_raw(v: u32) -> (r: i32)
    ensures
        r == milli_from_raw_spec(v),
{
    if v <= 0x7fff_ffff {
        v as i32
    } else {
        let off: u32 = v - 0x8000_0000;
        i32::MIN + (off as i32)
    }
}

/// Packs a signed milli-unit value into its raw unsigned field.
pub fn milli_to_raw(m: i32) -> (r: u32)
    ensures
        r == milli_to_raw_spec(m),
{
    if m >= 0 {
        m as u32
    } else {
        let neg: i32 = -(m + 1);
        0xffff_ffff - (neg as u32)
    }
}

/// Law: packing the milli-unit reading of a raw field gives the raw field
/// back unchanged.
pub proof fn lemma_milli_raw_roundtrip(v: u32)
    ensures
        milli_to_raw_spec(milli_from_raw_spec(v)) == v,
{
}

/// Law: reading the raw form of a milli-unit value back gives the value
/// unchanged.
pub proof fn lemma_milli_value_roundtrip(m: i32)
    ensures
        milli_from_raw_spec(milli_to_raw_spec(m)) == m,
{
}

} // verus!
