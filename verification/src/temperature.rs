//! Temperature sensors: the typed snapshot of one sensor's configuration,
//! its raw self-describing layout, and the accessor scoped to one board.

use core::marker::PhantomData;
use vstd::prelude::*;

use crate::fixed_point::{milli_from_raw, milli_from_raw_spec, milli_to_raw, milli_to_raw_spec};
use crate::status::Status;

verus! {

/// Raw enumerant: the sensor sits on the CPU.
pub const SENSOR_TYPE_CPU: u32 = 0;

/// Raw enumerant: the sensor measures the box.
pub const SENSOR_TYPE_BOX: u32 = 1;

/// Raw enumerant: the sensor measures the environment.
pub const SENSOR_TYPE_ENVIRONMENT: u32 = 2;

/// Raw enumerant: the sensor sits on the board.
pub const SENSOR_TYPE_BOARD: u32 = 3;

/// Raw enumerant: the sensor sits on the backplane.
pub const SENSOR_TYPE_BACKPLANE: u32 = 4;

/// Raw enumerant: the sensor sits on the chipsets.
pub const SENSOR_TYPE_CHIPSETS: u32 = 5;

/// Raw enumerant: the sensor sits on the video subsystem.
pub const SENSOR_TYPE_VIDEO: u32 = 6;

/// Raw enumerant: some other sensor placement.
pub const SENSOR_TYPE_OTHER: u32 = 7;

/// Raw enumerant: the sensor measures the environment of the top RAM module.
pub const SENSOR_TYPE_TOP_RAM_ENVIRONMENT: u32 = 8;

/// Raw enumerant: the sensor measures the environment of the bottom RAM
/// module.
pub const SENSOR_TYPE_BOTTOM_RAM_ENVIRONMENT: u32 = 9;

/// Whether a raw sensor-type enumerant belongs to the closed vocabulary.
/// The vocabulary is believed exhaustive for this sensor kind, so a raw
/// value outside it is a fatal condition, not an input to decode.
pub open spec fn is_known_sensor_type_raw(v: u32) -> bool {
    v == SENSOR_TYPE_CPU || v == SENSOR_TYPE_BOX || v == SENSOR_TYPE_ENVIRONMENT || v
        == SENSOR_TYPE_BOARD || v == SENSOR_TYPE_BACKPLANE || v == SENSOR_TYPE_CHIPSETS || v
        == SENSOR_TYPE_VIDEO || v == SENSOR_TYPE_OTHER || v == SENSOR_TYPE_TOP_RAM_ENVIRONMENT || v
        == SENSOR_TYPE_BOTTOM_RAM_ENVIRONMENT
}

/// Where a temperature sensor sits; a closed vocabulary.
#[derive(Clone, Copy, Debug, PartialEq, Eq, Structural)]
pub enum TemperatureType {
    Cpu,
    Box,
    Environment,
    Board,
    Backplane,
    Chipsets,
    Video,
    TopRAMEnvironment,
    BottomRAMEnvironment,
    Other,
}

impl TemperatureType {
    /// The raw enumerant this type is encoded as.
    pub open spec fn spec_raw(self) -> u32 {
        match self {
            TemperatureType::Cpu => SENSOR_TYPE_CPU,
            TemperatureType::Box => SENSOR_TYPE_BOX,
            TemperatureType::Environment => SENSOR_TYPE_ENVIRONMENT,
            TemperatureType::Board => SENSOR_TYPE_BOARD,
            TemperatureType::Backplane => SENSOR_TYPE_BACKPLANE,
            TemperatureType::Chipsets => SENSOR_TYPE_CHIPSETS,
            TemperatureType::Video => SENSOR_TYPE_VIDEO,
            TemperatureType::TopRAMEnvironment => SENSOR_TYPE_TOP_RAM_ENVIRONMENT,
            TemperatureType::BottomRAMEnvironment => SENSOR_TYPE_BOTTOM_RAM_ENVIRONMENT,
            TemperatureType::Other => SENSOR_TYPE_OTHER,
        }
    }

    /// The type a known raw enumerant decodes to (immaterial outside the
    /// vocabulary, where decoding is refused).
    pub open spec fn spec_from_raw(v: u32) -> TemperatureType {
        if v == SENSOR_TYPE_CPU {
            TemperatureType::Cpu
        } else if v == SENSOR_TYPE_BOX {
            TemperatureType::Box
        } else if v == SENSOR_TYPE_ENVIRONMENT {
            TemperatureType::Environment
        } else if v == SENSOR_TYPE_BOARD {
            TemperatureType::Board
        } else if v == SENSOR_TYPE_BACKPLANE {
            TemperatureType::Backplane
        } else if v == SENSOR_TYPE_CHIPSETS {
            TemperatureType::Chipsets
        } else if v == SENSOR_TYPE_VIDEO {
            TemperatureType::Video
        } else if v == SENSOR_TYPE_TOP_RAM_ENVIRONMENT {
            TemperatureType::TopRAMEnvironment
        } else if v == SENSOR_TYPE_BOTTOM_RAM_ENVIRONMENT {
            TemperatureType::BottomRAMEnvironment
        } else {
            TemperatureType::Other
        }
    }

    /// Decodes a raw sensor-type enumerant from the closed vocabulary.
    pub fn from_raw(v: u32) -> (r: TemperatureType)
        requires
            is_known_sensor_type_raw(v),
        ensures
            r == TemperatureType::spec_from_raw(v),
            r.spec_raw() == v,
    {
        if v == SENSOR_TYPE_CPU {
            TemperatureType::Cpu
        } else if v == SENSOR_TYPE_BOX {
            TemperatureType::Box
        } else if v == SENSOR_TYPE_ENVIRONMENT {
            TemperatureType::Environment
        } else if v == SENSOR_TYPE_BOARD {
            TemperatureType::Board
        } else if v == SENSOR_TYPE_BACKPLANE {
            TemperatureType::Backplane
        } else if v == SENSOR_TYPE_CHIPSETS {
            TemperatureType::Chipsets
        } else if v == SENSOR_TYPE_VIDEO {
            TemperatureType::Video
        } else if v == SENSOR_TYPE_TOP_RAM_ENVIRONMENT {
            TemperatureType::TopRAMEnvironment
        } else if v == SENSOR_TYPE_BOTTOM_RAM_ENVIRONMENT {
            TemperatureType::BottomRAMEnvironment
        } else {
            TemperatureType::Other
        }
    }

    /// Encodes this type as its raw enumerant.
    pub fn to_raw(&self) -> (r: u32)
        ensures
            r == self.spec_raw(),
            TemperatureType::spec_from_raw(r) == *self,
    {
        match self {
            TemperatureType::Cpu => SENSOR_TYPE_CPU,
            TemperatureType::Box => SENSOR_TYPE_BOX,
            TemperatureType::Environment => SENSOR_TYPE_ENVIRONMENT,
            TemperatureType::Board => SENSOR_TYPE_BOARD,
            TemperatureType::Backplane => SENSOR_TYPE_BACKPLANE,
            TemperatureType::Chipsets => SENSOR_TYPE_CHIPSETS,
            TemperatureType::Video => SENSOR_TYPE_VIDEO,
            TemperatureType::TopRAMEnvironment => SENSOR_TYPE_TOP_RAM_ENVIRONMENT,
            TemperatureType::BottomRAMEnvironment => SENSOR_TYPE_BOTTOM_RAM_ENVIRONMENT,
            TemperatureType::Other => SENSOR_TYPE_OTHER,
        }
    }
}

/// Byte size of the raw temperature snapshot layout: eleven 32-bit fields.
/// Interfaces of this family describe a structure by its own size field, so
/// every snapshot handed to the interface must carry this value.
pub const TEMPERATURE_INFO_RAW_SIZE: u32 = 44;

/// The raw self-describing temperature snapshot, field for field as the
/// hardware interface lays it out.
#[derive(Clone, Copy, Debug, PartialEq, Eq, Structural)]
pub struct RawTemperatureInfo {
    /// Declared byte size of this structure.
    pub size: u32,
    /// Raw sensor-type enumerant.
    pub type_: u32,
    /// Raw status flags.
    pub flags: u32,
    /// Alarm configuration word.
    pub alarm: u32,
    /// Resolution in milli-units.
    pub res: u32,
    /// Lower end of the operating range in milli-units.
    pub min: u32,
    /// Upper end of the operating range in milli-units.
    pub max: u32,
    /// High alarm threshold in milli-units.
    pub alarm_hi: u32,
    /// High hysteresis band in milli-units.
    pub hyst_hi: u32,
    /// Low alarm threshold in milli-units.
    pub alarm_lo: u32,
    /// Low hysteresis band in milli-units.
    pub hyst_lo: u32,
}

/// Typed snapshot of one temperature sensor's configuration. Quantities are
/// signed milli-degrees Celsius; dividing by 1000 gives the engineering
/// value in degrees.
#[derive(Clone, Copy, Debug, PartialEq, Eq, Structural)]
pub struct TemperatureInfo {
    /// Where the sensor sits.
    pub type_: TemperatureType,
    /// Status flags, unknown bits dropped.
    pub status: Status,
    /// Alarm configuration word, passed through unchanged.
    pub alarm: u32,
    /// Resolution, in milli-degrees.
    pub resolution_milli: i32,
    /// Lower end of the operating range, in milli-degrees.
    pub minimum_milli: i32,
    /// Upper end of the operating range, in milli-degrees.
    pub maximum_milli: i32,
    /// High alarm threshold, in milli-degrees.
    pub alarm_high_milli: i32,
    /// High hysteresis band, in milli-degrees.
    pub hysteresis_high_milli: i32,
    /// Low alarm threshold, in milli-degrees.
    pub alarm_low_milli: i32,
    /// Low hysteresis band, in milli-degrees.
    pub hysteresis_low_milli: i32,
}

impl TemperatureInfo {
    /// The typed snapshot a raw snapshot decodes to.
    pub open spec fn spec_from_raw(raw: RawTemperatureInfo) -> TemperatureInfo {
        TemperatureInfo {
            type_: TemperatureType::spec_from_raw(raw.type_),
            status: Status::spec_from_bits_truncate(raw.flags),
            alarm: raw.alarm,
            resolution_milli: milli_from_raw_spec(raw.res),
            minimum_milli: milli_from_raw_spec(raw.min),
            maximum_milli: milli_from_raw_spec(raw.max),
            alarm_high_milli: milli_from_raw_spec(raw.alarm_hi),
            hysteresis_high_milli: milli_from_raw_spec(raw.hyst_hi),
            alarm_low_milli: milli_from_raw_spec(raw.alarm_lo),
            hysteresis_low_milli: milli_from_raw_spec(raw.hyst_lo),
        }
    }

    /// The raw snapshot this typed snapshot encodes to, size field stamped.
    pub open spec fn spec_to_raw(self) -> RawTemperatureInfo {
        RawTemperatureInfo {
            size: TEMPERATURE_INFO_RAW_SIZE,
            type_: self.type_.spec_raw(),
            flags: self.status.spec_bits(),
            alarm: self.alarm,
            res: milli_to_raw_spec(self.resolution_milli),
            min: milli_to_raw_spec(self.minimum_milli),
            max: milli_to_raw_spec(self.maximum_milli),
            alarm_hi: milli_to_raw_spec(self.alarm_high_milli),
            hyst_hi: milli_to_raw_spec(self.hysteresis_high_milli),
            alarm_lo: milli_to_raw_spec(self.alarm_low_milli),
            hyst_lo: milli_to_raw_spec(self.hysteresis_low_milli),
        }
    }

    /// Decodes a raw snapshot as queried from the interface. The sensor-type
    /// vocabulary is believed exhaustive here, so the raw type must be known;
    /// a caller seeing an unknown one treats it as a fatal condition.
    pub fn from_raw(raw: &RawTemperatureInfo) -> (r: TemperatureInfo)
        requires
            is_known_sensor_type_raw(raw.type_),
        ensures
            r == TemperatureInfo::spec_from_raw(*raw),
    {
        TemperatureInfo {
            type_: TemperatureType::from_raw(raw.type_),
            status: Status::from_bits_truncate(raw.flags),
            alarm: raw.alarm,
            resolution_milli: milli_from_raw(raw.res),
            minimum_milli: milli_from_raw(raw.min),
            maximum_milli: milli_from_raw(raw.max),
            alarm_high_milli: milli_from_raw(raw.alarm_hi),
            hysteresis_high_milli: milli_from_raw(raw.hyst_hi),
            alarm_low_milli: milli_from_raw(raw.alarm_lo),
            hysteresis_low_milli: milli_from_raw(raw.hyst_lo),
        }
    }

    /// Encodes this snapshot back to the raw layout for a set-limits call,
    /// re-stamping the self-describing size field.
    pub fn to_raw(&self) -> (r: RawTemperatureInfo)
        ensures
            r == self.spec_to_raw(),
    {
        RawTemperatureInfo {
            size: TEMPERATURE_INFO_RAW_SIZE,
            type_: self.type_.to_raw(),
            flags: self.status.bits(),
            alarm: self.alarm,
            res: milli_to_raw(self.resolution_milli),
            min: milli_to_raw(self.minimum_milli),
            max: milli_to_raw(self.maximum_milli),
            alarm_hi: milli_to_raw(self.alarm_high_milli),
            hyst_hi: milli_to_raw(self.hysteresis_high_milli),
            alarm_lo: milli_to_raw(self.alarm_low_milli),
            hyst_lo: milli_to_raw(self.hysteresis_low_milli),
        }
    }
}

/// Law: encoding a typed temperature snapshot to raw form and decoding it
/// again gives the snapshot back, provided its status set carries no
/// unknown bits (encoding hands raw bits through, decoding truncates them).
pub proof fn lemma_temperature_info_roundtrip(info: TemperatureInfo)
    requires
        info.status == info.status.spec_truncate(),
    ensures
        TemperatureInfo::spec_from_raw(info.spec_to_raw()) == info,
{
    crate::fixed_point::lemma_milli_value_roundtrip(info.resolution_milli);
    crate::fixed_point::lemma_milli_value_roundtrip(info.minimum_milli);
    crate::fixed_point::lemma_milli_value_roundtrip(info.maximum_milli);
    crate::fixed_point::lemma_milli_value_roundtrip(info.alarm_high_milli);
    crate::fixed_point::lemma_milli_value_roundtrip(info.hysteresis_high_milli);
    crate::fixed_point::lemma_milli_value_roundtrip(info.alarm_low_milli);
    crate::fixed_point::lemma_milli_value_roundtrip(info.hysteresis_low_milli);
}

/// Accessor for one temperature sensor: the owning board's handle plus a
/// zero-based ordinal. It holds no releasable resource of its own and cannot
/// outlive the board it was minted from.
pub struct Temperature<'library> {
    handle: u32,
    index: u32,
    _library_lifetime: PhantomData<&'library ()>,
}

impl<'library> Temperature<'library> {
    /// The board handle this accessor is scoped to.
    pub closed spec fn spec_handle(self) -> u32 {
        self.handle
    }

    /// The zero-based sensor ordinal on that board.
    pub closed spec fn spec_index(self) -> u32 {
        self.index
    }

    /// Builds the accessor for the sensor with the given ordinal. Validity
    /// of the ordinal is only established when an operation against the
    /// interface succeeds; an out-of-range ordinal makes those calls fail.
    pub fn new(handle: u32, index: usize) -> (r: Temperature<'library>)
        requires
            index <= u32::MAX,
        ensures
            r.spec_handle() == handle,
            r.spec_index() == index,
    {
        Temperature { handle, index: index as u32, _library_lifetime: PhantomData }
    }

    /// The board handle, for the layer that makes the raw calls.
    pub fn handle(&self) -> (r: u32)
        ensures
            r == self.spec_handle(),
    {
        self.handle
    }

    /// The sensor ordinal, for the layer that makes the raw calls.
    pub fn index(&self) -> (r: u32)
        ensures
            r == self.spec_index(),
    {
        self.index
    }
}

} // verus!
