//! Fan sensors: the typed snapshot of one fan's configuration, its raw
//! self-describing layout, and the accessor scoped to one board.
//!
//! Fans share the sensor placement vocabulary with temperature sensors, and
//! their quantities are signed values in the interface's raw units.

use core::marker::PhantomData;
use vstd::prelude::*;

use crate::fixed_point::{milli_from_raw, milli_from_raw_spec, milli_to_raw, milli_to_raw_spec};
use crate::status::Status;
use crate::temperature::{
    is_known_sensor_type_raw, SENSOR_TYPE_BACKPLANE, SENSOR_TYPE_BOARD,
    SENSOR_TYPE_BOTTOM_RAM_ENVIRONMENT, SENSOR_TYPE_BOX, SENSOR_TYPE_CHIPSETS, SENSOR_TYPE_CPU,
    SENSOR_TYPE_ENVIRONMENT, SENSOR_TYPE_OTHER, SENSOR_TYPE_TOP_RAM_ENVIRONMENT, SENSOR_TYPE_VIDEO,
};

verus! {

/// What a fan cools; a closed vocabulary shared with temperature sensors.
#[derive(Clone, Copy, Debug, PartialEq, Eq, Structural)]
pub enum FanType {
    Cpu,
    Box,
    Environment,
    Board,
    Backplane,
    Chipsets,
    Video,
    TopRAMEnvironment,
    BottomRAMEnvironment,
    Other,
}

impl FanType {
    /// The raw enumerant this type is encoded as.
    pub open spec fn spec_raw(self) -> u32 {
        match self {
            FanType::Cpu => SENSOR_TYPE_CPU,
            FanType::Box => SENSOR_TYPE_BOX,
            FanType::Environment => SENSOR_TYPE_ENVIRONMENT,
            FanType::Board => SENSOR_TYPE_BOARD,
            FanType::Backplane => SENSOR_TYPE_BACKPLANE,
            FanType::Chipsets => SENSOR_TYPE_CHIPSETS,
            FanType::Video => SENSOR_TYPE_VIDEO,
            FanType::TopRAMEnvironment => SENSOR_TYPE_TOP_RAM_ENVIRONMENT,
            FanType::BottomRAMEnvironment => SENSOR_TYPE_BOTTOM_RAM_ENVIRONMENT,
            FanType::Other => SENSOR_TYPE_OTHER,
        }
    }

    /// The type a known raw enumerant decodes to (immaterial outside the
    /// vocabulary, where decoding is refused).
    pub open spec fn spec_from_raw(v: u32) -> FanType {
        if v == SENSOR_TYPE_CPU {
            FanType::Cpu
        } else if v == SENSOR_TYPE_BOX {
            FanType::Box
        } else if v == SENSOR_TYPE_ENVIRONMENT {
            FanType::Environment
        } else if v == SENSOR_TYPE_BOARD {
            FanType::Board
        } else if v == SENSOR_TYPE_BACKPLANE {
            FanType::Backplane
        } else if v == SENSOR_TYPE_CHIPSETS {
            FanType::Chipsets
        } else if v == SENSOR_TYPE_VIDEO {
            FanType::Video
        } else if v == SENSOR_TYPE_TOP_RAM_ENVIRONMENT {
            FanType::TopRAMEnvironment
        } else if v == SENSOR_TYPE_BOTTOM_RAM_ENVIRONMENT {
            FanType::BottomRAMEnvironment
        } else {
            FanType::Other
        }
    }

    /// Decodes a raw sensor-type enumerant from the closed vocabulary.
    pub fn from_raw(v: u32) -> (r: FanType)
        requires
            is_known_sensor_type_raw(v),
        ensures
            r == FanType::spec_from_raw(v),
            r.spec_raw() == v,
    {
        if v == SENSOR_TYPE_CPU {
            FanType::Cpu
        } else if v == SENSOR_TYPE_BOX {
            FanType::Box
        } else if v == SENSOR_TYPE_ENVIRONMENT {
            FanType::Environment
        } else if v == SENSOR_TYPE_BOARD {
            FanType::Board
        } else if v == SENSOR_TYPE_BACKPLANE {
            FanType::Backplane
        } else if v == SENSOR_TYPE_CHIPSETS {
            FanType::Chipsets
        } else if v == SENSOR_TYPE_VIDEO {
            FanType::Video
        } else if v == SENSOR_TYPE_TOP_RAM_ENVIRONMENT {
            FanType::TopRAMEnvironment
        } else if v == SENSOR_TYPE_BOTTOM_RAM_ENVIRONMENT {
            FanType::BottomRAMEnvironment
        } else {
            FanType::Other
        }
    }

    /// Encodes this type as its raw enumerant.
    pub fn to_raw(&self) -> (r: u32)
        ensures
            r == self.spec_raw(),
            FanType::spec_from_raw(r) == *self,
    {
        match self {
            FanType::Cpu => SENSOR_TYPE_CPU,
            FanType::Box => SENSOR_TYPE_BOX,
            FanType::Environment => SENSOR_TYPE_ENVIRONMENT,
            FanType::Board => SENSOR_TYPE_BOARD,
            FanType::Backplane => SENSOR_TYPE_BACKPLANE,
            FanType::Chipsets => SENSOR_TYPE_CHIPSETS,
            FanType::Video => SENSOR_TYPE_VIDEO,
            FanType::TopRAMEnvironment => SENSOR_TYPE_TOP_RAM_ENVIRONMENT,
            FanType::BottomRAMEnvironment => SENSOR_TYPE_BOTTOM_RAM_ENVIRONMENT,
            FanType::Other => SENSOR_TYPE_OTHER,
        }
    }
}

/// Byte size of the raw fan snapshot layout: thirteen 32-bit fields. Every
/// snapshot handed to the interface must carry this value in its
/// self-describing size field.
pub const FAN_INFO_RAW_SIZE: u32 = 52;

/// The raw self-describing fan snapshot, field for field as the hardware
/// interface lays it out.
#[derive(Clone, Copy, Debug, PartialEq, Eq, Structural)]
pub struct RawFanInfo {
    /// Declared byte size of this structure.
    pub size: u32,
    /// Raw sensor-type enumerant.
    pub type_: u32,
    /// Raw status flags.
    pub flags: u32,
    /// Alarm configuration word.
    pub alarm: u32,
    /// Nominal speed.
    pub speed_nom: u32,
    /// Lower end of the operating range.
    pub min: u32,
    /// Upper end of the operating range.
    pub max: u32,
    /// High alarm threshold.
    pub alarm_hi: u32,
    /// High hysteresis band.
    pub hyst_hi: u32,
    /// Low alarm threshold.
    pub alarm_lo: u32,
    /// Low hysteresis band.
    pub hyst_lo: u32,
    /// Lower end of the output range.
    pub out_min: u32,
    /// Upper end of the output range.
    pub out_max: u32,
}

/// Typed snapshot of one fan's configuration; quantities are the signed
/// reading of the interface's raw units.
#[derive(Clone, Copy, Debug, PartialEq, Eq, Structural)]
pub struct FanInfo {
    /// What the fan cools.
    pub type_: FanType,
    /// Status flags, unknown bits dropped.
    pub status: Status,
    /// Alarm configuration word.
    pub alarm: i32,
    /// Nominal speed.
    pub speed_nominal: i32,
    /// Lower end of the operating range.
    pub minimum: i32,
    /// Upper end of the operating range.
    pub maximum: i32,
    /// High alarm threshold.
    pub alarm_high: i32,
    /// High hysteresis band.
    pub hysteresis_high: i32,
    /// Low alarm threshold.
    pub alarm_low: i32,
    /// Low hysteresis band.
    pub hysteresis_low: i32,
    /// Lower end of the output range.
    pub out_minimum: i32,
    /// Upper end of the output range.
    pub out_maximum: i32,
}

impl FanInfo {
    /// The typed snapshot a raw snapshot decodes to.
    pub open spec fn spec_from_raw(raw: RawFanInfo) -> FanInfo {
        FanInfo {
            type_: FanType::spec_from_raw(raw.type_),
            status: Status::spec_from_bits_truncate(raw.flags),
            alarm: milli_from_raw_spec(raw.alarm),
            speed_nominal: milli_from_raw_spec(raw.speed_nom),
            minimum: milli_from_raw_spec(raw.min),
            maximum: milli_from_raw_spec(raw.max),
            alarm_high: milli_from_raw_spec(raw.alarm_hi),
            hysteresis_high: milli_from_raw_spec(raw.hyst_hi),
            alarm_low: milli_from_raw_spec(raw.alarm_lo),
            hysteresis_low: milli_from_raw_spec(raw.hyst_lo),
            out_minimum: milli_from_raw_spec(raw.out_min),
            out_maximum: milli_from_raw_spec(raw.out_max),
        }
    }

    /// The raw snapshot this typed snapshot encodes to, size field stamped.
    pub open spec fn spec_to_raw(self) -> RawFanInfo {
        RawFanInfo {
            size: FAN_INFO_RAW_SIZE,
            type_: self.type_.spec_raw(),
            flags: self.status.spec_bits(),
            alarm: milli_to_raw_spec(self.alarm),
            speed_nom: milli_to_raw_spec(self.speed_nominal),
            min: milli_to_raw_spec(self.minimum),
            max: milli_to_raw_spec(self.maximum),
            alarm_hi: milli_to_raw_spec(self.alarm_high),
            hyst_hi: milli_to_raw_spec(self.hysteresis_high),
            alarm_lo: milli_to_raw_spec(self.alarm_low),
            hyst_lo: milli_to_raw_spec(self.hysteresis_low),
            out_min: milli_to_raw_spec(self.out_minimum),
            out_max: milli_to_raw_spec(self.out_maximum),
        }
    }

    /// Decodes a raw snapshot as queried from the interface. The sensor-type
    /// vocabulary is believed exhaustive here, so the raw type must be known;
    /// a caller seeing an unknown one treats it as a fatal condition.
    pub fn from_raw(raw: &RawFanInfo) -> (r: FanInfo)
        requires
            is_known_sensor_type_raw(raw.type_),
        ensures
            r == FanInfo::spec_from_raw(*raw),
    {
        FanInfo {
            type_: FanType::from_raw(raw.type_),
            status: Status::from_bits_truncate(raw.flags),
            alarm: milli_from_raw(raw.alarm),
            speed_nominal: milli_from_raw(raw.speed_nom),
            minimum: milli_from_raw(raw.min),
            maximum: milli_from_raw(raw.max),
            alarm_high: milli_from_raw(raw.alarm_hi),
            hysteresis_high: milli_from_raw(raw.hyst_hi),
            alarm_low: milli_from_raw(raw.alarm_lo),
            hysteresis_low: milli_from_raw(raw.hyst_lo),
            out_minimum: milli_from_raw(raw.out_min),
            out_maximum: milli_from_raw(raw.out_max),
        }
    }

    /// Encodes this snapshot back to the raw layout for a set-limits call,
    /// re-stamping the self-describing size field.
    pub fn to_raw(&self) -> (r: RawFanInfo)
        ensures
            r == self.spec_to_raw(),
    {
        RawFanInfo {
            size: FAN_INFO_RAW_SIZE,
            type_: self.type_.to_raw(),
            flags: self.status.bits(),
            alarm: milli_to_raw(self.alarm),
            speed_nom: milli_to_raw(self.speed_nominal),
            min: milli_to_raw(self.minimum),
            max: milli_to_raw(self.maximum),
            alarm_hi: milli_to_raw(self.alarm_high),
            hyst_hi: milli_to_raw(self.hysteresis_high),
            alarm_lo: milli_to_raw(self.alarm_low),
            hyst_lo: milli_to_raw(self.hysteresis_low),
            out_min: milli_to_raw(self.out_minimum),
            out_max: milli_to_raw(self.out_maximum),
        }
    }
}

/// Law: encoding a typed fan snapshot to raw form and decoding it again
/// gives the snapshot back, provided its status set carries no unknown bits
/// (encoding hands raw bits through, decoding truncates them).
pub proof fn lemma_fan_info_roundtrip(info: FanInfo)
    requires
        info.status == info.status.spec_truncate(),
    ensures
        FanInfo::spec_from_raw(info.spec_to_raw()) == info,
{
    crate::fixed_point::lemma_milli_value_roundtrip(info.alarm);
    crate::fixed_point::lemma_milli_value_roundtrip(info.speed_nominal);
    crate::fixed_point::lemma_milli_value_roundtrip(info.minimum);
    crate::fixed_point::lemma_milli_value_roundtrip(info.maximum);
    crate::fixed_point::lemma_milli_value_roundtrip(info.alarm_high);
    crate::fixed_point::lemma_milli_value_roundtrip(info.hysteresis_high);
    crate::fixed_point::lemma_milli_value_roundtrip(info.alarm_low);
    crate::fixed_point::lemma_milli_value_roundtrip(info.hysteresis_low);
    crate::fixed_point::lemma_milli_value_roundtrip(info.out_minimum);
    crate::fixed_point::lemma_milli_value_roundtrip(info.out_maximum);
}

/// Accessor for one fan: the owning board's handle plus a zero-based
/// ordinal. It holds no releasable resource of its own and cannot outlive
/// the board it was minted from.
pub struct Fan<'library> {
    handle: u32,
    index: u32,
    _library_lifetime: PhantomData<&'library ()>,
}

impl<'library> Fan<'library> {
    /// The board handle this accessor is scoped to.
    pub closed spec fn spec_handle(self) -> u32 {
        self.handle
    }

    /// The zero-based fan ordinal on that board.
    pub closed spec fn spec_index(self) -> u32 {
        self.index
    }

    /// Builds the accessor for the fan with the given ordinal. Validity of
    /// the ordinal is only established when an operation against the
    /// interface succeeds; an out-of-range ordinal makes those calls fail.
    pub fn new(handle: u32, index: usize) -> (r: Fan<'library>)
        requires
            index <= u32::MAX,
        ensures
            r.spec_handle() == handle,
            r.spec_index() == index,
    {
        Fan { handle, index: index as u32, _library_lifetime: PhantomData }
    }

    /// The board handle, for the layer that makes the raw calls.
    pub fn handle(&self) -> (r: u32)
        ensures
            r == self.spec_handle(),
    {
        self.handle
    }

    /// The fan ordinal, for the layer that makes the raw calls.
    pub fn index(&self) -> (r: u32)
        ensures
            r == self.spec_index(),
    {
        self.index
    }
}

} // verus!
