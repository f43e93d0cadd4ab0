use congatec::fan::{FanInfo, FanType, RawFanInfo, FAN_INFO_RAW_SIZE};
use congatec::status::Status;
use congatec::temperature::{
    RawTemperatureInfo, TemperatureInfo, TemperatureType, TEMPERATURE_INFO_RAW_SIZE,
};

#[test]
fn temperature_type_raw_mapping() {
    let cases: [(u32, TemperatureType); 10] = [
        (0, TemperatureType::Cpu),
        (1, TemperatureType::Box),
        (2, TemperatureType::Environment),
        (3, TemperatureType::Board),
        (4, TemperatureType::Backplane),
        (5, TemperatureType::Chipsets),
        (6, TemperatureType::Video),
        (7, TemperatureType::Other),
        (8, TemperatureType::TopRAMEnvironment),
        (9, TemperatureType::BottomRAMEnvironment),
    ];
    for (raw, typ) in cases {
        assert_eq!(TemperatureType::from_raw(raw), typ);
        assert_eq!(typ.to_raw(), raw);
    }
}

#[test]
fn fan_type_raw_mapping() {
    let cases: [(u32, FanType); 10] = [
        (0, FanType::Cpu),
        (1, FanType::Box),
        (2, FanType::Environment),
        (3, FanType::Board),
        (4, FanType::Backplane),
        (5, FanType::Chipsets),
        (6, FanType::Video),
        (7, FanType::Other),
        (8, FanType::TopRAMEnvironment),
        (9, FanType::BottomRAMEnvironment),
    ];
    for (raw, typ) in cases {
        assert_eq!(FanType::from_raw(raw), typ);
        assert_eq!(typ.to_raw(), raw);
    }
}

#[test]
fn temperature_info_decodes_milli_units() {
    let raw = RawTemperatureInfo {
        size: 0,
        type_: 0,
        flags: 0xf1,
        alarm: 3,
        res: 125,
        min: 0xffff_63c0,  // -40000 milli-degrees
        max: 105_000,
        alarm_hi: 95_000,
        hyst_hi: 2_000,
        alarm_lo: 0xffff_d8f0,  // -10000 milli-degrees
        hyst_lo: 1_500,
    };
    let info = TemperatureInfo::from_raw(&raw);
    assert_eq!(info.type_, TemperatureType::Cpu);
    assert_eq!(info.status.bits(), 0x01);
    assert_eq!(info.alarm, 3);
    assert_eq!(info.resolution_milli, 125);
    assert_eq!(info.minimum_milli, -40_000);
    assert_eq!(info.maximum_milli, 105_000);
    assert_eq!(info.alarm_high_milli, 95_000);
    assert_eq!(info.hysteresis_high_milli, 2_000);
    assert_eq!(info.alarm_low_milli, -10_000);
    assert_eq!(info.hysteresis_low_milli, 1_500);
    // Engineering units are the milli-values divided by 1000.
    assert_eq!(info.resolution_milli as f32 / 1000.0, 0.125);
    assert_eq!(info.minimum_milli as f32 / 1000.0, -40.0);
}

#[test]
fn temperature_info_roundtrip_stamps_size() {
    let info = TemperatureInfo {
        type_: TemperatureType::Board,
        status: Status::from_bits_truncate(0x03),
        alarm: 1,
        resolution_milli: 125,
        minimum_milli: -40_000,
        maximum_milli: 105_000,
        alarm_high_milli: 95_000,
        hysteresis_high_milli: 2_000,
        alarm_low_milli: -10_000,
        hysteresis_low_milli: 1_500,
    };
    let raw = info.to_raw();
    assert_eq!(raw.size, TEMPERATURE_INFO_RAW_SIZE);
    assert_eq!(raw.size, 44);
    assert_eq!(raw.res, 125);
    assert_eq!(raw.min, 0xffff_63c0);
    let back = TemperatureInfo::from_raw(&raw);
    assert_eq!(back, info);
}

#[test]
fn fan_info_decodes_signed_values() {
    let raw = RawFanInfo {
        size: 0,
        type_: 1,
        flags: 0x1f2,
        alarm: 0xffff_ffff,  // -1
        speed_nom: 3_000,
        min: 500,
        max: 6_000,
        alarm_hi: 5_500,
        hyst_hi: 100,
        alarm_lo: 600,
        hyst_lo: 50,
        out_min: 0,
        out_max: 255,
    };
    let info = FanInfo::from_raw(&raw);
    assert_eq!(info.type_, FanType::Box);
    assert_eq!(info.status.bits(), 0x02);
    assert_eq!(info.alarm, -1);
    assert_eq!(info.speed_nominal, 3_000);
    assert_eq!(info.minimum, 500);
    assert_eq!(info.maximum, 6_000);
    assert_eq!(info.alarm_high, 5_500);
    assert_eq!(info.hysteresis_high, 100);
    assert_eq!(info.alarm_low, 600);
    assert_eq!(info.hysteresis_low, 50);
    assert_eq!(info.out_minimum, 0);
    assert_eq!(info.out_maximum, 255);
}

#[test]
fn fan_info_roundtrip_stamps_size() {
    let info = FanInfo {
        type_: FanType::Cpu,
        status: Status::from_bits_truncate(0x05),
        alarm: -1,
        speed_nominal: 3_000,
        minimum: 500,
        maximum: 6_000,
        alarm_high: 5_500,
        hysteresis_high: 100,
        alarm_low: 600,
        hysteresis_low: 50,
        out_minimum: 0,
        out_maximum: 255,
    };
    let raw = info.to_raw();
    assert_eq!(raw.size, FAN_INFO_RAW_SIZE);
    assert_eq!(raw.size, 52);
    assert_eq!(raw.alarm, 0xffff_ffff);
    let back = FanInfo::from_raw(&raw);
    assert_eq!(back, info);
}
