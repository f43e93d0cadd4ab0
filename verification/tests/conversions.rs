use congatec::board::{product_revision_string, running_seconds_from_counter, BoardClass};
use congatec::fixed_point::{milli_from_raw, milli_to_raw};
use congatec::status::Status;
use congatec::storage_area::{EraseStatus, StorageAreaType};
use congatec::text::{decode_text, TextError};

#[test]
fn status_truncate_roundtrip() {
    let x = Status::from_bits(0xdead_beef);
    let t = x.truncate();
    assert_eq!(t.bits(), 0xdead_beef & 0x0f);
    assert_eq!(Status::from_bits(t.bits()), t);
    assert_eq!(Status::from_bits_truncate(t.bits()), t);
}

#[test]
fn board_class_truncate_roundtrip() {
    let x = BoardClass::from_bits(0xffff_fff5);
    let t = x.truncate();
    assert_eq!(t.bits(), 0x5);
    assert_eq!(BoardClass::from_bits(t.bits()), t);
    assert_eq!(BoardClass::from_bits_truncate(t.bits()), t);
}

#[test]
fn storage_area_type_truncate_roundtrip() {
    let x = StorageAreaType::from_bits(0x0013_0001);
    let t = x.truncate();
    assert_eq!(t.bits(), 0x0003_0000);
    assert_eq!(StorageAreaType::from_bits(t.bits()), t);
    assert_eq!(StorageAreaType::from_bits_truncate(t.bits()), t);
}

#[test]
fn bit_set_preserves_unknown_bits_without_truncation() {
    let x = Status::from_bits(0xdead_beef);
    assert_eq!(x.bits(), 0xdead_beef);
    let c = BoardClass::from_bits(0x8000_0001);
    assert_eq!(c.bits(), 0x8000_0001);
}

#[test]
fn bit_set_operations() {
    let a = Status::active();
    let b = Status::broken();
    let both = a.union(&b);
    assert_eq!(both.bits(), 0x05);
    assert!(both.contains(&a));
    assert!(both.contains(&b));
    assert!(!a.contains(&b));
    assert_eq!(both.intersection(&a).bits(), 0x01);
    assert!(!both.is_empty());
    assert!(Status::from_bits(0).is_empty());
    assert_eq!(Status::alarm().bits(), 0x02);
    assert_eq!(Status::short_circuit().bits(), 0x08);
}

#[test]
fn board_class_constants() {
    assert_eq!(BoardClass::all().bits(), 0);
    assert_eq!(BoardClass::cpu().bits(), 1);
    assert_eq!(BoardClass::vga().bits(), 2);
    assert_eq!(BoardClass::io().bits(), 4);
}

#[test]
fn storage_area_type_constants() {
    assert_eq!(StorageAreaType::unknown().bits(), 0);
    assert_eq!(StorageAreaType::eeprom().bits(), 0x0001_0000);
    assert_eq!(StorageAreaType::flash().bits(), 0x0002_0000);
    assert_eq!(StorageAreaType::cmos().bits(), 0x0003_0000);
    assert_eq!(StorageAreaType::ram().bits(), 0x0004_0000);
}

#[test]
fn product_revision_two_one() {
    let s = product_revision_string(0x3231);
    assert_eq!(s, "2.1");
}

#[test]
fn product_revision_one_zero() {
    let s = product_revision_string(0x3130);
    assert_eq!(s, "1.0");
}

#[test]
fn milli_fixed_point_roundtrip() {
    // The engineering value 0.125 is carried as 125 raw milli-units.
    let milli: i32 = (0.125f32 * 1000.0) as i32;
    assert_eq!(milli, 125);
    let raw = milli_to_raw(milli);
    assert_eq!(raw, 125);
    let back = milli_from_raw(raw);
    assert_eq!(back, 125);
    assert_eq!(back as f32 / 1000.0, 0.125);
}

#[test]
fn milli_negative_values() {
    assert_eq!(milli_to_raw(-1), 0xffff_ffff);
    assert_eq!(milli_from_raw(0xffff_ffff), -1);
    assert_eq!(milli_from_raw(milli_to_raw(-40_000)), -40_000);
    assert_eq!(milli_to_raw(milli_from_raw(0x8000_0000)), 0x8000_0000);
    assert_eq!(milli_from_raw(0x8000_0000), i32::MIN);
    assert_eq!(milli_to_raw(i32::MAX), 0x7fff_ffff);
}

#[test]
fn erase_status_decoding() {
    assert_eq!(EraseStatus::from_raw(0), EraseStatus::Successful);
    assert_eq!(EraseStatus::from_raw(1), EraseStatus::InProgress);
    assert_eq!(EraseStatus::from_raw(2), EraseStatus::Failed);
}

#[test]
fn running_time_counts_hours() {
    assert_eq!(running_seconds_from_counter(0), 0);
    assert_eq!(running_seconds_from_counter(2), 7200);
    assert_eq!(running_seconds_from_counter(u32::MAX), u32::MAX as u64 * 3600);
}

#[test]
fn decode_text_reads_up_to_terminator() {
    let buf: [u8; 6] = [0x41, 0x42, 0x43, 0, 0x44, 0];
    let s = decode_text(&buf).unwrap();
    assert_eq!(s, "ABC");
}

#[test]
fn decode_text_empty_string() {
    let buf: [u8; 3] = [0, 0x41, 0x42];
    assert_eq!(decode_text(&buf).unwrap(), "");
}

#[test]
fn decode_text_missing_terminator() {
    let buf: [u8; 3] = [0x41, 0x42, 0x43];
    assert_eq!(decode_text(&buf), Err(TextError::MissingTerminator));
    let empty: [u8; 0] = [];
    assert_eq!(decode_text(&empty), Err(TextError::MissingTerminator));
}

#[test]
fn decode_text_accepts_multi_byte_utf8() {
    // One two-byte UTF-8 character before the terminator.
    let buf: [u8; 4] = [0x41, 0xc3, 0xa9, 0];
    assert_eq!(decode_text(&buf).unwrap(), "A\u{e9}");
}

#[test]
fn decode_text_rejects_invalid_utf8() {
    // A lone continuation byte is not valid UTF-8.
    let buf: [u8; 3] = [0x41, 0x80, 0];
    assert_eq!(decode_text(&buf), Err(TextError::InvalidUtf8));
    // A two-byte sequence cut off by the terminator.
    let buf: [u8; 2] = [0xc3, 0];
    assert_eq!(decode_text(&buf), Err(TextError::InvalidUtf8));
    // 0xff can never appear in UTF-8.
    let buf: [u8; 2] = [0xff, 0];
    assert_eq!(decode_text(&buf), Err(TextError::InvalidUtf8));
}

#[test]
fn decode_text_ignores_bytes_after_terminator() {
    let buf: [u8; 4] = [0x41, 0, 0xff, 0xfe];
    assert_eq!(decode_text(&buf).unwrap(), "A");
}
