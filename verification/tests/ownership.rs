use congatec::board::{Board, BoardInfo, BoardTime, RawBoardInfo};
use congatec::congatec::Congatec;
use congatec::i2c::{availability_from_raw, transaction_byte_result, transaction_result,
    transaction_value_result, I2c, I2cErr, I2cType};
use congatec::status::Status;
use congatec::storage_area::StorageAreaType;
use congatec::text::TextError;

fn sample_time() -> BoardTime {
    BoardTime {
        year: 2021,
        month: 6,
        day_of_week: 2,
        day: 15,
        hour: 10,
        minute: 30,
        second: 0,
        millisecond: 0,
    }
}

fn sample_raw_info() -> RawBoardInfo {
    RawBoardInfo {
        board: vec![0x42, 0x51, 0x36, 0],  // "BQ6"
        board_sub: vec![0x53, 0x55, 0x42, 0],  // "SUB"
        manufacturer: vec![0x63, 0x6f, 0x6e, 0x67, 0x61, 0],  // "conga"
        manufacturer_sub: 7,
        manufacturing_date: sample_time(),
        last_repair_date: sample_time(),
        serial_number: vec![0x30, 0x30, 0x31, 0],  // "001"
        product_revision: 0x3231,
        system_bios_revision: 0x0102,
        bios_interface_build_revision: 0x0304,
        classes: 0xff,
        primary_class: 0x01,
        repair_counter: 2,
        part_number: vec![0x50, 0x2d, 0x31, 0],  // "P-1"
        ean: vec![0x34, 0x30, 0x31, 0],  // "401"
    }
}

#[test]
fn board_info_decodes_every_field() {
    let raw = sample_raw_info();
    let info: BoardInfo = BoardInfo::from_raw(&raw).unwrap();
    assert_eq!(info.board, "BQ6");
    assert_eq!(info.board_sub, "SUB");
    assert_eq!(info.manufacturer, "conga");
    assert_eq!(info.manufacturer_sub, 7);
    assert_eq!(info.manufacturing_date, sample_time());
    assert_eq!(info.last_repair_date, sample_time());
    assert_eq!(info.serial_number, "001");
    assert_eq!(info.product_revision, "2.1");
    assert_eq!(info.system_bios_revision, 0x0102);
    assert_eq!(info.bios_interface_build_revision, 0x0304);
    assert_eq!(info.classes.bits(), 0x07);
    assert_eq!(info.primary_class.bits(), 0x01);
    assert_eq!(info.repair_counter, 2);
    assert_eq!(info.part_number, "P-1");
    assert_eq!(info.european_article_number, "401");
}

#[test]
fn board_info_accepts_utf8_fields() {
    let mut raw = sample_raw_info();
    raw.board = vec![0x42, 0xc3, 0xa9, 0];  // one two-byte UTF-8 character
    let info = BoardInfo::from_raw(&raw).unwrap();
    assert_eq!(info.board, "B\u{e9}");
}

#[test]
fn board_info_reports_first_bad_field() {
    let mut raw = sample_raw_info();
    raw.serial_number = vec![0x30, 0x30];
    assert_eq!(BoardInfo::from_raw(&raw), Err(TextError::MissingTerminator));
    let mut raw = sample_raw_info();
    raw.board = vec![0x42, 0x80, 0];  // a lone continuation byte is invalid
    assert_eq!(BoardInfo::from_raw(&raw), Err(TextError::InvalidUtf8));
}

#[test]
fn context_board_accessor_nesting() {
    // The sanctioned teardown order: accessors first, then the board, then
    // the context. The borrow structure makes any other order fail to
    // compile, which is the structural guarantee under test here.
    let context = Congatec::new();
    let board = Board::from_handle(&context, 11, 2, 1, 3);
    assert_eq!(board.handle(), 11);
    assert_eq!(board.get_number_of_temperatures(), 2);
    assert_eq!(board.get_number_of_fans(), 1);
    assert_eq!(board.get_number_of_i2c_buses(), 3);
    {
        let temp = board.get_temperature(0);
        assert_eq!(temp.handle(), 11);
        assert_eq!(temp.index(), 0);
        let fan = board.get_fan(0);
        assert_eq!(fan.handle(), 11);
        assert_eq!(fan.index(), 0);
        let area = board.get_storage_area_from_index(4);
        assert_eq!(area.handle(), 11);
        assert_eq!(area.unit(), 4);
        let area = board.get_storage_area_from_type(StorageAreaType::flash());
        assert_eq!(area.unit(), 0x0002_0000);
    }
    drop(board);
    drop(context);
}

#[test]
fn i2c_index_validated_against_bus_count() {
    let context = Congatec::new();
    let board = Board::from_handle(&context, 5, 0, 0, 2);
    match board.get_i2c(0) {
        Ok(bus) => {
            assert_eq!(bus.handle(), 5);
            assert_eq!(bus.index(), 0);
        },
        Err(_) => panic!("index below the bus count must be accepted"),
    }
    assert!(matches!(board.get_i2c(2), Err(I2cErr::IdxOutOfRange)));
    assert!(matches!(board.get_i2c(usize::MAX), Err(I2cErr::IdxOutOfRange)));
}

#[test]
fn i2c_new_rejects_index_at_count() {
    assert!(matches!(I2c::new(9, 3, 3), Err(I2cErr::IdxOutOfRange)));
    assert!(matches!(I2c::new(9, 0, 0), Err(I2cErr::IdxOutOfRange)));
    match I2c::new(9, 2, 3) {
        Ok(bus) => {
            assert_eq!(bus.handle(), 9);
            assert_eq!(bus.index(), 2);
        },
        Err(_) => panic!("index below the bus count must be accepted"),
    }
}

#[test]
fn i2c_type_primary_and_escape() {
    assert_eq!(I2cType::from_raw(0x0001_0000), I2cType::Primary);
    assert_eq!(I2cType::from_raw(0), I2cType::Unknown);
    assert_eq!(I2cType::from_raw(0x0002_0000), I2cType::Smb);
    assert_eq!(I2cType::from_raw(0x0003_0000), I2cType::Ddc);
    let undocumented: u32 = 0x0005_0001;
    let escape = I2cType::from_raw(undocumented);
    assert_eq!(escape, I2cType::CongatecInternalUse(undocumented));
    assert_eq!(escape.to_raw(), undocumented);
    assert_eq!(I2cType::Primary.to_raw(), 0x0001_0000);
}

#[test]
fn i2c_transaction_results() {
    assert!(matches!(transaction_result(1), Ok(())));
    assert!(matches!(transaction_result(0xffff), Ok(())));
    assert_eq!(transaction_result(0), Err(I2cErr::BusErr));
    assert_eq!(transaction_value_result(1, 400_000), Ok(400_000));
    assert_eq!(transaction_value_result(0, 400_000), Err(I2cErr::BusErr));
    assert_eq!(transaction_byte_result(2, 0xa5), Ok(0xa5));
    assert_eq!(transaction_byte_result(0, 0xa5), Err(I2cErr::BusErr));
}

#[test]
fn i2c_availability() {
    assert!(availability_from_raw(1));
    assert!(!availability_from_raw(0));
    assert!(!availability_from_raw(2));
}

#[test]
fn status_reading_from_raw_flags() {
    let status = Status::from_bits_truncate(0xf5);
    assert_eq!(status.bits(), 0x05);
    assert!(status.contains(&Status::active()));
    assert!(status.contains(&Status::broken()));
    assert!(!status.contains(&Status::alarm()));
}
