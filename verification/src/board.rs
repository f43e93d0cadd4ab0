//! Boards: the class filter bit-set, the identity snapshot and its decoding
//! from the raw self-describing layout, and the board value that owns one
//! opened handle and mints subsystem accessors scoped to itself.

use core::marker::PhantomData;
use vstd::prelude::*;

use crate::congatec::Congatec;
use crate::fan::Fan;
use crate::i2c::{I2c, I2cResult};
use crate::storage_area::{StorageArea, StorageAreaType};
use crate::temperature::Temperature;
use crate::text::{decode_spec, decode_text, TextError};

verus! {

/// Raw mask matching boards of every class.
pub const BOARD_CLASS_ALL: u32 = 0x00000000;

/// Raw mask of the CPU board class.
pub const BOARD_CLASS_CPU: u32 = 0x00000001;

/// Raw mask of the VGA board class.
pub const BOARD_CLASS_VGA: u32 = 0x00000002;

/// Raw mask of the I/O board class.
pub const BOARD_CLASS_IO: u32 = 0x00000004;

/// Union of all documented board class bits.
pub const BOARD_CLASS_KNOWN_MASK: u32 = 0x00000007;

/// Board classification: a bit-mask over the documented vocabulary, used
/// both as an enumeration filter and in the identity snapshot. Unknown bits
/// coming from the interface are preserved losslessly unless truncation is
/// explicitly requested.
#[derive(Clone, Copy, Debug, PartialEq, Eq, Structural)]
pub struct BoardClass {
    bits: u32,
}

impl BoardClass {
    /// The raw bit pattern this set stands for.
    pub closed spec fn spec_bits(self) -> u32 {
        self.bits
    }

    /// The set holding exactly the given raw bits, unknown bits included.
    pub closed spec fn spec_from_bits(bits: u32) -> BoardClass {
        BoardClass { bits }
    }

    /// The set holding the given raw bits with unknown bits dropped.
    pub open spec fn spec_from_bits_truncate(bits: u32) -> BoardClass {
        BoardClass::spec_from_bits(bits & BOARD_CLASS_KNOWN_MASK)
    }

    /// This set with unknown bits dropped.
    pub open spec fn spec_truncate(self) -> BoardClass {
        BoardClass::spec_from_bits_truncate(self.spec_bits())
    }

    /// Builds a set from raw bits, preserving unknown bits losslessly.
    pub fn from_bits(bits: u32) -> (r: BoardClass)
        ensures
            r == BoardClass::spec_from_bits(bits),
            r.spec_bits() == bits,
    {
        BoardClass { bits }
    }

    /// Builds a set from raw bits, dropping bits outside the documented
    /// vocabulary.
    pub fn from_bits_truncate(bits: u32) -> (r: BoardClass)
        ensures
            r == BoardClass::spec_from_bits_truncate(bits),
            r.spec_bits() == bits & BOARD_CLASS_KNOWN_MASK,
    {
        BoardClass { bits: bits & BOARD_CLASS_KNOWN_MASK }
    }

    /// The raw bit pattern, for handing back to the hardware interface.
    pub fn bits(&self) -> (r: u32)
        ensures
            r == self.spec_bits(),
    {
        self.bits
    }

    /// This set with unknown bits dropped.
    pub fn truncate(&self) -> (r: BoardClass)
        ensures
            r == self.spec_truncate(),
            r.spec_bits() == self.spec_bits() & BOARD_CLASS_KNOWN_MASK,
    {
        BoardClass { bits: self.bits & BOARD_CLASS_KNOWN_MASK }
    }

    /// Union of the two sets.
    pub fn union(&self, other: &BoardClass) -> (r: BoardClass)
        ensures
            r.spec_bits() == self.spec_bits() | other.spec_bits(),
    {
        BoardClass { bits: self.bits | other.bits }
    }

    /// Intersection of the two sets.
    pub fn intersection(&self, other: &BoardClass) -> (r: BoardClass)
        ensures
            r.spec_bits() == self.spec_bits() & other.spec_bits(),
    {
        BoardClass { bits: self.bits & other.bits }
    }

    /// Membership: whether every class bit of `other` is set in `self`.
    pub fn contains(&self, other: &BoardClass) -> (r: bool)
        ensures
            r == (self.spec_bits() & other.spec_bits() == other.spec_bits()),
    {
        self.bits & other.bits == other.bits
    }

    /// The filter matching boards of every class.
    pub fn all() -> (r: BoardClass)
        ensures
            r.spec_bits() == BOARD_CLASS_ALL,
    {
        BoardClass { bits: BOARD_CLASS_ALL }
    }

    /// The CPU class alone.
    pub fn cpu() -> (r: BoardClass)
        ensures
            r.spec_bits() == BOARD_CLASS_CPU,
    {
        BoardClass { bits: BOARD_CLASS_CPU }
    }

    /// The VGA class alone.
    pub fn vga() -> (r: BoardClass)
        ensures
            r.spec_bits() == BOARD_CLASS_VGA,
    {
        BoardClass { bits: BOARD_CLASS_VGA }
    }

    /// The I/O class alone.
    pub fn io() -> (r: BoardClass)
        ensures
            r.spec_bits() == BOARD_CLASS_IO,
    {
        BoardClass { bits: BOARD_CLASS_IO }
    }
}

/// Law: converting a truncated board class set to raw bits and building a
/// set from those bits again gives the truncated set back, whether or not
/// the rebuilding truncates once more.
pub proof fn lemma_board_class_truncate_roundtrip(x: BoardClass)
    ensures
        BoardClass::spec_from_bits(x.spec_truncate().spec_bits()) == x.spec_truncate(),
        BoardClass::spec_from_bits_truncate(x.spec_truncate().spec_bits()) == x.spec_truncate(),
{
    let b = x.spec_bits();
    assert(b & BOARD_CLASS_KNOWN_MASK & BOARD_CLASS_KNOWN_MASK == b & BOARD_CLASS_KNOWN_MASK)
        by (bit_vector);
}

/// A calendar timestamp as the interface reports it; a pure data transfer
/// value with no independent lifecycle.
#[derive(Clone, Copy, Debug, PartialEq, Eq, Structural)]
pub struct BoardTime {
    pub year: u16,
    pub month: u16,
    pub day_of_week: u16,
    pub day: u16,
    pub hour: u16,
    pub minute: u16,
    pub second: u16,
    pub millisecond: u16,
}

/// Byte length of the buffer a board-name query fills: a null-terminated
/// text field of at most this size.
pub const BOARD_NAME_BUFFER_SIZE: usize = 128;

/// The identity snapshot as the raw interface hands it over, with each
/// fixed-length text field carried as its raw null-terminated bytes and
/// each packed or raw numeric field unchanged.
#[derive(Clone, Debug, PartialEq, Eq)]
pub struct RawBoardInfo {
    /// Board name, null-terminated.
    pub board: Vec<u8>,
    /// Sub-board name, null-terminated.
    pub board_sub: Vec<u8>,
    /// Manufacturer name, null-terminated.
    pub manufacturer: Vec<u8>,
    /// Numeric manufacturer identifier.
    pub manufacturer_sub: u32,
    /// When the board was manufactured.
    pub manufacturing_date: BoardTime,
    /// When the board was last repaired.
    pub last_repair_date: BoardTime,
    /// Serial number, null-terminated.
    pub serial_number: Vec<u8>,
    /// Two packed revision bytes: high byte major, low byte minor.
    pub product_revision: u16,
    /// System BIOS revision.
    pub system_bios_revision: u16,
    /// BIOS interface build revision.
    pub bios_interface_build_revision: u16,
    /// Raw board class bits.
    pub classes: u32,
    /// Raw primary class bits.
    pub primary_class: u32,
    /// How often the board was repaired.
    pub repair_counter: u32,
    /// Part number, null-terminated.
    pub part_number: Vec<u8>,
    /// European article number, null-terminated.
    pub ean: Vec<u8>,
}

/// Immutable snapshot of a board's identity and manufacturing metadata,
/// captured by value at query time.
#[derive(Clone, Debug, PartialEq, Eq)]
pub struct BoardInfo {
    pub board: String,
    pub board_sub: String,
    pub manufacturer: String,
    pub manufacturer_sub: u32,
    pub manufacturing_date: BoardTime,
    pub last_repair_date: BoardTime,
    pub serial_number: String,
    /// Textual "major.minor" form of the packed product revision.
    pub product_revision: String,
    pub system_bios_revision: u16,
    pub bios_interface_build_revision: u16,
    pub classes: BoardClass,
    pub primary_class: BoardClass,
    pub repair_counter: u32,
    pub part_number: String,
    pub european_article_number: String,
}

/// The textual form of a packed product revision: the high byte and the low
/// byte read as characters, joined by a literal dot. This is the vendor's
/// convention and is preserved exactly.
pub open spec fn spec_product_revision(packed: u16) -> Seq<char> {
    seq![(((packed >> 8) & 0xff) as u8) as char, '.', ((packed & 0xff) as u8) as char]
}

/// Decodes the packed two-byte product revision into its textual
/// "major.minor" form.
pub fn product_revision_string(packed: u16) -> (r: String)
    ensures
        r@ == spec_product_revision(packed),
{
    assert(((packed >> 8) & 0xff) < 256 && (packed & 0xff) < 256) by (bit_vector);
    let major: u8 = ((packed >> 8) & 0xff) as u8;
    let minor: u8 = (packed & 0xff) as u8;
    let mut out = String::new();
    crate::text::push_char(&mut out, major as char);
    crate::text::push_char(&mut out, '.');
    crate::text::push_char(&mut out, minor as char);
    proof {
        assert(out@ =~= spec_product_revision(packed));
    }
    out
}

impl BoardInfo {
    /// Decodes the raw identity snapshot into the typed one: every text
    /// field read up to its null terminator, the product revision rendered
    /// as "major.minor", class bit-sets truncated to the documented bits,
    /// and the remaining fields carried over. The first text field that is
    /// not well-formed decides the error; the caller treats such an error as
    /// fatal, since the snapshot comes from trusted firmware.
    pub fn from_raw(raw: &RawBoardInfo) -> (r: Result<BoardInfo, TextError>)
        ensures
            match r {
                Ok(info) => {
                    &&& decode_spec(raw.board@) is Ok
                    &&& decode_spec(raw.board_sub@) is Ok
                    &&& decode_spec(raw.manufacturer@) is Ok
                    &&& decode_spec(raw.serial_number@) is Ok
                    &&& decode_spec(raw.part_number@) is Ok
                    &&& decode_spec(raw.ean@) is Ok
                    &&& info.board@ == decode_spec(raw.board@)->Ok_0
                    &&& info.board_sub@ == decode_spec(raw.board_sub@)->Ok_0
                    &&& info.manufacturer@ == decode_spec(raw.manufacturer@)->Ok_0
                    &&& info.serial_number@ == decode_spec(raw.serial_number@)->Ok_0
                    &&& info.part_number@ == decode_spec(raw.part_number@)->Ok_0
                    &&& info.european_article_number@ == decode_spec(raw.ean@)->Ok_0
                    &&& info.manufacturer_sub == raw.manufacturer_sub
                    &&& info.manufacturing_date == raw.manufacturing_date
                    &&& info.last_repair_date == raw.last_repair_date
                    &&& info.product_revision@ == spec_product_revision(raw.product_revision)
                    &&& info.system_bios_revision == raw.system_bios_revision
                    &&& info.bios_interface_build_revision == raw.bios_interface_build_revision
                    &&& info.classes == BoardClass::spec_from_bits_truncate(raw.classes)
                    &&& info.primary_class == BoardClass::spec_from_bits_truncate(
                        raw.primary_class,
                    )
                    &&& info.repair_counter == raw.repair_counter
                },
                Err(e) => {
                    ||| decode_spec(raw.board@) == Err::<Seq<char>, TextError>(e)
                    ||| (decode_spec(raw.board@) is Ok && decode_spec(raw.board_sub@) == Err::<
                        Seq<char>,
                        TextError,
                    >(e))
                    ||| (decode_spec(raw.board@) is Ok && decode_spec(raw.board_sub@) is Ok
                        && decode_spec(raw.manufacturer@) == Err::<Seq<char>, TextError>(e))
                    ||| (decode_spec(raw.board@) is Ok && decode_spec(raw.board_sub@) is Ok
                        && decode_spec(raw.manufacturer@) is Ok && decode_spec(raw.serial_number@)
                        == Err::<Seq<char>, TextError>(e))
                    ||| (decode_spec(raw.board@) is Ok && decode_spec(raw.board_sub@) is Ok
                        && decode_spec(raw.manufacturer@) is Ok && decode_spec(raw.serial_number@)
                        is Ok && decode_spec(raw.part_number@) == Err::<Seq<char>, TextError>(e))
                    ||| (decode_spec(raw.board@) is Ok && decode_spec(raw.board_sub@) is Ok
                        && decode_spec(raw.manufacturer@) is Ok && decode_spec(raw.serial_number@)
                        is Ok && decode_spec(raw.part_number@) is Ok && decode_spec(raw.ean@)
                        == Err::<Seq<char>, TextError>(e))
                },
            },
    {
        let board = match decode_text(raw.board.as_slice()) {
            Ok(s) => s,
            Err(e) => { return Err(e); },
        };
        let board_sub = match decode_text(raw.board_sub.as_slice()) {
            Ok(s) => s,
            Err(e) => { return Err(e); },
        };
        let manufacturer = match decode_text(raw.manufacturer.as_slice()) {
            Ok(s) => s,
            Err(e) => { return Err(e); },
        };
        let serial_number = match decode_text(raw.serial_number.as_slice()) {
            Ok(s) => s,
            Err(e) => { return Err(e); },
        };
        let part_number = match decode_text(raw.part_number.as_slice()) {
            Ok(s) => s,
            Err(e) => { return Err(e); },
        };
        let european_article_number = match decode_text(raw.ean.as_slice()) {
            Ok(s) => s,
            Err(e) => { return Err(e); },
        };
        let product_revision = product_revision_string(raw.product_revision);
        Ok(
            BoardInfo {
                board,
                board_sub,
                manufacturer,
                manufacturer_sub: raw.manufacturer_sub,
                manufacturing_date: raw.manufacturing_date,
                last_repair_date: raw.last_repair_date,
                serial_number,
                product_revision,
                system_bios_revision: raw.system_bios_revision,
                bios_interface_build_revision: raw.bios_interface_build_revision,
                classes: BoardClass::from_bits_truncate(raw.classes),
                primary_class: BoardClass::from_bits_truncate(raw.primary_class),
                repair_counter: raw.repair_counter,
                part_number,
                european_article_number,
            },
        )
    }
}

/// Seconds of cumulative running time derived from the interface's raw
/// counter, which the running-time query treats as an hour count.
///
/// The underlying interface supplies this value from the same query as the
/// boot counter; that conflation is observed interface behavior and is
/// preserved here rather than silently corrected.
pub fn running_seconds_from_counter(count: u32) -> (r: u64)
    ensures
        r == count * 3600,
{
    (count as u64) * 3600
}

/// One opened board: the exclusive owner of its numeric handle, scoped to
/// the library context it was opened from. Subsystem accessors are minted
/// against a borrow of the board, so none can survive the board itself, and
/// the board cannot survive the context.
pub struct Board<'library> {
    handle: u32,
    temperature_count: u32,
    fan_count: u32,
    i2c_bus_count: u32,
    _library_lifetime: PhantomData<&'library ()>,
}

impl<'library> Board<'library> {
    /// The opaque handle the interface returned when this board was opened.
    pub closed spec fn spec_handle(self) -> u32 {
        self.handle
    }

    /// Number of temperature sensors on this board, as counted at open time.
    pub closed spec fn spec_temperature_count(self) -> u32 {
        self.temperature_count
    }

    /// Number of fans on this board, as counted at open time.
    pub closed spec fn spec_fan_count(self) -> u32 {
        self.fan_count
    }

    /// Number of I2C buses on this board, as counted at open time.
    pub closed spec fn spec_i2c_bus_count(self) -> u32 {
        self.i2c_bus_count
    }

    /// Wraps a freshly opened board handle, together with the subsystem
    /// counts queried at open time. Called by the application layer right
    /// after the interface's open call succeeded; the borrow of the library
    /// context keeps the context alive for as long as the board is.
    pub fn from_handle(
        _library: &'library Congatec,
        handle: u32,
        temperature_count: u32,
        fan_count: u32,
        i2c_bus_count: u32,
    ) -> (r: Board<'library>)
        ensures
            r.spec_handle() == handle,
            r.spec_temperature_count() == temperature_count,
            r.spec_fan_count() == fan_count,
            r.spec_i2c_bus_count() == i2c_bus_count,
    {
        Board {
            handle,
            temperature_count,
            fan_count,
            i2c_bus_count,
            _library_lifetime: PhantomData,
        }
    }

    /// The board handle, for the layer that makes the raw calls.
    pub fn handle(&self) -> (r: u32)
        ensures
            r == self.spec_handle(),
    {
        self.handle
    }

    /// Number of temperature sensors on this board.
    pub fn get_number_of_temperatures(&self) -> (r: usize)
        ensures
            r == self.spec_temperature_count(),
    {
        self.temperature_count as usize
    }

    /// Mints the accessor for one temperature sensor, scoped to this board.
    /// The ordinal is not bounds-checked here: an out-of-range one only
    /// surfaces when an operation against the interface fails.
    pub fn get_temperature(&'library self, index: usize) -> (r: Temperature<'library>)
        requires
            index <= u32::MAX,
        ensures
            r.spec_handle() == self.spec_handle(),
            r.spec_index() == index,
    {
        Temperature::new(self.handle, index)
    }

    /// Number of fans on this board.
    pub fn get_number_of_fans(&self) -> (r: usize)
        ensures
            r == self.spec_fan_count(),
    {
        self.fan_count as usize
    }

    /// Mints the accessor for one fan, scoped to this board. The ordinal is
    /// not bounds-checked here: an out-of-range one only surfaces when an
    /// operation against the interface fails.
    pub fn get_fan(&'library self, index: usize) -> (r: Fan<'library>)
        requires
            index <= u32::MAX,
        ensures
            r.spec_handle() == self.spec_handle(),
            r.spec_index() == index,
    {
        Fan::new(self.handle, index)
    }

    /// Number of I2C buses on this board.
    pub fn get_number_of_i2c_buses(&self) -> (r: usize)
        ensures
            r == self.spec_i2c_bus_count(),
    {
        self.i2c_bus_count as usize
    }

    /// Mints the accessor for one I2C bus, scoped to this board. Unlike the
    /// other subsystems the ordinal is validated eagerly against the bus
    /// count: probing past the end is a routine, recoverable outcome.
    pub fn get_i2c(&'library self, index: usize) -> (r: I2cResult<I2c<'library>>)
        ensures
            r is Ok <==> (index as int) < (self.spec_i2c_bus_count() as int),
            r is Ok ==> r->Ok_0.spec_handle() == self.spec_handle() && r->Ok_0.spec_index()
                == index,
            r is Err ==> r->Err_0 == crate::i2c::I2cErr::IdxOutOfRange,
    {
        I2c::new(self.handle, index, self.i2c_bus_count)
    }

    /// Mints the accessor for the storage area with the given ordinal,
    /// scoped to this board. The selection is lazy; no query is issued.
    pub fn get_storage_area_from_index(&'library self, index: usize) -> (r: StorageArea<'library>)
        requires
            index <= u32::MAX,
        ensures
            r.spec_handle() == self.spec_handle(),
            r.spec_unit() == index,
    {
        StorageArea::from_index(self.handle, index)
    }

    /// Mints the accessor for the first storage area matching a capability
    /// class, scoped to this board. The selection is lazy; no query is
    /// issued.
    pub fn get_storage_area_from_type(
        &'library self,
        type_: StorageAreaType,
    ) -> (r: StorageArea<'library>)
        ensures
            r.spec_handle() == self.spec_handle(),
            r.spec_unit() == type_.spec_bits(),
    {
        StorageArea::from_type(self.handle, type_)
    }
}

} // verus!
