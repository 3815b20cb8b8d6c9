//! The table format: a fixed header, an array of fixed-size records and a
//! pool of zero-terminated texts that the records refer to by offset.

pub mod area_table;
pub mod battle_master_list;
pub mod dbc;
pub mod game_object_display_info;
pub mod ground_effect_doodad;
pub mod ground_effect_texture;
pub mod laws;
pub mod light;
pub mod light_params;
pub mod light_sky_box;
pub mod loading_screens;
pub mod map;
pub mod pvp_difficulty;
pub mod spell;
pub mod spell_category;
pub mod spell_icon;
pub mod spell_visual;
pub mod spell_visual_effect_name;
pub mod spell_visual_kit;
pub mod talent;
pub mod talent_tab;

use crate::byte_utils::{
    bytes_at, c_string_at, i32_from_le, le_i32, le_u32, u32_from_le, VecUtils,
};
use crate::common::{
    collect, deep, lemma_collect_fails_at, plain, viewed, DecodeError, Failure, R,
};
use vstd::prelude::*;
use vstd::slice::slice_subrange;

verus! {

/// The bytes that the header takes at the start of a table.
pub const DBC_HEADER_SIZE: usize = 20;

/// The bytes of one column of a record.
pub const COLUMN_SIZE: usize = 4;

/// The fixed fields at offset 0 of a table, in the order in which they
/// stand there, each a little-endian 32-bit number.
#[derive(Debug, Clone, Copy, PartialEq, Eq)]
pub struct DbcHeader {
    /// The four bytes that open the file. They are kept and not judged.
    pub signature: u32,
    /// The number of records.
    pub record_count: u32,
    /// The number of columns that the file declares for a record.
    pub field_count: u32,
    /// The bytes of one record.
    pub record_size: u32,
    /// The bytes of the string pool.
    pub string_pool_size: u32,
}

/// The mathematical content of a table: its header, the bytes of its record
/// array and the bytes of its string pool.
pub struct TableView {
    pub header: DbcHeader,
    pub records: Seq<u8>,
    pub strings: Seq<u8>,
}

/// The mathematical content of a row: the bytes of its record, and the
/// string pool that its text columns point into.
pub struct RowView {
    pub record: Seq<u8>,
    pub strings: Seq<u8>,
}

/// The header that the first bytes of a table spell.
pub open spec fn header_of(bytes: Seq<u8>) -> DbcHeader
    recommends
        bytes.len() >= DBC_HEADER_SIZE,
{
    DbcHeader {
        signature: le_u32(bytes.subrange(0, 4)),
        record_count: le_u32(bytes.subrange(4, 8)),
        field_count: le_u32(bytes.subrange(8, 12)),
        record_size: le_u32(bytes.subrange(12, 16)),
        string_pool_size: le_u32(bytes.subrange(16, 20)),
    }
}

/// The bytes of the record array that a header declares.
pub open spec fn records_size(header: DbcHeader) -> int {
    header.record_count as int * header.record_size as int
}

/// The bytes of the whole table that a header declares: the header, the
/// record array and the string pool.
pub open spec fn extent(header: DbcHeader) -> int {
    DBC_HEADER_SIZE as int + records_size(header) + header.string_pool_size as int
}

/// What is reported when a table of `len` bytes should hold `needed`.
pub open spec fn table_truncated(needed: int, len: int) -> Failure {
    Failure::Truncated { offset: 0, needed, len }
}

/// The table that a buffer holds. The record array follows the header and
/// the string pool follows the record array; bytes after the pool are not
/// part of the table. A buffer shorter than the header, or than the extent
/// that the header declares, is truncated.
pub open spec fn table_of(bytes: Seq<u8>) -> Result<TableView, Failure> {
    if bytes.len() < DBC_HEADER_SIZE {
        Err(table_truncated(DBC_HEADER_SIZE as int, bytes.len() as int))
    } else {
        let header = header_of(bytes);
        let records_end = DBC_HEADER_SIZE as int + records_size(header);
        if bytes.len() < extent(header) {
            Err(table_truncated(extent(header), bytes.len() as int))
        } else {
            Ok(
                TableView {
                    header,
                    records: bytes.subrange(DBC_HEADER_SIZE as int, records_end),
                    strings: bytes.subrange(records_end, extent(header)),
                },
            )
        }
    }
}

impl TableView {
    /// The row at `index`, counted from 0.
    pub open spec fn row(self, index: int) -> RowView {
        let size = self.header.record_size as int;
        RowView {
            record: self.records.subrange(index * size, index * size + size),
            strings: self.strings,
        }
    }

    /// The row at `index`, or the window of the record array that it would
    /// have taken.
    pub open spec fn row_at(self, index: int) -> Result<RowView, Failure> {
        if 0 <= index < self.header.record_count {
            Ok(self.row(index))
        } else {
            Err(
                Failure::OutOfRange {
                    offset: index * self.header.record_size as int,
                    width: self.header.record_size as int,
                    len: records_size(self.header),
                },
            )
        }
    }
}

/// The four bytes of the column at `index`, counted from 0: the bytes from
/// `4 * index` up to `4 * index + 4` of the record.
pub open spec fn column_at(row: RowView, index: int) -> Result<Seq<u8>, Failure> {
    bytes_at(row.record, COLUMN_SIZE as int * index, COLUMN_SIZE as int)
}

/// The column at `index` as an unsigned number.
pub open spec fn number_column(row: RowView, index: int) -> Result<u32, Failure> {
    match column_at(row, index) {
        Ok(word) => Ok(le_u32(word)),
        Err(e) => Err(e),
    }
}

/// The column at `index` as a signed number.
pub open spec fn signed_column(row: RowView, index: int) -> Result<i32, Failure> {
    match column_at(row, index) {
        Ok(word) => Ok(le_i32(word)),
        Err(e) => Err(e),
    }
}

/// The column at `index` as a truth value: any number but zero is true.
pub open spec fn bool_column(row: RowView, index: int) -> Result<bool, Failure> {
    match number_column(row, index) {
        Ok(n) => Ok(n != 0),
        Err(e) => Err(e),
    }
}

/// The column at `index` as a text: the column is an offset into the string
/// pool, and the text runs from there up to the next zero byte.
pub open spec fn string_column(row: RowView, index: int) -> Result<Seq<char>, Failure> {
    match number_column(row, index) {
        Ok(offset) => c_string_at(row.strings, offset as int),
        Err(e) => Err(e),
    }
}

/// How a column is read.
#[derive(Debug, Clone, Copy, PartialEq, Eq)]
pub enum ColumnKind {
    /// An unsigned number.
    Number,
    /// A signed number.
    Signed,
    /// An IEEE-754 single-precision number, kept as its bit pattern.
    Float,
    /// A truth value.
    Bool,
    /// A text of the string pool.
    Text,
}

/// One entry of a schema's plan: the column to read and how to read it.
/// The entry's place in the plan is the field that it fills.
#[derive(Debug, Clone, Copy, PartialEq, Eq)]
pub struct Column {
    pub index: u32,
    pub kind: ColumnKind,
}

/// What was read from one column.
#[derive(Debug, PartialEq, Eq)]
pub enum CellValue {
    Number(u32),
    Signed(i32),
    Float(u32),
    Bool(bool),
    Text(String),
}

/// The mathematical content of a [`CellValue`].
pub enum Cell {
    Number(u32),
    Signed(i32),
    Float(u32),
    Bool(bool),
    Text(Seq<char>),
}

impl View for CellValue {
    type V = Cell;

    open spec fn view(&self) -> Cell {
        match *self {
            CellValue::Number(n) => Cell::Number(n),
            CellValue::Signed(n) => Cell::Signed(n),
            CellValue::Float(bits) => Cell::Float(bits),
            CellValue::Bool(b) => Cell::Bool(b),
            CellValue::Text(s) => Cell::Text(s@),
        }
    }
}

impl DeepView for CellValue {
    type V = Cell;

    open spec fn deep_view(&self) -> Cell {
        self@
    }
}

/// The plan entry that reads column `index` as an unsigned number.
pub open spec fn number(index: u32) -> Column {
    Column { index, kind: ColumnKind::Number }
}

/// The plan entry that reads column `index` as a signed number.
pub open spec fn signed(index: u32) -> Column {
    Column { index, kind: ColumnKind::Signed }
}

/// The plan entry that reads column `index` as a single-precision number.
pub open spec fn float(index: u32) -> Column {
    Column { index, kind: ColumnKind::Float }
}

/// The plan entry that reads column `index` as a truth value.
pub open spec fn boolean(index: u32) -> Column {
    Column { index, kind: ColumnKind::Bool }
}

/// The plan entry that reads column `index` as a text.
pub open spec fn text(index: u32) -> Column {
    Column { index, kind: ColumnKind::Text }
}

/// What one plan entry reads from a row.
pub open spec fn cell_at(row: RowView, column: Column) -> Result<Cell, Failure> {
    let index = column.index as int;
    match column.kind {
        ColumnKind::Number => match number_column(row, index) {
            Ok(n) => Ok(Cell::Number(n)),
            Err(e) => Err(e),
        },
        ColumnKind::Signed => match signed_column(row, index) {
            Ok(n) => Ok(Cell::Signed(n)),
            Err(e) => Err(e),
        },
        ColumnKind::Float => match number_column(row, index) {
            Ok(bits) => Ok(Cell::Float(bits)),
            Err(e) => Err(e),
        },
        ColumnKind::Bool => match bool_column(row, index) {
            Ok(b) => Ok(Cell::Bool(b)),
            Err(e) => Err(e),
        },
        ColumnKind::Text => match string_column(row, index) {
            Ok(s) => Ok(Cell::Text(s)),
            Err(e) => Err(e),
        },
    }
}

/// The way of reading that gives a cell of this form.
pub open spec fn kind_of(cell: Cell) -> ColumnKind {
    match cell {
        Cell::Number(_) => ColumnKind::Number,
        Cell::Signed(_) => ColumnKind::Signed,
        Cell::Float(_) => ColumnKind::Float,
        Cell::Bool(_) => ColumnKind::Bool,
        Cell::Text(_) => ColumnKind::Text,
    }
}

/// What every entry of a plan reads from a row, in the plan's order.
pub open spec fn cell_results(row: RowView, plan: Seq<Column>) -> Seq<Result<Cell, Failure>> {
    Seq::new(plan.len(), |k: int| cell_at(row, plan[k]))
}

/// What a whole plan reads from a row: a cell for every entry, in the
/// plan's order, or the failure of the first entry that cannot be read.
/// There is no result with some of the cells.
pub open spec fn cells_of(row: RowView, plan: Seq<Column>) -> Result<Seq<Cell>, Failure> {
    collect(cell_results(row, plan))
}

/// A number that a column can be read as.
pub trait DbcNumber: Sized {
    /// The number that the four bytes of a column spell.
    spec fn of_word(word: Seq<u8>) -> Self;

    fn from_word(word: [u8; 4]) -> (r: Self)
        ensures
            r == Self::of_word(word@),
    ;
}

impl DbcNumber for u32 {
    open spec fn of_word(word: Seq<u8>) -> u32 {
        le_u32(word)
    }

    fn from_word(word: [u8; 4]) -> (r: u32) {
        u32_from_le(word)
    }
}

impl DbcNumber for i32 {
    open spec fn of_word(word: Seq<u8>) -> i32 {
        le_i32(word)
    }

    fn from_word(word: [u8; 4]) -> (r: i32) {
        i32_from_le(word)
    }
}

/// A table in memory. It owns the buffer that it was read from; its rows
/// are windows into that buffer.
pub struct DbcFile {
    header: DbcHeader,
    buffer: Vec<u8>,
}

impl View for DbcFile {
    type V = TableView;

    closed spec fn view(&self) -> TableView {
        table_of(self.buffer@)->Ok_0
    }
}

/// One row of a table: a window on its record and on the string pool.
pub struct DbcFileIteratorRow<'a> {
    record: &'a [u8],
    strings: &'a [u8],
}

impl<'a> View for DbcFileIteratorRow<'a> {
    type V = RowView;

    closed spec fn view(&self) -> RowView {
        RowView { record: self.record@, strings: self.strings@ }
    }
}

/// The record array never leaves the range of a 64-bit number.
pub proof fn lemma_records_size_bound(header: DbcHeader)
    ensures
        0 <= records_size(header) <= 0xffff_ffff * 0xffff_ffff,
        extent(header) <= u64::MAX,
{
    assert(0 <= header.record_count as int * header.record_size as int <= 0xffff_ffff
        * 0xffff_ffff) by (nonlinear_arith)
        requires
            0 <= header.record_count as int <= 0xffff_ffff,
            0 <= header.record_size as int <= 0xffff_ffff,
    ;
}

/// A row lies inside the record array.
pub proof fn lemma_row_inside(header: DbcHeader, index: int)
    requires
        0 <= index < header.record_count,
    ensures
        0 <= index * header.record_size as int,
        index * header.record_size as int + header.record_size as int <= records_size(header),
{
    assert(0 <= index * header.record_size as int && (index + 1) * header.record_size as int
        <= header.record_count as int * header.record_size as int) by (nonlinear_arith)
        requires
            0 <= index < header.record_count as int,
            0 <= header.record_size as int,
    ;
    assert((index + 1) * header.record_size as int == index * header.record_size as int
        + header.record_size as int) by (nonlinear_arith);
}

impl DbcFile {
    #[verifier::type_invariant]
    spec fn inv(self) -> bool {
        &&& table_of(self.buffer@) is Ok
        &&& self.header == header_of(self.buffer@)
    }

    /// Reads the header of a buffer and takes the buffer as a table.
    pub fn parse(buffer: Vec<u8>) -> (r: R<DbcFile>)
        ensures
            viewed(r) == table_of(buffer@),
    {
        let len = buffer.len();
        if len < DBC_HEADER_SIZE {
            return Err(
                DecodeError::Truncated {
                    offset: 0,
                    needed: DBC_HEADER_SIZE as u64,
                    len: len as u64,
                },
            );
        }
        let signature = buffer.get_u32(0)?;
        let record_count = buffer.get_u32(4)?;
        let field_count = buffer.get_u32(8)?;
        let record_size = buffer.get_u32(12)?;
        let string_pool_size = buffer.get_u32(16)?;
        let header = DbcHeader {
            signature,
            record_count,
            field_count,
            record_size,
            string_pool_size,
        };
        proof {
            lemma_records_size_bound(header);
        }
        let needed: u64 = DBC_HEADER_SIZE as u64 + (record_count as u64) * (record_size as u64)
            + string_pool_size as u64;
        if (len as u64) < needed {
            return Err(DecodeError::Truncated { offset: 0, needed, len: len as u64 });
        }
        Ok(DbcFile { header, buffer })
    }

    /// The header.
    pub fn header(&self) -> (h: DbcHeader)
        ensures
            h == self@.header,
    {
        proof {
            use_type_invariant(self);
        }
        self.header
    }

    /// The number of rows.
    pub fn row_count(&self) -> (n: u32)
        ensures
            n == self@.header.record_count,
    {
        proof {
            use_type_invariant(self);
        }
        self.header.record_count
    }

    /// The row at `index`, counted from 0. Rows are computed from the
    /// header alone, so they can be asked for in any order and again.
    pub fn get_row(&self, index: u32) -> (r: R<DbcFileIteratorRow<'_>>)
        ensures
            viewed(r) == self@.row_at(index as int),
    {
        proof {
            use_type_invariant(self);
            lemma_records_size_bound(self.header);
        }
        let count = self.header.record_count;
        let size = self.header.record_size;
        if index >= count {
            assert(index as int * size as int <= 0xffff_ffff * 0xffff_ffff) by (nonlinear_arith)
                requires
                    0 <= index as int <= 0xffff_ffff,
                    0 <= size as int <= 0xffff_ffff,
            ;
            return Err(
                DecodeError::OutOfRange {
                    offset: (index as u64) * (size as u64),
                    width: size as u64,
                    len: (count as u64) * (size as u64),
                },
            );
        }
        let len = self.buffer.len();
        proof {
            lemma_row_inside(self.header, index as int);
            assert(extent(self.header) <= len);
        }
        let all_records: u64 = (count as u64) * (size as u64);
        let before: u64 = (index as u64) * (size as u64);
        assert(before + size <= all_records);
        let records_end: usize = DBC_HEADER_SIZE + all_records as usize;
        let start: usize = DBC_HEADER_SIZE + before as usize;
        let buffer = self.buffer.as_slice();
        let record = slice_subrange(buffer, start, start + size as usize);
        let strings = slice_subrange(
            buffer,
            records_end,
            records_end + self.header.string_pool_size as usize,
        );
        proof {
            let t = self@;
            assert(record@ =~= t.row(index as int).record);
            assert(strings@ =~= t.strings);
        }
        Ok(DbcFileIteratorRow { record, strings })
    }
}

impl<'a> DbcFileIteratorRow<'a> {
    /// The four bytes of the column at `index`.
    fn get_column(&self, index: u32) -> (r: R<[u8; 4]>)
        ensures
            viewed(r) == column_at(self@, index as int),
    {
        let offset: u64 = 4 * (index as u64);
        let len = self.record.len();
        if offset + 4 > len as u64 {
            return Err(DecodeError::OutOfRange { offset, width: 4, len: len as u64 });
        }
        self.record.get_four_bytes(offset as usize)
    }

    /// The column at `index` as a number of the type that the caller asks
    /// for, unsigned or signed.
    pub fn get_number_column<T: DbcNumber>(&self, index: u32) -> (r: R<T>)
        ensures
            plain(r) == match column_at(self@, index as int) {
                Ok(word) => Ok::<T, Failure>(T::of_word(word)),
                Err(e) => Err(e),
            },
    {
        let word = self.get_column(index)?;
        Ok(T::from_word(word))
    }

    /// The column at `index` as an IEEE-754 single-precision number, given
    /// as its bit pattern; `f32::from_bits` of it is the number.
    pub fn get_float_column(&self, index: u32) -> (r: R<u32>)
        ensures
            plain(r) == number_column(self@, index as int),
    {
        self.get_number_column::<u32>(index)
    }

    /// The column at `index` as a truth value.
    pub fn get_bool_column(&self, index: u32) -> (r: R<bool>)
        ensures
            plain(r) == bool_column(self@, index as int),
    {
        let n = self.get_number_column::<u32>(index)?;
        Ok(n != 0)
    }

    /// The column at `index` as a text of the string pool.
    pub fn get_string_column(&self, index: u32) -> (r: R<String>)
        ensures
            viewed(r) == string_column(self@, index as int),
    {
        let offset = self.get_number_column::<u32>(index)?;
        self.strings.get_string_null_terminated(offset as usize)
    }

    /// Reads what one plan entry asks for.
    pub fn get_cell(&self, column: Column) -> (r: R<CellValue>)
        ensures
            viewed(r) == cell_at(self@, column),
    {
        match column.kind {
            ColumnKind::Number => Ok(CellValue::Number(self.get_number_column::<u32>(column.index)?)),
            ColumnKind::Signed => Ok(CellValue::Signed(self.get_number_column::<i32>(column.index)?)),
            ColumnKind::Float => Ok(CellValue::Float(self.get_float_column(column.index)?)),
            ColumnKind::Bool => Ok(CellValue::Bool(self.get_bool_column(column.index)?)),
            ColumnKind::Text => Ok(CellValue::Text(self.get_string_column(column.index)?)),
        }
    }

    /// Reads every entry of a plan, in order. The first entry that fails
    /// fails the row, and nothing of the row is returned.
    pub fn extract(&self, plan: &Vec<Column>) -> (r: R<Vec<CellValue>>)
        ensures
            deep(r) == cells_of(self@, plan@),
            r matches Ok(cells) ==> cells.len() == plan.len() && forall|k: int|
                0 <= k < plan.len() ==> kind_of((#[trigger] cells[k])@) == plan[k].kind,
    {
        let ghost items = cell_results(self@, plan@);
        let mut cells: Vec<CellValue> = Vec::new();
        let mut k: usize = 0;
        while k < plan.len()
            invariant
                k <= plan.len(),
                cells.len() == k,
                items == cell_results(self@, plan@),
                forall|j: int| 0 <= j < k ==> (#[trigger] items[j]) == Ok::<Cell, Failure>(cells[j]@),
            decreases plan.len() - k,
        {
            match self.get_cell(plan[k]) {
                Ok(cell) => {
                    cells.push(cell);
                },
                Err(e) => {
                    proof {
                        lemma_collect_fails_at(items, k as int);
                    }
                    return Err(e);
                },
            }
            k = k + 1;
        }
        proof {
            assert(cells.deep_view() =~= collect(items)->Ok_0);
            assert forall|k: int| 0 <= k < plan.len() implies kind_of((#[trigger] cells[k])@)
                == plan[k].kind by {
                assert(items[k] == Ok::<Cell, Failure>(cells[k]@));
            }
        }
        Ok(cells)
    }
}

impl CellValue {
    /// The number of an unsigned cell.
    pub fn number(&self) -> (n: u32)
        requires
            self@ is Number,
        ensures
            self@ == Cell::Number(n),
    {
        match *self {
            CellValue::Number(n) => n,
            _ => 0,
        }
    }

    /// The number of a signed cell.
    pub fn signed(&self) -> (n: i32)
        requires
            self@ is Signed,
        ensures
            self@ == Cell::Signed(n),
    {
        match *self {
            CellValue::Signed(n) => n,
            _ => 0,
        }
    }

    /// The bit pattern of a single-precision cell.
    pub fn float_bits(&self) -> (bits: u32)
        requires
            self@ is Float,
        ensures
            self@ == Cell::Float(bits),
    {
        match *self {
            CellValue::Float(bits) => bits,
            _ => 0,
        }
    }

    /// The truth value of a cell.
    pub fn boolean(&self) -> (b: bool)
        requires
            self@ is Bool,
        ensures
            self@ == Cell::Bool(b),
    {
        match *self {
            CellValue::Bool(b) => b,
            _ => false,
        }
    }

    /// The text of a cell.
    pub fn text(&self) -> (s: String)
        requires
            self@ is Text,
        ensures
            self@ == Cell::Text(s@),
    {
        match self {
            CellValue::Text(s) => s.clone(),
            _ => String::new(),
        }
    }
}

} // verus!
