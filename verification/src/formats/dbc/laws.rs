//! What holds of every table and of every column read.

use crate::byte_utils::{lemma_terminator_from, terminator_from};
use crate::common::Failure;
use crate::formats::dbc::{
    extent, header_of, number_column, records_size, string_column, table_of, RowView,
    DBC_HEADER_SIZE,
};
use vstd::prelude::*;
use vstd::utf8::{decode_utf8_encode_utf8, encode_utf8};

verus! {

/// In a table that parses, the record array holds as many bytes as the
/// header's count and size of records give, the string pool holds as many
/// as the header says, and together with the header they fill the extent,
/// which the buffer holds in full.
pub proof fn lemma_table_parts_fill_extent(bytes: Seq<u8>)
    requires
        table_of(bytes) is Ok,
    ensures
        table_of(bytes)->Ok_0.header == header_of(bytes),
        table_of(bytes)->Ok_0.records.len() == header_of(bytes).record_count * header_of(
            bytes,
        ).record_size,
        table_of(bytes)->Ok_0.strings.len() == header_of(bytes).string_pool_size,
        DBC_HEADER_SIZE + table_of(bytes)->Ok_0.records.len() + table_of(bytes)->Ok_0.strings.len()
            == extent(header_of(bytes)),
        extent(header_of(bytes)) <= bytes.len(),
{
    let header = header_of(bytes);
    assert(0 <= records_size(header)) by (nonlinear_arith)
        requires
            records_size(header) == header.record_count as int * header.record_size as int,
            0 <= header.record_count as int,
            0 <= header.record_size as int,
    ;
}

/// In a table that parses and that nothing follows, the records, the
/// string pool and the header add up to the length of the buffer.
pub proof fn lemma_table_accounts_for_buffer(bytes: Seq<u8>)
    requires
        table_of(bytes) is Ok,
        bytes.len() <= extent(header_of(bytes)),
    ensures
        header_of(bytes).record_count * header_of(bytes).record_size + header_of(
            bytes,
        ).string_pool_size + DBC_HEADER_SIZE == bytes.len(),
{
}

/// A table that parses, cut off anywhere before the end of its extent, be
/// it in the header, in a row or in the string pool, fails as truncated.
pub proof fn lemma_cut_table_is_truncated(bytes: Seq<u8>, cut: int)
    requires
        table_of(bytes) is Ok,
        0 <= cut < extent(header_of(bytes)),
    ensures
        table_of(bytes.take(cut)) is Err,
        table_of(bytes.take(cut))->Err_0 is Truncated,
{
    let short = bytes.take(cut);
    if cut >= DBC_HEADER_SIZE {
        assert(short.subrange(0, 4) =~= bytes.subrange(0, 4));
        assert(short.subrange(4, 8) =~= bytes.subrange(4, 8));
        assert(short.subrange(8, 12) =~= bytes.subrange(8, 12));
        assert(short.subrange(12, 16) =~= bytes.subrange(12, 16));
        assert(short.subrange(16, 20) =~= bytes.subrange(16, 20));
        assert(header_of(short) == header_of(bytes));
    }
}

/// A text column that is read resolves to a text that lies in the string
/// pool in full: it starts at the column's offset, ends before the next
/// zero byte or at the end of the pool, holds no zero byte, and its bytes
/// are the UTF-8 encoding of the text that is returned.
pub proof fn lemma_string_column_lies_in_pool(row: RowView, index: int)
    requires
        string_column(row, index) is Ok,
    ensures
        number_column(row, index) is Ok,
        ({
            let offset = number_column(row, index)->Ok_0 as int;
            let end = terminator_from(row.strings, offset);
            &&& 0 <= offset <= end <= row.strings.len()
            &&& forall|i: int| offset <= i < end ==> row.strings[i] != 0
            &&& end < row.strings.len() ==> row.strings[end] == 0
            &&& encode_utf8(string_column(row, index)->Ok_0) == row.strings.subrange(offset, end)
        }),
{
    let offset = number_column(row, index)->Ok_0 as int;
    lemma_terminator_from(row.strings, offset);
    decode_utf8_encode_utf8(row.strings.subrange(offset, terminator_from(row.strings, offset)));
}

/// A text column whose offset lies beyond the string pool is out of range,
/// and the report holds the offset and the length of the pool.
pub proof fn lemma_string_offset_beyond_pool(row: RowView, index: int)
    requires
        number_column(row, index) is Ok,
        number_column(row, index)->Ok_0 > row.strings.len(),
    ensures
        string_column(row, index) == Err::<Seq<char>, Failure>(
            Failure::OutOfRange {
                offset: number_column(row, index)->Ok_0 as int,
                width: 0,
                len: row.strings.len() as int,
            },
        ),
{
}

} // verus!
