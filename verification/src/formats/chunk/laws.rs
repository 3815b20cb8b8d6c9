//! What holds of every container and of every lookup in it.

use crate::common::Failure;
use crate::formats::chunk::{
    chunk_at, chunks_from, container, first_with_tag, has_tag, required_chunk, ChunkView,
};
use vstd::prelude::*;

verus! {

/// The bytes that chunks take in a container: for each, eight bytes of
/// header and its payload.
pub open spec fn total_size(chunks: Seq<ChunkView>) -> int
    decreases chunks.len(),
{
    if chunks.len() == 0 {
        0
    } else {
        8 + chunks[0].data.len() + total_size(chunks.drop_first())
    }
}

/// Where chunk `i` starts in its container: after the chunks before it.
pub open spec fn chunk_offset(chunks: Seq<ChunkView>, i: int) -> int {
    total_size(chunks.take(i))
}

proof fn lemma_total_size_from(bytes: Seq<u8>, pos: int)
    requires
        0 <= pos <= bytes.len(),
        chunks_from(bytes, pos) is Ok,
    ensures
        total_size(chunks_from(bytes, pos)->Ok_0) == bytes.len() - pos,
    decreases bytes.len() - pos,
{
    if pos < bytes.len() {
        let c = chunk_at(bytes, pos)->Ok_0;
        let next = pos + 8 + c.data.len();
        let rest = chunks_from(bytes, next)->Ok_0;
        lemma_total_size_from(bytes, next);
        assert((seq![c] + rest).drop_first() =~= rest);
    }
}

proof fn lemma_total_size_step(chunks: Seq<ChunkView>, i: int)
    requires
        0 < i <= chunks.len(),
    ensures
        total_size(chunks.take(i)) == 8 + chunks[0].data.len() + total_size(
            chunks.drop_first().take(i - 1),
        ),
{
    assert(chunks.take(i).drop_first() =~= chunks.drop_first().take(i - 1));
}

proof fn lemma_layout_from(bytes: Seq<u8>, pos: int, i: int)
    requires
        0 <= pos <= bytes.len(),
        chunks_from(bytes, pos) is Ok,
        0 <= i < chunks_from(bytes, pos)->Ok_0.len(),
    ensures
        chunk_at(bytes, pos + chunk_offset(chunks_from(bytes, pos)->Ok_0, i)) == Ok::<
            ChunkView,
            Failure,
        >(chunks_from(bytes, pos)->Ok_0[i]),
    decreases i,
{
    let chunks = chunks_from(bytes, pos)->Ok_0;
    let c = chunk_at(bytes, pos)->Ok_0;
    let next = pos + 8 + c.data.len();
    let rest = chunks_from(bytes, next)->Ok_0;
    assert(chunks =~= seq![c] + rest);
    assert(chunks.drop_first() =~= rest);
    if i == 0 {
        assert(chunks.take(0) =~= Seq::<ChunkView>::empty());
    } else {
        lemma_total_size_step(chunks, i);
        lemma_layout_from(bytes, next, i - 1);
    }
}

/// In a container that parses, the chunks account for every byte: the sum
/// over the chunks of eight plus the payload's length is the length of the
/// buffer.
pub proof fn lemma_chunks_account_for_buffer(bytes: Seq<u8>)
    requires
        container(bytes) is Ok,
    ensures
        total_size(container(bytes)->Ok_0) == bytes.len(),
{
    lemma_total_size_from(bytes, 0);
}

/// In a container that parses, every chunk stands where the chunk before
/// it ends, the first at offset 0: there are no gaps and no overlaps.
pub proof fn lemma_chunks_lie_back_to_back(bytes: Seq<u8>, i: int)
    requires
        container(bytes) is Ok,
        0 <= i < container(bytes)->Ok_0.len(),
    ensures
        chunk_at(bytes, chunk_offset(container(bytes)->Ok_0, i)) == Ok::<ChunkView, Failure>(
            container(bytes)->Ok_0[i],
        ),
{
    lemma_layout_from(bytes, 0, i);
}

/// In a container that parses, every chunk's length field is the length
/// of its payload.
pub proof fn lemma_length_field_is_payload_length(bytes: Seq<u8>, i: int)
    requires
        container(bytes) is Ok,
        0 <= i < container(bytes)->Ok_0.len(),
    ensures
        container(bytes)->Ok_0[i].size == container(bytes)->Ok_0[i].data.len(),
{
    lemma_chunks_lie_back_to_back(bytes, i);
}

proof fn lemma_first_with_tag_exists(chunks: Seq<ChunkView>, tag: Seq<char>, i: int)
    requires
        0 <= i < chunks.len(),
        chunks[i].id == tag,
    ensures
        exists|k: int| 0 <= k <= i && first_with_tag(chunks, tag, k),
    decreases i,
{
    if exists|j: int| 0 <= j < i && (#[trigger] chunks[j]).id == tag {
        let j = choose|j: int| 0 <= j < i && (#[trigger] chunks[j]).id == tag;
        lemma_first_with_tag_exists(chunks, tag, j);
    } else {
        assert(first_with_tag(chunks, tag, i));
    }
}

/// A lookup by tag returns a chunk whose tag is the one asked for, and the
/// first such chunk of the container; it fails, naming the tag, exactly
/// when no chunk carries the tag.
pub proof fn lemma_lookup_by_tag(chunks: Seq<ChunkView>, tag: Seq<char>)
    ensures
        match required_chunk(chunks, tag) {
            Ok(c) => c.id == tag && exists|i: int|
                first_with_tag(chunks, tag, i) && chunks[i] == c,
            Err(e) => e == (Failure::MissingChunk { tag }) && forall|i: int|
                0 <= i < chunks.len() ==> (#[trigger] chunks[i]).id != tag,
        },
{
    if has_tag(chunks, tag) {
        let i = choose|i: int| 0 <= i < chunks.len() && (#[trigger] chunks[i]).id == tag;
        lemma_first_with_tag_exists(chunks, tag, i);
        let k = choose|k: int| first_with_tag(chunks, tag, k);
        assert(first_with_tag(chunks, tag, k));
    }
}

proof fn lemma_cut_inside_chunk(bytes: Seq<u8>, pos: int, i: int, cut: int)
    requires
        0 <= pos <= bytes.len(),
        chunks_from(bytes, pos) is Ok,
        0 <= i < chunks_from(bytes, pos)->Ok_0.len(),
        pos + chunk_offset(chunks_from(bytes, pos)->Ok_0, i) < cut < pos + chunk_offset(
            chunks_from(bytes, pos)->Ok_0,
            i + 1,
        ),
    ensures
        chunks_from(bytes.take(cut), pos) is Err,
        chunks_from(bytes.take(cut), pos)->Err_0 is Truncated,
    decreases i,
{
    let chunks = chunks_from(bytes, pos)->Ok_0;
    let c = chunk_at(bytes, pos)->Ok_0;
    let next = pos + 8 + c.data.len();
    let rest = chunks_from(bytes, next)->Ok_0;
    let short = bytes.take(cut);
    assert(chunks =~= seq![c] + rest);
    assert(chunks.drop_first() =~= rest);
    lemma_total_size_from(bytes, pos);
    lemma_total_size_from(bytes, next);
    lemma_total_size_step(chunks, i + 1);
    assert(chunks.take(0) =~= Seq::<ChunkView>::empty());
    if i == 0 {
        assert(rest.take(0) =~= Seq::<ChunkView>::empty());
        assert(pos < cut < next);
        if cut - pos >= 4 {
            assert(short.subrange(pos, pos + 4) =~= bytes.subrange(pos, pos + 4));
        }
        if cut - pos >= 8 {
            assert(short.subrange(pos + 4, pos + 8) =~= bytes.subrange(pos + 4, pos + 8));
        }
    } else {
        lemma_total_size_step(chunks, i);
        lemma_total_size_nonnegative(rest.take(i - 1));
        lemma_total_size_prefix(chunks, i + 1);
        assert(next <= cut <= bytes.len());
        assert(short.subrange(pos, pos + 4) =~= bytes.subrange(pos, pos + 4));
        assert(short.subrange(pos + 4, pos + 8) =~= bytes.subrange(pos + 4, pos + 8));
        assert(short.subrange(pos + 8, next) =~= bytes.subrange(pos + 8, next));
        assert(chunk_at(short, pos) == Ok::<ChunkView, Failure>(c));
        lemma_cut_inside_chunk(bytes, next, i - 1, cut);
    }
}

proof fn lemma_total_size_nonnegative(chunks: Seq<ChunkView>)
    ensures
        0 <= total_size(chunks),
    decreases chunks.len(),
{
    if chunks.len() > 0 {
        lemma_total_size_nonnegative(chunks.drop_first());
    }
}

proof fn lemma_total_size_prefix(chunks: Seq<ChunkView>, i: int)
    requires
        0 <= i <= chunks.len(),
    ensures
        total_size(chunks.take(i)) <= total_size(chunks),
    decreases i,
{
    if i == 0 {
        assert(chunks.take(0) =~= Seq::<ChunkView>::empty());
        lemma_total_size_nonnegative(chunks);
    } else {
        lemma_total_size_step(chunks, i);
        lemma_total_size_prefix(chunks.drop_first(), i - 1);
    }
}

/// A container that parses, cut off inside one of its chunks, be it in the
/// chunk's header or in its payload, fails as truncated.
pub proof fn lemma_cut_container_is_truncated(bytes: Seq<u8>, i: int, cut: int)
    requires
        container(bytes) is Ok,
        0 <= i < container(bytes)->Ok_0.len(),
        chunk_offset(container(bytes)->Ok_0, i) < cut < chunk_offset(
            container(bytes)->Ok_0,
            i + 1,
        ),
    ensures
        container(bytes.take(cut)) is Err,
        container(bytes.take(cut))->Err_0 is Truncated,
{
    lemma_cut_inside_chunk(bytes, 0, i, cut);
}

} // verus!
