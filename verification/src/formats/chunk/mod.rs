//! The chunk container: a byte buffer made of tagged, length-prefixed
//! sections that follow one another without gaps.

pub mod laws;
pub mod types;

use crate::byte_utils::{fits, le_u32, packed_strings_from, same_text, text_of, VecUtils};
use crate::common::{collect, deep, lemma_collect_fails_at, viewed, DecodeError, Failure, R};
use crate::formats::chunk::types::{
    mcin_of, mddf_of, mhdr_of, mohd_of, mver_of, offsets_of, tile_of, ChunkMcin, ChunkMcnk,
    ChunkMddf, ChunkMhdr, ChunkMmdx, ChunkMmid, ChunkModn, ChunkMogn, ChunkMohd, ChunkMotx,
    ChunkMtex, ChunkMver, ChunkMwid, ChunkMwmo, McnkTile, NameList, OffsetList,
};
use vstd::prelude::*;
use vstd::slice::{slice_subrange, slice_to_vec};

verus! {

/// The bytes that a chunk's tag and length take before its payload.
pub const CHUNK_HEADER_SIZE: usize = 8;

/// One section of a container. `id` is the tag in its canonical spelling,
/// that is with the characters in the reverse of their order in the file.
#[derive(Debug)]
pub struct Chunk {
    pub id: String,
    pub size: u32,
    pub data: Vec<u8>,
}

/// The mathematical content of a [`Chunk`]: its canonical tag, its length
/// field and its payload.
pub struct ChunkView {
    pub id: Seq<char>,
    pub size: u32,
    pub data: Seq<u8>,
}

impl View for Chunk {
    type V = ChunkView;

    open spec fn view(&self) -> ChunkView {
        ChunkView { id: self.id@, size: self.size, data: self.data@ }
    }
}

impl DeepView for Chunk {
    type V = ChunkView;

    open spec fn deep_view(&self) -> ChunkView {
        self@
    }
}

/// What is reported when `needed` bytes are missing at `offset`.
pub open spec fn truncated(bytes: Seq<u8>, offset: int, needed: int) -> Failure {
    Failure::Truncated { offset, needed, len: bytes.len() as int }
}

/// The chunk whose header starts at `pos`: four bytes of tag, decoded and
/// then reversed, four bytes of little-endian length, and that many bytes
/// of payload.
pub open spec fn chunk_at(bytes: Seq<u8>, pos: int) -> Result<ChunkView, Failure> {
    if !fits(bytes, pos, 4) {
        Err(truncated(bytes, pos, 4))
    } else {
        match text_of(bytes.subrange(pos, pos + 4), pos) {
            Err(e) => Err(e),
            Ok(tag) => if !fits(bytes, pos + 4, 4) {
                Err(truncated(bytes, pos + 4, 4))
            } else {
                let size = le_u32(bytes.subrange(pos + 4, pos + 8));
                if !fits(bytes, pos + 8, size as int) {
                    Err(truncated(bytes, pos + 8, size as int))
                } else {
                    Ok(
                        ChunkView {
                            id: tag.reverse(),
                            size,
                            data: bytes.subrange(pos + 8, pos + 8 + size),
                        },
                    )
                }
            },
        }
    }
}

/// The chunks that lie back to back from `pos` to the end of the buffer.
/// The first chunk that cannot be read fails the whole.
pub open spec fn chunks_from(bytes: Seq<u8>, pos: int) -> Result<Seq<ChunkView>, Failure>
    decreases bytes.len() - pos,
{
    if pos < 0 || pos >= bytes.len() {
        Ok(Seq::empty())
    } else {
        match chunk_at(bytes, pos) {
            Err(e) => Err(e),
            Ok(c) => match chunks_from(bytes, pos + 8 + c.data.len()) {
                Err(e) => Err(e),
                Ok(rest) => Ok(seq![c] + rest),
            },
        }
    }
}

/// The chunks of a whole container.
pub open spec fn container(bytes: Seq<u8>) -> Result<Seq<ChunkView>, Failure> {
    chunks_from(bytes, 0)
}

impl Chunk {
    /// The length field agrees with the payload.
    pub open spec fn wf(&self) -> bool {
        self.size as int == self.data@.len()
    }

    /// The canonical tag.
    pub fn get_id_as_string(&self) -> (r: String)
        ensures
            r@ == self.id@,
    {
        self.id.clone()
    }

    /// Splits a buffer into its chunks.
    pub fn parse(buffer: &Vec<u8>) -> (r: R<Vec<Chunk>>)
        ensures
            deep(r) == container(buffer@),
            r matches Ok(chunks) ==> forall|i: int| 0 <= i < chunks.len() ==> chunks[i].wf(),
    {
        let len = buffer.len();
        let mut chunks: Vec<Chunk> = Vec::new();
        let mut pos: usize = 0;
        while pos < len
            invariant
                len == buffer.len(),
                pos <= len,
                container(buffer@) == match chunks_from(buffer@, pos as int) {
                    Ok(rest) => Ok(chunks.deep_view() + rest),
                    Err(e) => Err(e),
                },
                forall|i: int| 0 <= i < chunks.len() ==> chunks[i].wf(),
            decreases len - pos,
        {
            if len - pos < 4 {
                return Err(
                    DecodeError::Truncated { offset: pos as u64, needed: 4, len: len as u64 },
                );
            }
            let id = match buffer.get_reversed_string(pos, 4) {
                Ok(s) => s,
                Err(e) => {
                    return Err(e);
                },
            };
            if len - pos < 8 {
                return Err(
                    DecodeError::Truncated {
                        offset: (pos + 4) as u64,
                        needed: 4,
                        len: len as u64,
                    },
                );
            }
            let size = match buffer.get_u32(pos + 4) {
                Ok(n) => n,
                Err(e) => {
                    return Err(e);
                },
            };
            if size as usize > len - pos - 8 {
                return Err(
                    DecodeError::Truncated {
                        offset: (pos + 8) as u64,
                        needed: size as u64,
                        len: len as u64,
                    },
                );
            }
            let end = pos + 8 + size as usize;
            let data = slice_to_vec(slice_subrange(buffer.as_slice(), pos + 8, end));
            let ghost before = chunks.deep_view();
            let chunk = Chunk { id, size, data };
            proof {
                let rest = chunks_from(buffer@, end as int);
                assert(chunk_at(buffer@, pos as int) == Ok::<ChunkView, Failure>(chunk@));
                if rest is Ok {
                    assert(before + (seq![chunk@] + rest->Ok_0) =~= before.push(chunk@)
                        + rest->Ok_0);
                }
            }
            chunks.push(chunk);
            assert(chunks.deep_view() =~= before.push(chunk@));
            pos = end;
        }
        proof {
            assert(chunks.deep_view() + Seq::<ChunkView>::empty() =~= chunks.deep_view());
        }
        Ok(chunks)
    }
}

/// Some chunk carries the tag.
pub open spec fn has_tag(chunks: Seq<ChunkView>, tag: Seq<char>) -> bool {
    exists|i: int| 0 <= i < chunks.len() && (#[trigger] chunks[i]).id == tag
}

/// The set of the tags that the chunks carry.
pub open spec fn tags_present(chunks: Seq<ChunkView>) -> Set<Seq<char>> {
    Set::new(|tag: Seq<char>| has_tag(chunks, tag))
}

/// The tags that the chunks carry, each once, in the order in which they
/// first occur.
pub open spec fn distinct_tags(chunks: Seq<ChunkView>) -> Seq<Seq<char>>
    decreases chunks.len(),
{
    if chunks.len() == 0 {
        Seq::empty()
    } else {
        let before = distinct_tags(chunks.drop_last());
        if before.contains(chunks.last().id) {
            before
        } else {
            before.push(chunks.last().id)
        }
    }
}

/// Chunk `i` is the first that carries the tag.
pub open spec fn first_with_tag(chunks: Seq<ChunkView>, tag: Seq<char>, i: int) -> bool {
    &&& 0 <= i < chunks.len()
    &&& chunks[i].id == tag
    &&& forall|j: int| 0 <= j < i ==> (#[trigger] chunks[j]).id != tag
}

/// The first chunk that carries the tag, which the schema requires.
pub open spec fn required_chunk(chunks: Seq<ChunkView>, tag: Seq<char>) -> Result<
    ChunkView,
    Failure,
> {
    if has_tag(chunks, tag) {
        Ok(chunks[choose|i: int| first_with_tag(chunks, tag, i)])
    } else {
        Err(Failure::MissingChunk { tag })
    }
}

/// The chunks that carry the tag, in their order in the container.
pub open spec fn chunks_with_tag(chunks: Seq<ChunkView>, tag: Seq<char>) -> Seq<ChunkView> {
    chunks.filter(|c: ChunkView| c.id == tag)
}

/// What a schema's decode function makes of the first chunk with the tag.
/// The chunk's absence is a failure, and so is a payload that the function
/// cannot decode.
pub open spec fn decoded_chunk<T>(
    chunks: Seq<ChunkView>,
    tag: Seq<char>,
    decode: spec_fn(Seq<u8>) -> Result<T, Failure>,
) -> Result<T, Failure> {
    match required_chunk(chunks, tag) {
        Ok(c) => decode(c.data),
        Err(e) => Err(e),
    }
}

/// The names in the first chunk with the tag.
pub open spec fn names_in(chunks: Seq<ChunkView>, tag: Seq<char>) -> Result<
    Seq<Seq<char>>,
    Failure,
> {
    decoded_chunk(chunks, tag, |d: Seq<u8>| packed_strings_from(d, 0))
}

/// The offsets in the first chunk with the tag.
pub open spec fn offsets_in(chunks: Seq<ChunkView>, tag: Seq<char>) -> Result<Seq<u32>, Failure> {
    decoded_chunk(chunks, tag, |d: Seq<u8>| offsets_of(d))
}

/// The sub-tile heads of all the chunks with the sub-tile tag, in order.
/// The first payload that cannot be decoded fails the whole.
pub open spec fn tiles_of(chunks: Seq<ChunkView>) -> Result<Seq<McnkTile>, Failure> {
    collect(chunks_with_tag(chunks, "MCNK"@).map_values(|c: ChunkView| tile_of(c.data)))
}

/// The queries on the chunks of a container.
pub trait ChunkVecUtils {
    /// The chunks that are asked, as they are held.
    spec fn items(&self) -> Seq<Chunk>;

    /// The chunks that are asked, each by its tag and payload.
    spec fn chunks(&self) -> Seq<ChunkView>;

    /// The first chunk with the tag; its absence is a failure. The chunk
    /// that is returned is the one held, length field and all.
    fn get_chunk(&self, tag: &str) -> (r: R<&Chunk>)
        ensures
            viewed(r) == required_chunk(self.chunks(), tag@),
            r matches Ok(found) ==> exists|i: int|
                #![trigger self.items()[i]]
                first_with_tag(self.chunks(), tag@, i) && *found == self.items()[i],
    ;

    /// Every chunk with the tag, in order; there may be none. Each chunk
    /// that is returned is one of those held, length field and all.
    fn get_chunks(&self, tag: &str) -> (r: Vec<&Chunk>)
        ensures
            r.deep_view() == chunks_with_tag(self.chunks(), tag@),
            forall|j: int| 0 <= j < r.len() ==> self.items().contains(*(#[trigger] r[j])),
    ;

    /// The tags present, each once, in the order in which they first occur.
    fn get_tags(&self) -> (r: Vec<String>)
        ensures
            r.deep_view() == distinct_tags(self.chunks()),
            r.deep_view().no_duplicates(),
            r.deep_view().to_set() == tags_present(self.chunks()),
    ;

    /// The version marker.
    fn get_mver_chunk(&self) -> (r: R<ChunkMver>)
        ensures
            viewed(r) == decoded_chunk(self.chunks(), "MVER"@, |d: Seq<u8>| mver_of(d)),
    ;

    /// The header of a terrain tile.
    fn get_mhdr(&self) -> (r: R<ChunkMhdr>)
        ensures
            viewed(r) == decoded_chunk(self.chunks(), "MHDR"@, |d: Seq<u8>| mhdr_of(d)),
    ;

    /// The index of a terrain tile's sub-tiles.
    fn get_mcin(&self) -> (r: R<Vec<ChunkMcin>>)
        ensures
            viewed(r) == decoded_chunk(self.chunks(), "MCIN"@, |d: Seq<u8>| mcin_of(d)),
    ;

    /// The texture names of a terrain tile.
    fn get_mtex(&self) -> (r: R<ChunkMtex>)
        ensures
            viewed(r) == names_in(self.chunks(), "MTEX"@),
    ;

    /// The model file names of a terrain tile.
    fn get_mmdx(&self) -> (r: R<ChunkMmdx>)
        ensures
            viewed(r) == names_in(self.chunks(), "MMDX"@),
    ;

    /// The offsets of the model file names.
    fn get_mmid(&self) -> (r: R<ChunkMmid>)
        ensures
            viewed(r) == offsets_in(self.chunks(), "MMID"@),
    ;

    /// The world-model file names of a terrain tile.
    fn get_mwmo(&self) -> (r: R<ChunkMwmo>)
        ensures
            viewed(r) == names_in(self.chunks(), "MWMO"@),
    ;

    /// The offsets of the world-model file names.
    fn get_mwid(&self) -> (r: R<ChunkMwid>)
        ensures
            viewed(r) == offsets_in(self.chunks(), "MWID"@),
    ;

    /// The doodad placements of a terrain tile.
    fn get_mddf(&self) -> (r: R<ChunkMddf>)
        ensures
            viewed(r) == decoded_chunk(self.chunks(), "MDDF"@, |d: Seq<u8>| mddf_of(d)),
    ;

    /// The sub-tiles of a terrain tile. A tile without sub-tile chunks has
    /// none.
    fn get_mcnk(&self) -> (r: R<ChunkMcnk>)
        ensures
            viewed(r) == tiles_of(self.chunks()),
    ;

    /// The texture names of a world model.
    fn get_motx(&self) -> (r: R<ChunkMotx>)
        ensures
            viewed(r) == names_in(self.chunks(), "MOTX"@),
    ;

    /// The header of a world model's root file.
    fn get_mohd(&self) -> (r: R<ChunkMohd>)
        ensures
            viewed(r) == decoded_chunk(self.chunks(), "MOHD"@, |d: Seq<u8>| mohd_of(d)),
    ;

    /// The group names of a world model.
    fn get_mogn(&self) -> (r: R<ChunkMogn>)
        ensures
            viewed(r) == names_in(self.chunks(), "MOGN"@),
    ;

    /// The doodad names of a world model.
    fn get_modn(&self) -> (r: R<ChunkModn>)
        ensures
            viewed(r) == names_in(self.chunks(), "MODN"@),
    ;
}

/// Whether `texts` holds `wanted`.
pub fn contains_text(texts: &Vec<String>, wanted: &str) -> (r: bool)
    ensures
        r == texts.deep_view().contains(wanted@),
{
    let mut i: usize = 0;
    while i < texts.len()
        invariant
            i <= texts.len(),
            forall|j: int| 0 <= j < i ==> texts.deep_view()[j] != wanted@,
        decreases texts.len() - i,
    {
        if same_text(texts[i].as_str(), wanted) {
            assert(texts.deep_view()[i as int] == wanted@);
            return true;
        }
        i = i + 1;
    }
    false
}

impl ChunkVecUtils for Vec<Chunk> {
    open spec fn items(&self) -> Seq<Chunk> {
        self@
    }

    open spec fn chunks(&self) -> Seq<ChunkView> {
        self.deep_view()
    }

    fn get_chunk(&self, tag: &str) -> (r: R<&Chunk>) {
        let mut i: usize = 0;
        while i < self.len()
            invariant
                i <= self.len(),
                forall|j: int| 0 <= j < i ==> (#[trigger] self.deep_view()[j]).id != tag@,
            decreases self.len() - i,
        {
            if same_text(self[i].id.as_str(), tag) {
                proof {
                    let chunks = self.deep_view();
                    assert(first_with_tag(chunks, tag@, i as int));
                    let chosen = choose|k: int| first_with_tag(chunks, tag@, k);
                    assert(chosen == i);
                    assert(first_with_tag(self.chunks(), tag@, i as int) && self.items()[i as int]
                        == self[i as int]);
                }
                return Ok(&self[i]);
            }
            i = i + 1;
        }
        Err(DecodeError::MissingChunk { tag: tag.to_owned() })
    }

    fn get_chunks(&self, tag: &str) -> (r: Vec<&Chunk>) {
        let ghost wanted = |c: ChunkView| c.id == tag@;
        let mut out: Vec<&Chunk> = Vec::new();
        let mut i: usize = 0;
        while i < self.len()
            invariant
                i <= self.len(),
                wanted == |c: ChunkView| c.id == tag@,
                out.deep_view() == self.deep_view().take(i as int).filter(wanted),
                forall|j: int| 0 <= j < out.len() ==> self@.contains(*(#[trigger] out[j])),
            decreases self.len() - i,
        {
            let ghost before = out.deep_view();
            let ghost seen = self.deep_view().take(i as int);
            if same_text(self[i].id.as_str(), tag) {
                out.push(&self[i]);
                assert(out.deep_view() =~= before.push(self[i as int]@));
                assert(self@.contains(self@[i as int]));
            }
            proof {
                assert(self.deep_view().take(i + 1) =~= seen.push(self[i as int]@));
                seen.lemma_filter_push(self[i as int]@, wanted);
            }
            i = i + 1;
        }
        proof {
            assert(self.deep_view().take(self.len() as int) =~= self.deep_view());
        }
        out
    }

    fn get_tags(&self) -> (r: Vec<String>) {
        let mut out: Vec<String> = Vec::new();
        let mut i: usize = 0;
        while i < self.len()
            invariant
                i <= self.len(),
                out.deep_view() == distinct_tags(self.deep_view().take(i as int)),
                out.deep_view().no_duplicates(),
                forall|t: Seq<char>|
                    out.deep_view().contains(t) <==> has_tag(self.deep_view().take(i as int), t),
            decreases self.len() - i,
        {
            let ghost before = out.deep_view();
            let ghost seen = self.deep_view().take(i as int);
            let ghost next = self.deep_view().take(i + 1);
            let ghost id = self[i as int].id@;
            if !contains_text(&out, self[i].id.as_str()) {
                out.push(self[i].id.clone());
                assert(out.deep_view() =~= before.push(id));
            }
            proof {
                assert(next =~= seen.push(self[i as int]@));
                assert(next.drop_last() =~= seen);
                assert(out.deep_view() == distinct_tags(next));
                assert forall|t: Seq<char>| out.deep_view().contains(t) <==> has_tag(
                    next,
                    t,
                ) by {
                    if has_tag(next, t) {
                        let k = choose|k: int| 0 <= k < next.len() && (#[trigger] next[k]).id == t;
                        if k < i {
                            assert(seen[k].id == t);
                            assert(has_tag(seen, t));
                            assert(before.contains(t));
                            let w = choose|w: int| 0 <= w < before.len() && before[w] == t;
                            assert(out.deep_view()[w] == t);
                        } else {
                            assert(t == id);
                            if before.contains(id) {
                                let w = choose|w: int| 0 <= w < before.len() && before[w] == id;
                                assert(out.deep_view()[w] == t);
                            } else {
                                assert(out.deep_view()[before.len() as int] == t);
                            }
                        }
                    }
                    if out.deep_view().contains(t) {
                        let w = choose|w: int|
                            0 <= w < out.deep_view().len() && out.deep_view()[w] == t;
                        if w < before.len() {
                            assert(before[w] == t);
                            assert(before.contains(t));
                            let k = choose|k: int|
                                0 <= k < seen.len() && (#[trigger] seen[k]).id == t;
                            assert(next[k].id == t);
                        } else {
                            assert(t == id);
                            assert(next[i as int].id == t);
                        }
                    }
                }
            }
            i = i + 1;
        }
        proof {
            assert(self.deep_view().take(self.len() as int) =~= self.deep_view());
            assert(out.deep_view().to_set() =~= tags_present(self.deep_view()));
        }
        out
    }

    fn get_mver_chunk(&self) -> (r: R<ChunkMver>) {
        let chunk = self.get_chunk("MVER")?;
        ChunkMver::decode(&chunk.data)
    }

    fn get_mhdr(&self) -> (r: R<ChunkMhdr>) {
        let chunk = self.get_chunk("MHDR")?;
        ChunkMhdr::decode(&chunk.data)
    }

    fn get_mcin(&self) -> (r: R<Vec<ChunkMcin>>) {
        let chunk = self.get_chunk("MCIN")?;
        ChunkMcin::decode(&chunk.data)
    }

    fn get_mtex(&self) -> (r: R<ChunkMtex>) {
        let chunk = self.get_chunk("MTEX")?;
        NameList::decode(&chunk.data)
    }

    fn get_mmdx(&self) -> (r: R<ChunkMmdx>) {
        let chunk = self.get_chunk("MMDX")?;
        NameList::decode(&chunk.data)
    }

    fn get_mmid(&self) -> (r: R<ChunkMmid>) {
        let chunk = self.get_chunk("MMID")?;
        OffsetList::decode(&chunk.data)
    }

    fn get_mwmo(&self) -> (r: R<ChunkMwmo>) {
        let chunk = self.get_chunk("MWMO")?;
        NameList::decode(&chunk.data)
    }

    fn get_mwid(&self) -> (r: R<ChunkMwid>) {
        let chunk = self.get_chunk("MWID")?;
        OffsetList::decode(&chunk.data)
    }

    fn get_mddf(&self) -> (r: R<ChunkMddf>) {
        let chunk = self.get_chunk("MDDF")?;
        ChunkMddf::decode(&chunk.data)
    }

    fn get_mcnk(&self) -> (r: R<ChunkMcnk>) {
        let found = self.get_chunks("MCNK");
        let ghost items = chunks_with_tag(self.deep_view(), "MCNK"@).map_values(
            |c: ChunkView| tile_of(c.data),
        );
        let mut tiles: Vec<McnkTile> = Vec::new();
        let mut i: usize = 0;
        while i < found.len()
            invariant
                i <= found.len(),
                tiles.len() == i,
                found.deep_view() == chunks_with_tag(self.deep_view(), "MCNK"@),
                items == found.deep_view().map_values(|c: ChunkView| tile_of(c.data)),
                forall|j: int|
                    0 <= j < i ==> (#[trigger] items[j]) == Ok::<McnkTile, Failure>(tiles[j]),
            decreases found.len() - i,
        {
            assert(items[i as int] == tile_of(found[i as int].data@));
            match McnkTile::decode(&found[i].data) {
                Ok(tile) => {
                    tiles.push(tile);
                },
                Err(e) => {
                    proof {
                        lemma_collect_fails_at(items, i as int);
                    }
                    return Err(e);
                },
            }
            i = i + 1;
        }
        proof {
            assert(tiles@ =~= collect(items)->Ok_0);
        }
        Ok(ChunkMcnk { tiles })
    }

    fn get_motx(&self) -> (r: R<ChunkMotx>) {
        let chunk = self.get_chunk("MOTX")?;
        NameList::decode(&chunk.data)
    }

    fn get_mohd(&self) -> (r: R<ChunkMohd>) {
        let chunk = self.get_chunk("MOHD")?;
        ChunkMohd::decode(&chunk.data)
    }

    fn get_mogn(&self) -> (r: R<ChunkMogn>) {
        let chunk = self.get_chunk("MOGN")?;
        NameList::decode(&chunk.data)
    }

    fn get_modn(&self) -> (r: R<ChunkModn>) {
        let chunk = self.get_chunk("MODN")?;
        NameList::decode(&chunk.data)
    }
}

} // verus!
