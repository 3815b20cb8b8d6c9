//! The typed contents of the chunks that the asset schemas decode.

use crate::byte_utils::{bytes_at, le_u32, packed_strings_from, u32_at, VecUtils};
use crate::common::{deep, plain, viewed, DecodeError, Failure, R};
use vstd::prelude::*;

verus! {

/// The `count` little-endian 32-bit words that start at `offset`.
pub open spec fn words(data: Seq<u8>, offset: int, count: int) -> Seq<u32> {
    Seq::new(
        count as nat,
        |k: int| le_u32(data.subrange(offset + 4 * k, offset + 4 * k + 4)),
    )
}

/// The `count` words at `offset`, or the window of `4 * count` bytes that
/// did not fit.
pub open spec fn words_at(data: Seq<u8>, offset: int, count: int) -> Result<Seq<u32>, Failure> {
    match bytes_at(data, offset, 4 * count) {
        Ok(_) => Ok(words(data, offset, count)),
        Err(e) => Err(e),
    }
}

/// A payload as an array of records of `width` words each. A payload that
/// ends inside a record is truncated: the report names the offset of that
/// record and the bytes of one record.
pub open spec fn records_of(data: Seq<u8>, width: int) -> Result<Seq<Seq<u32>>, Failure> {
    let size = 4 * width;
    let count = data.len() as int / size;
    if data.len() as int % size != 0 {
        Err(Failure::Truncated { offset: count * size, needed: size, len: data.len() as int })
    } else {
        Ok(Seq::new(count as nat, |i: int| words(data, i * size, width)))
    }
}

/// Reads `count` words at `offset`.
pub fn read_words(data: &[u8], offset: usize, count: usize) -> (r: R<Vec<u32>>)
    requires
        4 * count <= u64::MAX,
    ensures
        viewed(r) == words_at(data@, offset as int, count as int),
{
    let len = data.len();
    if offset > len || (len - offset) / 4 < count {
        return Err(
            DecodeError::OutOfRange {
                offset: offset as u64,
                width: 4 * (count as u64),
                len: len as u64,
            },
        );
    }
    let mut out: Vec<u32> = Vec::new();
    let mut k: usize = 0;
    while k < count
        invariant
            k <= count,
            offset + 4 * count <= len,
            len == data@.len(),
            out@ == words(data@, offset as int, k as int),
        decreases count - k,
    {
        let word = match data.get_u32(offset + 4 * k) {
            Ok(w) => w,
            Err(e) => {
                return Err(e);
            },
        };
        out.push(word);
        assert(out@ =~= words(data@, offset as int, k + 1));
        k = k + 1;
    }
    Ok(out)
}

/// Reads a payload as records of `width` words each.
pub fn read_records(data: &[u8], width: usize) -> (r: R<Vec<Vec<u32>>>)
    requires
        0 < width,
        4 * width <= usize::MAX,
    ensures
        deep(r) == records_of(data@, width as int),
        r matches Ok(records) ==> forall|i: int|
            0 <= i < records.len() ==> (#[trigger] records[i]).len() == width,
{
    let len = data.len();
    let size = 4 * width;
    let count = len / size;
    if len % size != 0 {
        assert(count * size <= len) by (nonlinear_arith)
            requires
                count == len / size,
                size > 0,
        ;
        return Err(
            DecodeError::Truncated {
                offset: (count * size) as u64,
                needed: size as u64,
                len: len as u64,
            },
        );
    }
    assert(count * size == len) by (nonlinear_arith)
        requires
            count == len / size,
            len % size == 0,
            size > 0,
    ;
    let mut out: Vec<Vec<u32>> = Vec::new();
    let mut i: usize = 0;
    while i < count
        invariant
            i <= count,
            size == 4 * width,
            0 < width,
            4 * width <= usize::MAX,
            count * size == len,
            len == data@.len(),
            out.len() == i,
            forall|j: int| 0 <= j < i ==> (#[trigger] out[j])@ == words(data@, j * size, width as int),
        decreases count - i,
    {
        assert(i * size + size <= count * size) by (nonlinear_arith)
            requires
                i < count,
                size > 0,
        ;
        let record = match read_words(data, i * size, width) {
            Ok(r) => r,
            Err(e) => {
                return Err(e);
            },
        };
        out.push(record);
        i = i + 1;
    }
    proof {
        assert(count == len as int / size as int) by (nonlinear_arith)
            requires
                count * size == len,
                size > 0,
        ;
        assert forall|i: int| 0 <= i < count implies (#[trigger] out.deep_view()[i]) == words(
            data@,
            i * size,
            width as int,
        ) by {
            assert(out[i].deep_view() =~= out[i]@);
        }
        assert(out.deep_view() =~= Seq::new(
            count as nat,
            |i: int| words(data@, i * size, width as int),
        ));
    }
    Ok(out)
}

/// The version marker of a file.
#[derive(Debug, Clone, Copy, PartialEq, Eq)]
pub struct ChunkMver {
    pub version: u32,
}

impl View for ChunkMver {
    type V = ChunkMver;

    open spec fn view(&self) -> ChunkMver {
        *self
    }
}

/// The version that a version marker's payload holds: its first word.
pub open spec fn mver_of(data: Seq<u8>) -> Result<ChunkMver, Failure> {
    match u32_at(data, 0) {
        Ok(version) => Ok(ChunkMver { version }),
        Err(e) => Err(e),
    }
}

impl ChunkMver {
    pub fn decode(data: &Vec<u8>) -> (r: R<ChunkMver>)
        ensures
            plain(r) == mver_of(data@),
    {
        let version = data.get_u32(0)?;
        Ok(ChunkMver { version })
    }
}

/// A list of names: zero-terminated texts packed one after another.
#[derive(Debug, PartialEq, Eq)]
pub struct NameList {
    pub names: Vec<String>,
}

impl View for NameList {
    type V = Seq<Seq<char>>;

    open spec fn view(&self) -> Seq<Seq<char>> {
        self.names.deep_view()
    }
}

impl NameList {
    pub fn decode(data: &Vec<u8>) -> (r: R<NameList>)
        ensures
            viewed(r) == packed_strings_from(data@, 0),
    {
        let names = data.get_null_terminated_strings()?;
        Ok(NameList { names })
    }
}

/// A list of 32-bit offsets.
#[derive(Debug, PartialEq, Eq)]
pub struct OffsetList {
    pub offsets: Vec<u32>,
}

impl View for OffsetList {
    type V = Seq<u32>;

    open spec fn view(&self) -> Seq<u32> {
        self.offsets@
    }
}

/// The offsets that a payload holds: all of its words. A payload that ends
/// inside a word is truncated.
pub open spec fn offsets_of(data: Seq<u8>) -> Result<Seq<u32>, Failure> {
    match records_of(data, 1) {
        Ok(_) => Ok(words(data, 0, data.len() as int / 4)),
        Err(e) => Err(e),
    }
}

impl OffsetList {
    pub fn decode(data: &Vec<u8>) -> (r: R<OffsetList>)
        ensures
            viewed(r) == offsets_of(data@),
    {
        let len = data.len();
        if len % 4 != 0 {
            return Err(
                DecodeError::Truncated {
                    offset: (len / 4 * 4) as u64,
                    needed: 4,
                    len: len as u64,
                },
            );
        }
        let offsets = read_words(data.as_slice(), 0, len / 4)?;
        Ok(OffsetList { offsets })
    }
}

/// The header of a terrain tile: its flags and the offsets of its other
/// chunks, the first nine words of the payload.
#[derive(Debug, Clone, Copy, PartialEq, Eq)]
pub struct ChunkMhdr {
    pub flags: u32,
    pub mcin: u32,
    pub mtex: u32,
    pub mmdx: u32,
    pub mmid: u32,
    pub mwmo: u32,
    pub mwid: u32,
    pub mddf: u32,
    pub modf: u32,
}

impl View for ChunkMhdr {
    type V = ChunkMhdr;

    open spec fn view(&self) -> ChunkMhdr {
        *self
    }
}

/// The tile header that nine words spell.
pub open spec fn mhdr_from(w: Seq<u32>) -> ChunkMhdr {
    ChunkMhdr {
        flags: w[0],
        mcin: w[1],
        mtex: w[2],
        mmdx: w[3],
        mmid: w[4],
        mwmo: w[5],
        mwid: w[6],
        mddf: w[7],
        modf: w[8],
    }
}

pub open spec fn mhdr_of(data: Seq<u8>) -> Result<ChunkMhdr, Failure> {
    match words_at(data, 0, 9) {
        Ok(w) => Ok(mhdr_from(w)),
        Err(e) => Err(e),
    }
}

impl ChunkMhdr {
    pub fn decode(data: &Vec<u8>) -> (r: R<ChunkMhdr>)
        ensures
            plain(r) == mhdr_of(data@),
    {
        let w = read_words(data.as_slice(), 0, 9)?;
        Ok(
            ChunkMhdr {
                flags: w[0],
                mcin: w[1],
                mtex: w[2],
                mmdx: w[3],
                mmid: w[4],
                mwmo: w[5],
                mwid: w[6],
                mddf: w[7],
                modf: w[8],
            },
        )
    }
}

/// One entry of a tile's index of sub-tiles: a record of four words.
#[derive(Debug, Clone, Copy, PartialEq, Eq)]
pub struct ChunkMcin {
    pub offset: u32,
    pub size: u32,
    pub flags: u32,
    pub async_id: u32,
}

/// The index entry that four words spell.
pub open spec fn mcin_from(w: Seq<u32>) -> ChunkMcin {
    ChunkMcin { offset: w[0], size: w[1], flags: w[2], async_id: w[3] }
}

/// The index entries that a payload holds, four words each.
pub open spec fn mcin_of(data: Seq<u8>) -> Result<Seq<ChunkMcin>, Failure> {
    match records_of(data, 4) {
        Ok(records) => Ok(records.map_values(|w: Seq<u32>| mcin_from(w))),
        Err(e) => Err(e),
    }
}

impl ChunkMcin {
    pub fn decode(data: &Vec<u8>) -> (r: R<Vec<ChunkMcin>>)
        ensures
            viewed(r) == mcin_of(data@),
    {
        let records = read_records(data.as_slice(), 4)?;
        let mut out: Vec<ChunkMcin> = Vec::new();
        let mut i: usize = 0;
        while i < records.len()
            invariant
                i <= records.len(),
                out.len() == i,
                forall|j: int| 0 <= j < records.len() ==> (#[trigger] records[j]).len() == 4,
                forall|j: int| 0 <= j < i ==> (#[trigger] out[j]) == mcin_from(records[j]@),
            decreases records.len() - i,
        {
            let w = &records[i];
            out.push(ChunkMcin { offset: w[0], size: w[1], flags: w[2], async_id: w[3] });
            i = i + 1;
        }
        proof {
            assert forall|j: int| 0 <= j < records.len() implies (#[trigger] records.deep_view()[j])
                == records[j]@ by {
                assert(records[j].deep_view() =~= records[j]@);
            }
            assert(out@ =~= records.deep_view().map_values(|w: Seq<u32>| mcin_from(w)));
        }
        Ok(out)
    }
}

/// Where one doodad stands: a record of nine words. The six words of the
/// position and the rotation hold the bit patterns of single-precision
/// numbers; the last word holds the scale in its low half and the flags in
/// its high half.
#[derive(Debug, Clone, Copy, PartialEq, Eq)]
pub struct DoodadPlacement {
    pub name_id: u32,
    pub unique_id: u32,
    pub position_x: u32,
    pub position_y: u32,
    pub position_z: u32,
    pub rotation_x: u32,
    pub rotation_y: u32,
    pub rotation_z: u32,
    pub scale: u16,
    pub flags: u16,
}

/// The placement that nine words spell.
pub open spec fn placement_from(w: Seq<u32>) -> DoodadPlacement {
    DoodadPlacement {
        name_id: w[0],
        unique_id: w[1],
        position_x: w[2],
        position_y: w[3],
        position_z: w[4],
        rotation_x: w[5],
        rotation_y: w[6],
        rotation_z: w[7],
        scale: (w[8] % 0x1_0000) as u16,
        flags: (w[8] / 0x1_0000) as u16,
    }
}

/// The doodad placements of a terrain tile.
#[derive(Debug, PartialEq, Eq)]
pub struct ChunkMddf {
    pub entries: Vec<DoodadPlacement>,
}

impl View for ChunkMddf {
    type V = Seq<DoodadPlacement>;

    open spec fn view(&self) -> Seq<DoodadPlacement> {
        self.entries@
    }
}

/// The placements that a payload holds, nine words each.
pub open spec fn mddf_of(data: Seq<u8>) -> Result<Seq<DoodadPlacement>, Failure> {
    match records_of(data, 9) {
        Ok(records) => Ok(records.map_values(|w: Seq<u32>| placement_from(w))),
        Err(e) => Err(e),
    }
}

impl ChunkMddf {
    pub fn decode(data: &Vec<u8>) -> (r: R<ChunkMddf>)
        ensures
            viewed(r) == mddf_of(data@),
    {
        let records = read_records(data.as_slice(), 9)?;
        let mut entries: Vec<DoodadPlacement> = Vec::new();
        let mut i: usize = 0;
        while i < records.len()
            invariant
                i <= records.len(),
                entries.len() == i,
                forall|j: int| 0 <= j < records.len() ==> (#[trigger] records[j]).len() == 9,
                forall|j: int|
                    0 <= j < i ==> (#[trigger] entries[j]) == placement_from(records[j]@),
            decreases records.len() - i,
        {
            let w = &records[i];
            entries.push(
                DoodadPlacement {
                    name_id: w[0],
                    unique_id: w[1],
                    position_x: w[2],
                    position_y: w[3],
                    position_z: w[4],
                    rotation_x: w[5],
                    rotation_y: w[6],
                    rotation_z: w[7],
                    scale: (w[8] % 0x1_0000) as u16,
                    flags: (w[8] / 0x1_0000) as u16,
                },
            );
            i = i + 1;
        }
        proof {
            assert forall|j: int| 0 <= j < records.len() implies (#[trigger] records.deep_view()[j])
                == records[j]@ by {
                assert(records[j].deep_view() =~= records[j]@);
            }
            assert(entries@ =~= records.deep_view().map_values(
                |w: Seq<u32>| placement_from(w),
            ));
        }
        Ok(ChunkMddf { entries })
    }
}

/// The head of one sub-tile: the first five words of its payload.
#[derive(Debug, Clone, Copy, PartialEq, Eq)]
pub struct McnkTile {
    pub flags: u32,
    pub index_x: u32,
    pub index_y: u32,
    pub n_layers: u32,
    pub n_doodad_refs: u32,
}

/// The sub-tile head that five words spell.
pub open spec fn tile_from(w: Seq<u32>) -> McnkTile {
    McnkTile { flags: w[0], index_x: w[1], index_y: w[2], n_layers: w[3], n_doodad_refs: w[4] }
}

pub open spec fn tile_of(data: Seq<u8>) -> Result<McnkTile, Failure> {
    match words_at(data, 0, 5) {
        Ok(w) => Ok(tile_from(w)),
        Err(e) => Err(e),
    }
}

impl McnkTile {
    pub fn decode(data: &Vec<u8>) -> (r: R<McnkTile>)
        ensures
            plain(r) == tile_of(data@),
    {
        let w = read_words(data.as_slice(), 0, 5)?;
        Ok(
            McnkTile {
                flags: w[0],
                index_x: w[1],
                index_y: w[2],
                n_layers: w[3],
                n_doodad_refs: w[4],
            },
        )
    }
}

/// The sub-tiles of a terrain tile, one for each of its sub-tile chunks,
/// in the order of the chunks.
#[derive(Debug, PartialEq, Eq)]
pub struct ChunkMcnk {
    pub tiles: Vec<McnkTile>,
}

impl View for ChunkMcnk {
    type V = Seq<McnkTile>;

    open spec fn view(&self) -> Seq<McnkTile> {
        self.tiles@
    }
}

/// The header of a world model's root file: its counts, the first seven
/// words of the payload.
#[derive(Debug, Clone, Copy, PartialEq, Eq)]
pub struct ChunkMohd {
    pub n_materials: u32,
    pub n_groups: u32,
    pub n_portals: u32,
    pub n_lights: u32,
    pub n_models: u32,
    pub n_doodads: u32,
    pub n_sets: u32,
}

impl View for ChunkMohd {
    type V = ChunkMohd;

    open spec fn view(&self) -> ChunkMohd {
        *self
    }
}

/// The root header that seven words spell.
pub open spec fn mohd_from(w: Seq<u32>) -> ChunkMohd {
    ChunkMohd {
        n_materials: w[0],
        n_groups: w[1],
        n_portals: w[2],
        n_lights: w[3],
        n_models: w[4],
        n_doodads: w[5],
        n_sets: w[6],
    }
}

pub open spec fn mohd_of(data: Seq<u8>) -> Result<ChunkMohd, Failure> {
    match words_at(data, 0, 7) {
        Ok(w) => Ok(mohd_from(w)),
        Err(e) => Err(e),
    }
}

impl ChunkMohd {
    pub fn decode(data: &Vec<u8>) -> (r: R<ChunkMohd>)
        ensures
            plain(r) == mohd_of(data@),
    {
        let w = read_words(data.as_slice(), 0, 7)?;
        Ok(
            ChunkMohd {
                n_materials: w[0],
                n_groups: w[1],
                n_portals: w[2],
                n_lights: w[3],
                n_models: w[4],
                n_doodads: w[5],
                n_sets: w[6],
            },
        )
    }
}

/// The texture names of a terrain tile.
pub type ChunkMtex = NameList;

/// The model file names of a terrain tile.
pub type ChunkMmdx = NameList;

/// The offsets of the model file names.
pub type ChunkMmid = OffsetList;

/// The world-model file names of a terrain tile.
pub type ChunkMwmo = NameList;

/// The offsets of the world-model file names.
pub type ChunkMwid = OffsetList;

/// The texture names of a world model.
pub type ChunkMotx = NameList;

/// The group names of a world model.
pub type ChunkMogn = NameList;

/// The doodad names of a world model.
pub type ChunkModn = NameList;

} // verus!
