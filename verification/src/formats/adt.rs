//! The terrain tile: one file of chunks, all of them decoded from the one
//! container.

use crate::common::{viewed, Failure, R};
use crate::formats::chunk::types::{
    mcin_of, mddf_of, mhdr_of, mver_of, ChunkMcin, ChunkMcnk, ChunkMddf, ChunkMhdr,
    ChunkMmdx, ChunkMmid, ChunkMtex, ChunkMver, ChunkMwid, ChunkMwmo, DoodadPlacement, McnkTile,
};
use crate::formats::chunk::{
    container, decoded_chunk, names_in, offsets_in, tiles_of, Chunk, ChunkVecUtils, ChunkView,
};
use vstd::prelude::*;

verus! {

/// A decoded terrain tile.
#[derive(Debug)]
pub struct AdtFile {
    pub mver: ChunkMver,
    pub mhdr: ChunkMhdr,
    pub mcin: Vec<ChunkMcin>,
    pub mtex: ChunkMtex,
    pub mmdx: ChunkMmdx,
    pub mmid: ChunkMmid,
    pub mwmo: ChunkMwmo,
    pub mwid: ChunkMwid,
    pub mddf: ChunkMddf,
    pub mcnk: ChunkMcnk,
}

/// The mathematical content of an [`AdtFile`].
pub struct AdtView {
    pub mver: ChunkMver,
    pub mhdr: ChunkMhdr,
    pub mcin: Seq<ChunkMcin>,
    pub mtex: Seq<Seq<char>>,
    pub mmdx: Seq<Seq<char>>,
    pub mmid: Seq<u32>,
    pub mwmo: Seq<Seq<char>>,
    pub mwid: Seq<u32>,
    pub mddf: Seq<DoodadPlacement>,
    pub mcnk: Seq<McnkTile>,
}

impl View for AdtFile {
    type V = AdtView;

    open spec fn view(&self) -> AdtView {
        AdtView {
            mver: self.mver,
            mhdr: self.mhdr,
            mcin: self.mcin@,
            mtex: self.mtex@,
            mmdx: self.mmdx@,
            mmid: self.mmid@,
            mwmo: self.mwmo@,
            mwid: self.mwid@,
            mddf: self.mddf@,
            mcnk: self.mcnk@,
        }
    }
}

/// The terrain tile that the chunks of a container make. The fields are
/// decoded in the order in which they are declared, and the first that
/// fails, by a missing chunk or by its payload, fails the tile. Chunks with
/// other tags are not looked at.
pub open spec fn adt_of(chunks: Seq<ChunkView>) -> Result<AdtView, Failure> {
    match decoded_chunk(chunks, "MVER"@, |d: Seq<u8>| mver_of(d)) {
        Err(e) => Err(e),
        Ok(mver) => match decoded_chunk(chunks, "MHDR"@, |d: Seq<u8>| mhdr_of(d)) {
            Err(e) => Err(e),
            Ok(mhdr) => match decoded_chunk(chunks, "MCIN"@, |d: Seq<u8>| mcin_of(d)) {
                Err(e) => Err(e),
                Ok(mcin) => match names_in(chunks, "MTEX"@) {
                    Err(e) => Err(e),
                    Ok(mtex) => match names_in(chunks, "MMDX"@) {
                        Err(e) => Err(e),
                        Ok(mmdx) => match offsets_in(chunks, "MMID"@) {
                            Err(e) => Err(e),
                            Ok(mmid) => match names_in(chunks, "MWMO"@) {
                                Err(e) => Err(e),
                                Ok(mwmo) => match offsets_in(chunks, "MWID"@) {
                                    Err(e) => Err(e),
                                    Ok(mwid) => match decoded_chunk(
                                        chunks,
                                        "MDDF"@,
                                        |d: Seq<u8>| mddf_of(d),
                                    ) {
                                        Err(e) => Err(e),
                                        Ok(mddf) => match tiles_of(chunks) {
                                            Err(e) => Err(e),
                                            Ok(mcnk) => Ok(
                                                AdtView {
                                                    mver,
                                                    mhdr,
                                                    mcin,
                                                    mtex,
                                                    mmdx,
                                                    mmid,
                                                    mwmo,
                                                    mwid,
                                                    mddf,
                                                    mcnk,
                                                },
                                            ),
                                        },
                                    },
                                },
                            },
                        },
                    },
                },
            },
        },
    }
}

/// The terrain tile that the bytes of a file hold.
pub open spec fn adt_of_bytes(bytes: Seq<u8>) -> Result<AdtView, Failure> {
    match container(bytes) {
        Err(e) => Err(e),
        Ok(chunks) => adt_of(chunks),
    }
}

impl AdtFile {
    /// Decodes the contents of a terrain tile file.
    pub fn from_path(contents: &Vec<u8>) -> (r: R<AdtFile>)
        ensures
            viewed(r) == adt_of_bytes(contents@),
    {
        let chunks = Chunk::parse(contents)?;
        AdtFile::new(chunks)
    }

    /// Assembles a terrain tile from the chunks of its container.
    pub fn new(chunks: Vec<Chunk>) -> (r: R<AdtFile>)
        ensures
            viewed(r) == adt_of(chunks.deep_view()),
    {
        let mver = chunks.get_mver_chunk()?;
        let mhdr = chunks.get_mhdr()?;
        let mcin = chunks.get_mcin()?;
        let mtex = chunks.get_mtex()?;
        let mmdx = chunks.get_mmdx()?;
        let mmid = chunks.get_mmid()?;
        let mwmo = chunks.get_mwmo()?;
        let mwid = chunks.get_mwid()?;
        let mddf = chunks.get_mddf()?;
        let mcnk = chunks.get_mcnk()?;
        Ok(AdtFile { mver, mhdr, mcin, mtex, mmdx, mmid, mwmo, mwid, mddf, mcnk })
    }
}

} // verus!
