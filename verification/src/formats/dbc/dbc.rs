//! Typed tables: a schema maps every row of a table to one record.

use crate::common::{collect, lemma_collect_fails_at, viewed, Failure, R};
use crate::formats::dbc::area_table::AreaTableDbcRow;
use crate::formats::dbc::battle_master_list::BattleMasterListDbcRow;
use crate::formats::dbc::game_object_display_info::GameObjectDisplayInfo;
use crate::formats::dbc::ground_effect_doodad::GroundEffectDoodadDbcRow;
use crate::formats::dbc::ground_effect_texture::GroundEffectTextureDbcRow;
use crate::formats::dbc::light::LightDbcRow;
use crate::formats::dbc::light_params::LightParamsDbcRow;
use crate::formats::dbc::light_sky_box::LightSkyBoxDbcRow;
use crate::formats::dbc::loading_screens::LoadingScreenDbcRow;
use crate::formats::dbc::map::MapDbcRow;
use crate::formats::dbc::pvp_difficulty::PvpDifficulty;
use crate::formats::dbc::spell::SpellDbcRow;
use crate::formats::dbc::spell_category::SpellCategoryDbcRow;
use crate::formats::dbc::spell_icon::SpellIconDbcRow;
use crate::formats::dbc::spell_visual::SpellVisualDbcRow;
use crate::formats::dbc::spell_visual_effect_name::SpellVisualEffectNameDbcRow;
use crate::formats::dbc::spell_visual_kit::SpellVisualKitDbcRow;
use crate::formats::dbc::talent::TalentDbcRow;
use crate::formats::dbc::talent_tab::TalentTabRow;
use crate::formats::dbc::{
    cells_of, table_of, Cell, Column, DbcFile, DbcFileIteratorRow, DbcHeader, TableView,
};
use vstd::prelude::*;

verus! {

/// A decoded table: its header and one record for every row, in the order
/// of the rows.
#[derive(Debug)]
pub struct Dbc<T> {
    pub header: DbcHeader,
    pub rows: Vec<T>,
}

/// The mathematical content of a [`Dbc`]: the header, and every record as
/// the cells of its fields.
pub struct DbcView {
    pub header: DbcHeader,
    pub rows: Seq<Seq<Cell>>,
}

/// A record schema. It declares once which column feeds which field, and
/// builds a record from a row by that plan.
pub trait DbcRowMapper: Sized {
    /// The plan: one entry for every field, in the order of the fields.
    spec fn plan() -> Seq<Column>;

    /// The fields of a record as cells, in the order of the plan.
    spec fn cells(&self) -> Seq<Cell>;

    /// Maps one row. Either every field is read, or the row fails with the
    /// failure of the first field, in the plan's order, that cannot be read.
    fn map_dbc_row(row: &DbcFileIteratorRow) -> (r: R<Self>)
        ensures
            match r {
                Ok(record) => cells_of(row@, Self::plan()) == Ok::<Seq<Cell>, Failure>(
                    record.cells(),
                ),
                Err(e) => cells_of(row@, Self::plan()) == Err::<Seq<Cell>, Failure>(e@),
            },
    ;
}

impl<T: DbcRowMapper> View for Dbc<T> {
    type V = DbcView;

    open spec fn view(&self) -> DbcView {
        DbcView {
            header: self.header,
            rows: Seq::new(self.rows@.len(), |i: int| self.rows@[i].cells()),
        }
    }
}

/// What a plan reads from every row of a table, in the order of the rows.
pub open spec fn row_results(table: TableView, plan: Seq<Column>) -> Seq<
    Result<Seq<Cell>, Failure>,
> {
    Seq::new(table.header.record_count as nat, |i: int| cells_of(table.row(i), plan))
}

/// What a plan reads from a table: the cells of every row, in the order of
/// the rows, or the failure of the first row that cannot be read.
pub open spec fn rows_of(table: TableView, plan: Seq<Column>) -> Result<Seq<Seq<Cell>>, Failure> {
    collect(row_results(table, plan))
}

/// What a plan decodes from the bytes of a table file.
pub open spec fn decoded(bytes: Seq<u8>, plan: Seq<Column>) -> Result<DbcView, Failure> {
    match table_of(bytes) {
        Err(e) => Err(e),
        Ok(table) => match rows_of(table, plan) {
            Err(e) => Err(e),
            Ok(rows) => Ok(DbcView { header: table.header, rows }),
        },
    }
}

/// Decodes the contents of a table file by the schema `T`.
pub fn load_dbc<T: DbcRowMapper>(contents: Vec<u8>) -> (r: R<Dbc<T>>)
    ensures
        viewed(r) == decoded(contents@, T::plan()),
{
    let dbc = DbcFile::parse(contents)?;
    let header = dbc.header();
    let count = dbc.row_count();
    let ghost items = row_results(dbc@, T::plan());
    let mut row_builder: Vec<T> = Vec::new();
    let mut i: u32 = 0;
    while i < count
        invariant
            i <= count,
            count == dbc@.header.record_count,
            table_of(contents@) == Ok::<TableView, Failure>(dbc@),
            items == row_results(dbc@, T::plan()),
            row_builder.len() == i,
            forall|j: int|
                0 <= j < i ==> (#[trigger] items[j]) == Ok::<Seq<Cell>, Failure>(
                    row_builder[j].cells(),
                ),
        decreases count - i,
    {
        let row = dbc.get_row(i)?;
        match T::map_dbc_row(&row) {
            Ok(record) => {
                row_builder.push(record);
            },
            Err(e) => {
                proof {
                    lemma_collect_fails_at(items, i as int);
                }
                return Err(e);
            },
        }
        i = i + 1;
    }
    let out = Dbc { header, rows: row_builder };
    proof {
        assert(out@.rows =~= collect(items)->Ok_0);
    }
    Ok(out)
}

/// Decodes the contents of a map table file.
pub fn load_map_dbc_from_path(contents: Vec<u8>) -> (r: R<Dbc<MapDbcRow>>)
    ensures
        viewed(r) == decoded(contents@, MapDbcRow::plan()),
{
    load_dbc(contents)
}

/// Decodes the contents of a loading screens table file.
pub fn load_loading_screens_dbc_from_path(contents: Vec<u8>) -> (r: R<Dbc<LoadingScreenDbcRow>>)
    ensures
        viewed(r) == decoded(contents@, LoadingScreenDbcRow::plan()),
{
    load_dbc(contents)
}

/// Decodes the contents of an area table file.
pub fn load_area_table_from_path(contents: Vec<u8>) -> (r: R<Dbc<AreaTableDbcRow>>)
    ensures
        viewed(r) == decoded(contents@, AreaTableDbcRow::plan()),
{
    load_dbc(contents)
}

/// Decodes the contents of a light sky box table file.
pub fn load_light_sky_box_from_path(contents: Vec<u8>) -> (r: R<Dbc<LightSkyBoxDbcRow>>)
    ensures
        viewed(r) == decoded(contents@, LightSkyBoxDbcRow::plan()),
{
    load_dbc(contents)
}

/// Decodes the contents of a light table file.
pub fn load_light_from_path(contents: Vec<u8>) -> (r: R<Dbc<LightDbcRow>>)
    ensures
        viewed(r) == decoded(contents@, LightDbcRow::plan()),
{
    load_dbc(contents)
}

/// Decodes the contents of a light parameters table file.
pub fn load_light_params_from_path(contents: Vec<u8>) -> (r: R<Dbc<LightParamsDbcRow>>)
    ensures
        viewed(r) == decoded(contents@, LightParamsDbcRow::plan()),
{
    load_dbc(contents)
}

/// Decodes the contents of a battle master list table file.
pub fn load_battle_master_list_from_path(contents: Vec<u8>) -> (r: R<Dbc<BattleMasterListDbcRow>>)
    ensures
        viewed(r) == decoded(contents@, BattleMasterListDbcRow::plan()),
{
    load_dbc(contents)
}

/// Decodes the contents of a ground effect texture table file.
pub fn load_ground_effect_texture_from_path(contents: Vec<u8>) -> (r: R<
    Dbc<GroundEffectTextureDbcRow>,
>)
    ensures
        viewed(r) == decoded(contents@, GroundEffectTextureDbcRow::plan()),
{
    load_dbc(contents)
}

/// Decodes the contents of a ground effect doodad table file.
pub fn load_ground_effect_doodad_from_path(contents: Vec<u8>) -> (r: R<
    Dbc<GroundEffectDoodadDbcRow>,
>)
    ensures
        viewed(r) == decoded(contents@, GroundEffectDoodadDbcRow::plan()),
{
    load_dbc(contents)
}

/// Decodes the contents of a battleground difficulty table file.
pub fn load_pvp_difficulty_from_path(contents: Vec<u8>) -> (r: R<Dbc<PvpDifficulty>>)
    ensures
        viewed(r) == decoded(contents@, PvpDifficulty::plan()),
{
    load_dbc(contents)
}

/// Decodes the contents of a game object display table file.
pub fn load_game_object_display_info_from_path(contents: Vec<u8>) -> (r: R<
    Dbc<GameObjectDisplayInfo>,
>)
    ensures
        viewed(r) == decoded(contents@, GameObjectDisplayInfo::plan()),
{
    load_dbc(contents)
}

/// Decodes the contents of a spell table file.
pub fn load_spell_dbc_from_path(contents: Vec<u8>) -> (r: R<Dbc<SpellDbcRow>>)
    ensures
        viewed(r) == decoded(contents@, SpellDbcRow::plan()),
{
    load_dbc(contents)
}

/// Decodes the contents of a spell category table file.
pub fn load_spell_category_dbc_from_path(contents: Vec<u8>) -> (r: R<Dbc<SpellCategoryDbcRow>>)
    ensures
        viewed(r) == decoded(contents@, SpellCategoryDbcRow::plan()),
{
    load_dbc(contents)
}

/// Decodes the contents of a spell visual table file.
pub fn load_spell_visual_dbc_from_path(contents: Vec<u8>) -> (r: R<Dbc<SpellVisualDbcRow>>)
    ensures
        viewed(r) == decoded(contents@, SpellVisualDbcRow::plan()),
{
    load_dbc(contents)
}

/// Decodes the contents of a spell visual effect name table file.
pub fn load_spell_visual_effect_name_dbc_from_path(contents: Vec<u8>) -> (r: R<
    Dbc<SpellVisualEffectNameDbcRow>,
>)
    ensures
        viewed(r) == decoded(contents@, SpellVisualEffectNameDbcRow::plan()),
{
    load_dbc(contents)
}

/// Decodes the contents of a spell visual kit table file.
pub fn load_spell_visual_kit_dbc_from_path(contents: Vec<u8>) -> (r: R<Dbc<SpellVisualKitDbcRow>>)
    ensures
        viewed(r) == decoded(contents@, SpellVisualKitDbcRow::plan()),
{
    load_dbc(contents)
}

/// Decodes the contents of a talent table file.
pub fn load_talent_dbc_from_path(contents: Vec<u8>) -> (r: R<Dbc<TalentDbcRow>>)
    ensures
        viewed(r) == decoded(contents@, TalentDbcRow::plan()),
{
    load_dbc(contents)
}

/// Decodes the contents of a talent tab table file.
pub fn load_talent_tab_dbc_from_path(contents: Vec<u8>) -> (r: R<Dbc<TalentTabRow>>)
    ensures
        viewed(r) == decoded(contents@, TalentTabRow::plan()),
{
    load_dbc(contents)
}

/// Decodes the contents of a spell icon table file.
pub fn load_spell_icon_dbc_from_path(contents: Vec<u8>) -> (r: R<Dbc<SpellIconDbcRow>>)
    ensures
        viewed(r) == decoded(contents@, SpellIconDbcRow::plan()),
{
    load_dbc(contents)
}

} // verus!
