use crate::common::R;
use crate::formats::dbc::dbc::DbcRowMapper;
use crate::formats::dbc::{number, text, Cell, Column, ColumnKind, DbcFileIteratorRow};
use vstd::prelude::*;

verus! {

/// One record of the area table.
#[derive(Debug)]
pub struct AreaTableDbcRow {
    pub id: u32,
    pub map_id: u32,
    pub area_id: u32,
    pub explore_flag: u32,
    pub flags: u32,
    pub sound_ambience_ref_id: u32,
    pub zone_music_ref_id: u32,
    pub zone_intro_music_ref_id: u32,
    pub area_level: u32,
    pub area_name: String,
    pub faction_group_id: u32,
}

impl AreaTableDbcRow {
    /// The plan of the schema, as a value.
    pub fn columns() -> (plan: Vec<Column>)
        ensures
            plan@ == Self::plan(),
    {
        let plan = vec![
            Column { index: 1, kind: ColumnKind::Number },
            Column { index: 2, kind: ColumnKind::Number },
            Column { index: 3, kind: ColumnKind::Number },
            Column { index: 4, kind: ColumnKind::Number },
            Column { index: 5, kind: ColumnKind::Number },
            Column { index: 8, kind: ColumnKind::Number },
            Column { index: 9, kind: ColumnKind::Number },
            Column { index: 10, kind: ColumnKind::Number },
            Column { index: 11, kind: ColumnKind::Number },
            Column { index: 12, kind: ColumnKind::Text },
            Column { index: 29, kind: ColumnKind::Number },
        ];
        assert(plan@ =~= Self::plan());
        plan
    }
}

impl DbcRowMapper for AreaTableDbcRow {
    open spec fn plan() -> Seq<Column> {
        seq![
            number(1),
            number(2),
            number(3),
            number(4),
            number(5),
            number(8),
            number(9),
            number(10),
            number(11),
            text(12),
            number(29),
        ]
    }

    open spec fn cells(&self) -> Seq<Cell> {
        seq![
            Cell::Number(self.id),
            Cell::Number(self.map_id),
            Cell::Number(self.area_id),
            Cell::Number(self.explore_flag),
            Cell::Number(self.flags),
            Cell::Number(self.sound_ambience_ref_id),
            Cell::Number(self.zone_music_ref_id),
            Cell::Number(self.zone_intro_music_ref_id),
            Cell::Number(self.area_level),
            Cell::Text(self.area_name@),
            Cell::Number(self.faction_group_id),
        ]
    }

    fn map_dbc_row(row: &DbcFileIteratorRow) -> (r: R<Self>) {
        let cells = row.extract(&Self::columns())?;
        let record = AreaTableDbcRow {
            id: cells[0].number(),
            map_id: cells[1].number(),
            area_id: cells[2].number(),
            explore_flag: cells[3].number(),
            flags: cells[4].number(),
            sound_ambience_ref_id: cells[5].number(),
            zone_music_ref_id: cells[6].number(),
            zone_intro_music_ref_id: cells[7].number(),
            area_level: cells[8].number(),
            area_name: cells[9].text(),
            faction_group_id: cells[10].number(),
        };
        assert(record.cells() =~= cells.deep_view());
        Ok(record)
    }
}

} // verus!
