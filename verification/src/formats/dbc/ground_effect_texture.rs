use crate::common::R;
use crate::formats::dbc::dbc::DbcRowMapper;
use crate::formats::dbc::{number, Cell, Column, ColumnKind, DbcFileIteratorRow};
use vstd::prelude::*;

verus! {

/// One record of the ground effect texture table.
#[derive(Debug)]
pub struct GroundEffectTextureDbcRow {
    pub id: u32,
    pub doodad_id_1: u32,
    pub doodad_id_2: u32,
    pub doodad_id_3: u32,
    pub doodad_id_4: u32,
    pub doodad_weight_1: u32,
    pub doodad_weight_2: u32,
    pub doodad_weight_3: u32,
    pub doodad_weight_4: u32,
    pub density: u32,
    pub sound: u32,
}

impl GroundEffectTextureDbcRow {
    /// The plan of the schema, as a value.
    pub fn columns() -> (plan: Vec<Column>)
        ensures
            plan@ == Self::plan(),
    {
        let plan = vec![
            Column { index: 1, kind: ColumnKind::Number },
            Column { index: 2, kind: ColumnKind::Number },
            Column { index: 3, kind: ColumnKind::Number },
            Column { index: 4, kind: ColumnKind::Number },
            Column { index: 5, kind: ColumnKind::Number },
            Column { index: 6, kind: ColumnKind::Number },
            Column { index: 7, kind: ColumnKind::Number },
            Column { index: 8, kind: ColumnKind::Number },
            Column { index: 9, kind: ColumnKind::Number },
            Column { index: 10, kind: ColumnKind::Number },
            Column { index: 11, kind: ColumnKind::Number },
        ];
        assert(plan@ =~= Self::plan());
        plan
    }
}

impl DbcRowMapper for GroundEffectTextureDbcRow {
    open spec fn plan() -> Seq<Column> {
        seq![
            number(1),
            number(2),
            number(3),
            number(4),
            number(5),
            number(6),
            number(7),
            number(8),
            number(9),
            number(10),
            number(11),
        ]
    }

    open spec fn cells(&self) -> Seq<Cell> {
        seq![
            Cell::Number(self.id),
            Cell::Number(self.doodad_id_1),
            Cell::Number(self.doodad_id_2),
            Cell::Number(self.doodad_id_3),
            Cell::Number(self.doodad_id_4),
            Cell::Number(self.doodad_weight_1),
            Cell::Number(self.doodad_weight_2),
            Cell::Number(self.doodad_weight_3),
            Cell::Number(self.doodad_weight_4),
            Cell::Number(self.density),
            Cell::Number(self.sound),
        ]
    }

    fn map_dbc_row(row: &DbcFileIteratorRow) -> (r: R<Self>) {
        let cells = row.extract(&Self::columns())?;
        let record = GroundEffectTextureDbcRow {
            id: cells[0].number(),
            doodad_id_1: cells[1].number(),
            doodad_id_2: cells[2].number(),
            doodad_id_3: cells[3].number(),
            doodad_id_4: cells[4].number(),
            doodad_weight_1: cells[5].number(),
            doodad_weight_2: cells[6].number(),
            doodad_weight_3: cells[7].number(),
            doodad_weight_4: cells[8].number(),
            density: cells[9].number(),
            sound: cells[10].number(),
        };
        assert(record.cells() =~= cells.deep_view());
        Ok(record)
    }
}

} // verus!
