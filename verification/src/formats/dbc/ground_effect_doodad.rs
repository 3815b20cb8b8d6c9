use crate::common::R;
use crate::formats::dbc::dbc::DbcRowMapper;
use crate::formats::dbc::{number, text, Cell, Column, ColumnKind, DbcFileIteratorRow};
use vstd::prelude::*;

verus! {

/// One record of the ground effect doodad table.
#[derive(Debug)]
pub struct GroundEffectDoodadDbcRow {
    pub id: u32,
    pub doodad_path: String,
    pub flags: u32,
}

impl GroundEffectDoodadDbcRow {
    /// The plan of the schema, as a value.
    pub fn columns() -> (plan: Vec<Column>)
        ensures
            plan@ == Self::plan(),
    {
        let plan = vec![
            Column { index: 1, kind: ColumnKind::Number },
            Column { index: 2, kind: ColumnKind::Text },
            Column { index: 3, kind: ColumnKind::Number },
        ];
        assert(plan@ =~= Self::plan());
        plan
    }
}

impl DbcRowMapper for GroundEffectDoodadDbcRow {
    open spec fn plan() -> Seq<Column> {
        seq![
            number(1),
            text(2),
            number(3),
        ]
    }

    open spec fn cells(&self) -> Seq<Cell> {
        seq![
            Cell::Number(self.id),
            Cell::Text(self.doodad_path@),
            Cell::Number(self.flags),
        ]
    }

    fn map_dbc_row(row: &DbcFileIteratorRow) -> (r: R<Self>) {
        let cells = row.extract(&Self::columns())?;
        let record = GroundEffectDoodadDbcRow {
            id: cells[0].number(),
            doodad_path: cells[1].text(),
            flags: cells[2].number(),
        };
        assert(record.cells() =~= cells.deep_view());
        Ok(record)
    }
}

} // verus!
