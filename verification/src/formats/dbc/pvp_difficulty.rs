use crate::common::R;
use crate::formats::dbc::dbc::DbcRowMapper;
use crate::formats::dbc::{number, Cell, Column, ColumnKind, DbcFileIteratorRow};
use vstd::prelude::*;

verus! {

/// One record of the battleground difficulty table.
#[derive(Debug)]
pub struct PvpDifficulty {
    pub id: u32,
    pub map_id: u32,
    pub range_index: u32,
    pub min_level: u32,
    pub max_level: u32,
    pub difficulty: u32,
}

impl PvpDifficulty {
    /// The plan of the schema, as a value.
    pub fn columns() -> (plan: Vec<Column>)
        ensures
            plan@ == Self::plan(),
    {
        let plan = vec![
            Column { index: 1, kind: ColumnKind::Number },
            Column { index: 2, kind: ColumnKind::Number },
            Column { index: 3, kind: ColumnKind::Number },
            Column { index: 4, kind: ColumnKind::Number },
            Column { index: 5, kind: ColumnKind::Number },
            Column { index: 6, kind: ColumnKind::Number },
        ];
        assert(plan@ =~= Self::plan());
        plan
    }
}

impl DbcRowMapper for PvpDifficulty {
    open spec fn plan() -> Seq<Column> {
        seq![
            number(1),
            number(2),
            number(3),
            number(4),
            number(5),
            number(6),
        ]
    }

    open spec fn cells(&self) -> Seq<Cell> {
        seq![
            Cell::Number(self.id),
            Cell::Number(self.map_id),
            Cell::Number(self.range_index),
            Cell::Number(self.min_level),
            Cell::Number(self.max_level),
            Cell::Number(self.difficulty),
        ]
    }

    fn map_dbc_row(row: &DbcFileIteratorRow) -> (r: R<Self>) {
        let cells = row.extract(&Self::columns())?;
        let record = PvpDifficulty {
            id: cells[0].number(),
            map_id: cells[1].number(),
            range_index: cells[2].number(),
            min_level: cells[3].number(),
            max_level: cells[4].number(),
            difficulty: cells[5].number(),
        };
        assert(record.cells() =~= cells.deep_view());
        Ok(record)
    }
}

} // verus!
