use crate::common::R;
use crate::formats::dbc::dbc::DbcRowMapper;
use crate::formats::dbc::{number, Cell, Column, ColumnKind, DbcFileIteratorRow};
use vstd::prelude::*;

verus! {

/// One record of the talent table.
#[derive(Debug)]
pub struct TalentDbcRow {
    pub id: u32,
    pub tab_id: u32,
    pub tier: u32,
    pub column_index: u32,
    pub spell_rank_1: u32,
    pub spell_rank_2: u32,
    pub spell_rank_3: u32,
    pub spell_rank_4: u32,
    pub spell_rank_5: u32,
    pub prereq_talent: u32,
    pub prereq_rank: u32,
}

impl TalentDbcRow {
    /// The plan of the schema, as a value.
    pub fn columns() -> (plan: Vec<Column>)
        ensures
            plan@ == Self::plan(),
    {
        let plan = vec![
            Column { index: 1, kind: ColumnKind::Number },
            Column { index: 2, kind: ColumnKind::Number },
            Column { index: 3, kind: ColumnKind::Number },
            Column { index: 4, kind: ColumnKind::Number },
            Column { index: 5, kind: ColumnKind::Number },
            Column { index: 6, kind: ColumnKind::Number },
            Column { index: 7, kind: ColumnKind::Number },
            Column { index: 8, kind: ColumnKind::Number },
            Column { index: 9, kind: ColumnKind::Number },
            Column { index: 14, kind: ColumnKind::Number },
            Column { index: 17, kind: ColumnKind::Number },
        ];
        assert(plan@ =~= Self::plan());
        plan
    }
}

impl DbcRowMapper for TalentDbcRow {
    open spec fn plan() -> Seq<Column> {
        seq![
            number(1),
            number(2),
            number(3),
            number(4),
            number(5),
            number(6),
            number(7),
            number(8),
            number(9),
            number(14),
            number(17),
        ]
    }

    open spec fn cells(&self) -> Seq<Cell> {
        seq![
            Cell::Number(self.id),
            Cell::Number(self.tab_id),
            Cell::Number(self.tier),
            Cell::Number(self.column_index),
            Cell::Number(self.spell_rank_1),
            Cell::Number(self.spell_rank_2),
            Cell::Number(self.spell_rank_3),
            Cell::Number(self.spell_rank_4),
            Cell::Number(self.spell_rank_5),
            Cell::Number(self.prereq_talent),
            Cell::Number(self.prereq_rank),
        ]
    }

    fn map_dbc_row(row: &DbcFileIteratorRow) -> (r: R<Self>) {
        let cells = row.extract(&Self::columns())?;
        let record = TalentDbcRow {
            id: cells[0].number(),
            tab_id: cells[1].number(),
            tier: cells[2].number(),
            column_index: cells[3].number(),
            spell_rank_1: cells[4].number(),
            spell_rank_2: cells[5].number(),
            spell_rank_3: cells[6].number(),
            spell_rank_4: cells[7].number(),
            spell_rank_5: cells[8].number(),
            prereq_talent: cells[9].number(),
            prereq_rank: cells[10].number(),
        };
        assert(record.cells() =~= cells.deep_view());
        Ok(record)
    }
}

} // verus!
