use crate::common::R;
use crate::formats::dbc::dbc::DbcRowMapper;
use crate::formats::dbc::{boolean, number, signed, Cell, Column, ColumnKind, DbcFileIteratorRow};
use vstd::prelude::*;

verus! {

/// One record of the spell visual table.
#[derive(Debug)]
pub struct SpellVisualDbcRow {
    pub id: u32,
    pub precast_kit: u32,
    pub cast_kit: u32,
    pub impact_kit: u32,
    pub state_kit: u32,
    pub state_done_kit: u32,
    pub channel_kit: u32,
    pub has_missile: bool,
    pub missile_model: i32,
}

impl SpellVisualDbcRow {
    /// The plan of the schema, as a value.
    pub fn columns() -> (plan: Vec<Column>)
        ensures
            plan@ == Self::plan(),
    {
        let plan = vec![
            Column { index: 1, kind: ColumnKind::Number },
            Column { index: 2, kind: ColumnKind::Number },
            Column { index: 3, kind: ColumnKind::Number },
            Column { index: 4, kind: ColumnKind::Number },
            Column { index: 5, kind: ColumnKind::Number },
            Column { index: 6, kind: ColumnKind::Number },
            Column { index: 7, kind: ColumnKind::Number },
            Column { index: 8, kind: ColumnKind::Bool },
            Column { index: 9, kind: ColumnKind::Signed },
        ];
        assert(plan@ =~= Self::plan());
        plan
    }
}

impl DbcRowMapper for SpellVisualDbcRow {
    open spec fn plan() -> Seq<Column> {
        seq![
            number(1),
            number(2),
            number(3),
            number(4),
            number(5),
            number(6),
            number(7),
            boolean(8),
            signed(9),
        ]
    }

    open spec fn cells(&self) -> Seq<Cell> {
        seq![
            Cell::Number(self.id),
            Cell::Number(self.precast_kit),
            Cell::Number(self.cast_kit),
            Cell::Number(self.impact_kit),
            Cell::Number(self.state_kit),
            Cell::Number(self.state_done_kit),
            Cell::Number(self.channel_kit),
            Cell::Bool(self.has_missile),
            Cell::Signed(self.missile_model),
        ]
    }

    fn map_dbc_row(row: &DbcFileIteratorRow) -> (r: R<Self>) {
        let cells = row.extract(&Self::columns())?;
        let record = SpellVisualDbcRow {
            id: cells[0].number(),
            precast_kit: cells[1].number(),
            cast_kit: cells[2].number(),
            impact_kit: cells[3].number(),
            state_kit: cells[4].number(),
            state_done_kit: cells[5].number(),
            channel_kit: cells[6].number(),
            has_missile: cells[7].boolean(),
            missile_model: cells[8].signed(),
        };
        assert(record.cells() =~= cells.deep_view());
        Ok(record)
    }
}

} // verus!
