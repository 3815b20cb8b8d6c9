use crate::common::R;
use crate::formats::dbc::dbc::DbcRowMapper;
use crate::formats::dbc::{number, signed, Cell, Column, ColumnKind, DbcFileIteratorRow};
use vstd::prelude::*;

verus! {

/// One record of the spell visual kit table.
#[derive(Debug)]
pub struct SpellVisualKitDbcRow {
    pub id: u32,
    pub start_anim_id: i32,
    pub anim_id: i32,
    pub head_effect: u32,
    pub chest_effect: u32,
    pub base_effect: u32,
    pub left_hand_effect: u32,
    pub right_hand_effect: u32,
}

impl SpellVisualKitDbcRow {
    /// The plan of the schema, as a value.
    pub fn columns() -> (plan: Vec<Column>)
        ensures
            plan@ == Self::plan(),
    {
        let plan = vec![
            Column { index: 1, kind: ColumnKind::Number },
            Column { index: 2, kind: ColumnKind::Signed },
            Column { index: 3, kind: ColumnKind::Signed },
            Column { index: 4, kind: ColumnKind::Number },
            Column { index: 5, kind: ColumnKind::Number },
            Column { index: 6, kind: ColumnKind::Number },
            Column { index: 7, kind: ColumnKind::Number },
            Column { index: 8, kind: ColumnKind::Number },
        ];
        assert(plan@ =~= Self::plan());
        plan
    }
}

impl DbcRowMapper for SpellVisualKitDbcRow {
    open spec fn plan() -> Seq<Column> {
        seq![
            number(1),
            signed(2),
            signed(3),
            number(4),
            number(5),
            number(6),
            number(7),
            number(8),
        ]
    }

    open spec fn cells(&self) -> Seq<Cell> {
        seq![
            Cell::Number(self.id),
            Cell::Signed(self.start_anim_id),
            Cell::Signed(self.anim_id),
            Cell::Number(self.head_effect),
            Cell::Number(self.chest_effect),
            Cell::Number(self.base_effect),
            Cell::Number(self.left_hand_effect),
            Cell::Number(self.right_hand_effect),
        ]
    }

    fn map_dbc_row(row: &DbcFileIteratorRow) -> (r: R<Self>) {
        let cells = row.extract(&Self::columns())?;
        let record = SpellVisualKitDbcRow {
            id: cells[0].number(),
            start_anim_id: cells[1].signed(),
            anim_id: cells[2].signed(),
            head_effect: cells[3].number(),
            chest_effect: cells[4].number(),
            base_effect: cells[5].number(),
            left_hand_effect: cells[6].number(),
            right_hand_effect: cells[7].number(),
        };
        assert(record.cells() =~= cells.deep_view());
        Ok(record)
    }
}

} // verus!
