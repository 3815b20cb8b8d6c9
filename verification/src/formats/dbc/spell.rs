use crate::common::R;
use crate::formats::dbc::dbc::DbcRowMapper;
use crate::formats::dbc::{number, text, Cell, Column, ColumnKind, DbcFileIteratorRow};
use vstd::prelude::*;

verus! {

/// One record of the spell table.
#[derive(Debug)]
pub struct SpellDbcRow {
    pub id: u32,
    pub category: u32,
    pub dispel_type: u32,
    pub mechanic: u32,
    pub attributes: u32,
    pub casting_time_index: u32,
    pub duration_index: u32,
    pub range_index: u32,
    pub spell_visual_id: u32,
    pub spell_icon_id: u32,
    pub name: String,
}

impl SpellDbcRow {
    /// The plan of the schema, as a value.
    pub fn columns() -> (plan: Vec<Column>)
        ensures
            plan@ == Self::plan(),
    {
        let plan = vec![
            Column { index: 1, kind: ColumnKind::Number },
            Column { index: 2, kind: ColumnKind::Number },
            Column { index: 3, kind: ColumnKind::Number },
            Column { index: 4, kind: ColumnKind::Number },
            Column { index: 5, kind: ColumnKind::Number },
            Column { index: 29, kind: ColumnKind::Number },
            Column { index: 41, kind: ColumnKind::Number },
            Column { index: 47, kind: ColumnKind::Number },
            Column { index: 132, kind: ColumnKind::Number },
            Column { index: 134, kind: ColumnKind::Number },
            Column { index: 137, kind: ColumnKind::Text },
        ];
        assert(plan@ =~= Self::plan());
        plan
    }
}

impl DbcRowMapper for SpellDbcRow {
    open spec fn plan() -> Seq<Column> {
        seq![
            number(1),
            number(2),
            number(3),
            number(4),
            number(5),
            number(29),
            number(41),
            number(47),
            number(132),
            number(134),
            text(137),
        ]
    }

    open spec fn cells(&self) -> Seq<Cell> {
        seq![
            Cell::Number(self.id),
            Cell::Number(self.category),
            Cell::Number(self.dispel_type),
            Cell::Number(self.mechanic),
            Cell::Number(self.attributes),
            Cell::Number(self.casting_time_index),
            Cell::Number(self.duration_index),
            Cell::Number(self.range_index),
            Cell::Number(self.spell_visual_id),
            Cell::Number(self.spell_icon_id),
            Cell::Text(self.name@),
        ]
    }

    fn map_dbc_row(row: &DbcFileIteratorRow) -> (r: R<Self>) {
        let cells = row.extract(&Self::columns())?;
        let record = SpellDbcRow {
            id: cells[0].number(),
            category: cells[1].number(),
            dispel_type: cells[2].number(),
            mechanic: cells[3].number(),
            attributes: cells[4].number(),
            casting_time_index: cells[5].number(),
            duration_index: cells[6].number(),
            range_index: cells[7].number(),
            spell_visual_id: cells[8].number(),
            spell_icon_id: cells[9].number(),
            name: cells[10].text(),
        };
        assert(record.cells() =~= cells.deep_view());
        Ok(record)
    }
}

} // verus!
