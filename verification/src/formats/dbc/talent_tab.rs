use crate::common::R;
use crate::formats::dbc::dbc::DbcRowMapper;
use crate::formats::dbc::{number, text, Cell, Column, ColumnKind, DbcFileIteratorRow};
use vstd::prelude::*;

verus! {

/// One record of the talent tab table.
#[derive(Debug)]
pub struct TalentTabRow {
    pub id: u32,
    pub name: String,
    pub spell_icon_id: u32,
    pub class_mask: u32,
    pub order_index: u32,
    pub background_file: String,
}

impl TalentTabRow {
    /// The plan of the schema, as a value.
    pub fn columns() -> (plan: Vec<Column>)
        ensures
            plan@ == Self::plan(),
    {
        let plan = vec![
            Column { index: 1, kind: ColumnKind::Number },
            Column { index: 2, kind: ColumnKind::Text },
            Column { index: 19, kind: ColumnKind::Number },
            Column { index: 21, kind: ColumnKind::Number },
            Column { index: 23, kind: ColumnKind::Number },
            Column { index: 24, kind: ColumnKind::Text },
        ];
        assert(plan@ =~= Self::plan());
        plan
    }
}

impl DbcRowMapper for TalentTabRow {
    open spec fn plan() -> Seq<Column> {
        seq![
            number(1),
            text(2),
            number(19),
            number(21),
            number(23),
            text(24),
        ]
    }

    open spec fn cells(&self) -> Seq<Cell> {
        seq![
            Cell::Number(self.id),
            Cell::Text(self.name@),
            Cell::Number(self.spell_icon_id),
            Cell::Number(self.class_mask),
            Cell::Number(self.order_index),
            Cell::Text(self.background_file@),
        ]
    }

    fn map_dbc_row(row: &DbcFileIteratorRow) -> (r: R<Self>) {
        let cells = row.extract(&Self::columns())?;
        let record = TalentTabRow {
            id: cells[0].number(),
            name: cells[1].text(),
            spell_icon_id: cells[2].number(),
            class_mask: cells[3].number(),
            order_index: cells[4].number(),
            background_file: cells[5].text(),
        };
        assert(record.cells() =~= cells.deep_view());
        Ok(record)
    }
}

} // verus!
