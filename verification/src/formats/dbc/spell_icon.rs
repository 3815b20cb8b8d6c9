use crate::common::R;
use crate::formats::dbc::dbc::DbcRowMapper;
use crate::formats::dbc::{number, text, Cell, Column, ColumnKind, DbcFileIteratorRow};
use vstd::prelude::*;

verus! {

/// One record of the spell icon table.
#[derive(Debug)]
pub struct SpellIconDbcRow {
    pub id: u32,
    pub name: String,
}

impl SpellIconDbcRow {
    /// The plan of the schema, as a value.
    pub fn columns() -> (plan: Vec<Column>)
        ensures
            plan@ == Self::plan(),
    {
        let plan = vec![
            Column { index: 1, kind: ColumnKind::Number },
            Column { index: 2, kind: ColumnKind::Text },
        ];
        assert(plan@ =~= Self::plan());
        plan
    }
}

impl DbcRowMapper for SpellIconDbcRow {
    open spec fn plan() -> Seq<Column> {
        seq![
            number(1),
            text(2),
        ]
    }

    open spec fn cells(&self) -> Seq<Cell> {
        seq![
            Cell::Number(self.id),
            Cell::Text(self.name@),
        ]
    }

    fn map_dbc_row(row: &DbcFileIteratorRow) -> (r: R<Self>) {
        let cells = row.extract(&Self::columns())?;
        let record = SpellIconDbcRow {
            id: cells[0].number(),
            name: cells[1].text(),
        };
        assert(record.cells() =~= cells.deep_view());
        Ok(record)
    }
}

} // verus!
