use crate::common::R;
use crate::formats::dbc::dbc::DbcRowMapper;
use crate::formats::dbc::{boolean, number, text, Cell, Column, ColumnKind, DbcFileIteratorRow};
use vstd::prelude::*;

verus! {

/// One record of the loading screens table.
#[derive(Debug)]
pub struct LoadingScreenDbcRow {
    pub id: u32,
    pub name: String,
    pub path: String,
    pub has_wide_screen: bool,
}

impl LoadingScreenDbcRow {
    /// The plan of the schema, as a value.
    pub fn columns() -> (plan: Vec<Column>)
        ensures
            plan@ == Self::plan(),
    {
        let plan = vec![
            Column { index: 1, kind: ColumnKind::Number },
            Column { index: 2, kind: ColumnKind::Text },
            Column { index: 3, kind: ColumnKind::Text },
            Column { index: 4, kind: ColumnKind::Bool },
        ];
        assert(plan@ =~= Self::plan());
        plan
    }
}

impl DbcRowMapper for LoadingScreenDbcRow {
    open spec fn plan() -> Seq<Column> {
        seq![
            number(1),
            text(2),
            text(3),
            boolean(4),
        ]
    }

    open spec fn cells(&self) -> Seq<Cell> {
        seq![
            Cell::Number(self.id),
            Cell::Text(self.name@),
            Cell::Text(self.path@),
            Cell::Bool(self.has_wide_screen),
        ]
    }

    fn map_dbc_row(row: &DbcFileIteratorRow) -> (r: R<Self>) {
        let cells = row.extract(&Self::columns())?;
        let record = LoadingScreenDbcRow {
            id: cells[0].number(),
            name: cells[1].text(),
            path: cells[2].text(),
            has_wide_screen: cells[3].boolean(),
        };
        assert(record.cells() =~= cells.deep_view());
        Ok(record)
    }
}

} // verus!
