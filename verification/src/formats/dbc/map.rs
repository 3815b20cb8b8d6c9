use crate::common::R;
use crate::formats::dbc::dbc::DbcRowMapper;
use crate::formats::dbc::{number, text, Cell, Column, ColumnKind, DbcFileIteratorRow};
use vstd::prelude::*;

verus! {

/// One record of the map table.
#[derive(Debug)]
pub struct MapDbcRow {
    pub id: u32,
    pub internal_name: String,
    pub map_type: u32,
    pub map_name: String,
    pub area_table_id: u32,
    pub loading_screen_id: u32,
    pub expansion_id: u32,
    pub max_players: u32,
}

impl MapDbcRow {
    /// The plan of the schema, as a value.
    pub fn columns() -> (plan: Vec<Column>)
        ensures
            plan@ == Self::plan(),
    {
        let plan = vec![
            Column { index: 1, kind: ColumnKind::Number },
            Column { index: 2, kind: ColumnKind::Text },
            Column { index: 3, kind: ColumnKind::Number },
            Column { index: 6, kind: ColumnKind::Text },
            Column { index: 23, kind: ColumnKind::Number },
            Column { index: 58, kind: ColumnKind::Number },
            Column { index: 64, kind: ColumnKind::Number },
            Column { index: 66, kind: ColumnKind::Number },
        ];
        assert(plan@ =~= Self::plan());
        plan
    }
}

impl DbcRowMapper for MapDbcRow {
    open spec fn plan() -> Seq<Column> {
        seq![
            number(1),
            text(2),
            number(3),
            text(6),
            number(23),
            number(58),
            number(64),
            number(66),
        ]
    }

    open spec fn cells(&self) -> Seq<Cell> {
        seq![
            Cell::Number(self.id),
            Cell::Text(self.internal_name@),
            Cell::Number(self.map_type),
            Cell::Text(self.map_name@),
            Cell::Number(self.area_table_id),
            Cell::Number(self.loading_screen_id),
            Cell::Number(self.expansion_id),
            Cell::Number(self.max_players),
        ]
    }

    fn map_dbc_row(row: &DbcFileIteratorRow) -> (r: R<Self>) {
        let cells = row.extract(&Self::columns())?;
        let record = MapDbcRow {
            id: cells[0].number(),
            internal_name: cells[1].text(),
            map_type: cells[2].number(),
            map_name: cells[3].text(),
            area_table_id: cells[4].number(),
            loading_screen_id: cells[5].number(),
            expansion_id: cells[6].number(),
            max_players: cells[7].number(),
        };
        assert(record.cells() =~= cells.deep_view());
        Ok(record)
    }
}

} // verus!
