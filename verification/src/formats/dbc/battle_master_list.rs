use crate::common::R;
use crate::formats::dbc::dbc::DbcRowMapper;
use crate::formats::dbc::{number, signed, text, Cell, Column, ColumnKind, DbcFileIteratorRow};
use vstd::prelude::*;

verus! {

/// One record of the battle master list table.
#[derive(Debug)]
pub struct BattleMasterListDbcRow {
    pub id: u32,
    pub map_id: i32,
    pub instance_type: u32,
    pub name: String,
    pub max_group_size: u32,
    pub min_level: u32,
    pub max_level: u32,
}

impl BattleMasterListDbcRow {
    /// The plan of the schema, as a value.
    pub fn columns() -> (plan: Vec<Column>)
        ensures
            plan@ == Self::plan(),
    {
        let plan = vec![
            Column { index: 1, kind: ColumnKind::Number },
            Column { index: 2, kind: ColumnKind::Signed },
            Column { index: 10, kind: ColumnKind::Number },
            Column { index: 12, kind: ColumnKind::Text },
            Column { index: 29, kind: ColumnKind::Number },
            Column { index: 31, kind: ColumnKind::Number },
            Column { index: 32, kind: ColumnKind::Number },
        ];
        assert(plan@ =~= Self::plan());
        plan
    }
}

impl DbcRowMapper for BattleMasterListDbcRow {
    open spec fn plan() -> Seq<Column> {
        seq![
            number(1),
            signed(2),
            number(10),
            text(12),
            number(29),
            number(31),
            number(32),
        ]
    }

    open spec fn cells(&self) -> Seq<Cell> {
        seq![
            Cell::Number(self.id),
            Cell::Signed(self.map_id),
            Cell::Number(self.instance_type),
            Cell::Text(self.name@),
            Cell::Number(self.max_group_size),
            Cell::Number(self.min_level),
            Cell::Number(self.max_level),
        ]
    }

    fn map_dbc_row(row: &DbcFileIteratorRow) -> (r: R<Self>) {
        let cells = row.extract(&Self::columns())?;
        let record = BattleMasterListDbcRow {
            id: cells[0].number(),
            map_id: cells[1].signed(),
            instance_type: cells[2].number(),
            name: cells[3].text(),
            max_group_size: cells[4].number(),
            min_level: cells[5].number(),
            max_level: cells[6].number(),
        };
        assert(record.cells() =~= cells.deep_view());
        Ok(record)
    }
}

} // verus!
