use crate::common::R;
use crate::formats::dbc::dbc::DbcRowMapper;
use crate::formats::dbc::{number, text, Cell, Column, ColumnKind, DbcFileIteratorRow};
use vstd::prelude::*;

verus! {

/// One record of the game object display table.
#[derive(Debug)]
pub struct GameObjectDisplayInfo {
    pub id: u32,
    pub model_name: String,
    pub object_effect_package_id: u32,
}

impl GameObjectDisplayInfo {
    /// The plan of the schema, as a value.
    pub fn columns() -> (plan: Vec<Column>)
        ensures
            plan@ == Self::plan(),
    {
        let plan = vec![
            Column { index: 1, kind: ColumnKind::Number },
            Column { index: 2, kind: ColumnKind::Text },
            Column { index: 19, kind: ColumnKind::Number },
        ];
        assert(plan@ =~= Self::plan());
        plan
    }
}

impl DbcRowMapper for GameObjectDisplayInfo {
    open spec fn plan() -> Seq<Column> {
        seq![
            number(1),
            text(2),
            number(19),
        ]
    }

    open spec fn cells(&self) -> Seq<Cell> {
        seq![
            Cell::Number(self.id),
            Cell::Text(self.model_name@),
            Cell::Number(self.object_effect_package_id),
        ]
    }

    fn map_dbc_row(row: &DbcFileIteratorRow) -> (r: R<Self>) {
        let cells = row.extract(&Self::columns())?;
        let record = GameObjectDisplayInfo {
            id: cells[0].number(),
            model_name: cells[1].text(),
            object_effect_package_id: cells[2].number(),
        };
        assert(record.cells() =~= cells.deep_view());
        Ok(record)
    }
}

} // verus!
