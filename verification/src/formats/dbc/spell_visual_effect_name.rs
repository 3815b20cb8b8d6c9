use crate::common::R;
use crate::formats::dbc::dbc::DbcRowMapper;
use crate::formats::dbc::{float, number, text, Cell, Column, ColumnKind, DbcFileIteratorRow};
use vstd::prelude::*;

verus! {

/// One record of the spell visual effect name table. The single-precision fields hold the bit
/// patterns of their numbers.
#[derive(Debug)]
pub struct SpellVisualEffectNameDbcRow {
    pub id: u32,
    pub name: String,
    pub file_name: String,
    pub area_effect_size: u32,
    pub scale: u32,
}

impl SpellVisualEffectNameDbcRow {
    /// The plan of the schema, as a value.
    pub fn columns() -> (plan: Vec<Column>)
        ensures
            plan@ == Self::plan(),
    {
        let plan = vec![
            Column { index: 1, kind: ColumnKind::Number },
            Column { index: 2, kind: ColumnKind::Text },
            Column { index: 3, kind: ColumnKind::Text },
            Column { index: 4, kind: ColumnKind::Float },
            Column { index: 5, kind: ColumnKind::Float },
        ];
        assert(plan@ =~= Self::plan());
        plan
    }
}

impl DbcRowMapper for SpellVisualEffectNameDbcRow {
    open spec fn plan() -> Seq<Column> {
        seq![
            number(1),
            text(2),
            text(3),
            float(4),
            float(5),
        ]
    }

    open spec fn cells(&self) -> Seq<Cell> {
        seq![
            Cell::Number(self.id),
            Cell::Text(self.name@),
            Cell::Text(self.file_name@),
            Cell::Float(self.area_effect_size),
            Cell::Float(self.scale),
        ]
    }

    fn map_dbc_row(row: &DbcFileIteratorRow) -> (r: R<Self>) {
        let cells = row.extract(&Self::columns())?;
        let record = SpellVisualEffectNameDbcRow {
            id: cells[0].number(),
            name: cells[1].text(),
            file_name: cells[2].text(),
            area_effect_size: cells[3].float_bits(),
            scale: cells[4].float_bits(),
        };
        assert(record.cells() =~= cells.deep_view());
        Ok(record)
    }
}

} // verus!
