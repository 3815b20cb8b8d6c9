use crate::common::R;
use crate::formats::dbc::dbc::DbcRowMapper;
use crate::formats::dbc::{float, number, Cell, Column, ColumnKind, DbcFileIteratorRow};
use vstd::prelude::*;

verus! {

/// One record of the light table. The single-precision fields hold the bit
/// patterns of their numbers.
#[derive(Debug)]
pub struct LightDbcRow {
    pub id: u32,
    pub map_id: u32,
    pub position_x: u32,
    pub position_y: u32,
    pub position_z: u32,
    pub falloff_start: u32,
    pub falloff_end: u32,
    pub params_clear: u32,
    pub params_clear_water: u32,
    pub params_storm: u32,
    pub params_storm_water: u32,
    pub params_death: u32,
}

impl LightDbcRow {
    /// The plan of the schema, as a value.
    pub fn columns() -> (plan: Vec<Column>)
        ensures
            plan@ == Self::plan(),
    {
        let plan = vec![
            Column { index: 1, kind: ColumnKind::Number },
            Column { index: 2, kind: ColumnKind::Number },
            Column { index: 3, kind: ColumnKind::Float },
            Column { index: 4, kind: ColumnKind::Float },
            Column { index: 5, kind: ColumnKind::Float },
            Column { index: 6, kind: ColumnKind::Float },
            Column { index: 7, kind: ColumnKind::Float },
            Column { index: 8, kind: ColumnKind::Number },
            Column { index: 9, kind: ColumnKind::Number },
            Column { index: 10, kind: ColumnKind::Number },
            Column { index: 11, kind: ColumnKind::Number },
            Column { index: 12, kind: ColumnKind::Number },
        ];
        assert(plan@ =~= Self::plan());
        plan
    }
}

impl DbcRowMapper for LightDbcRow {
    open spec fn plan() -> Seq<Column> {
        seq![
            number(1),
            number(2),
            float(3),
            float(4),
            float(5),
            float(6),
            float(7),
            number(8),
            number(9),
            number(10),
            number(11),
            number(12),
        ]
    }

    open spec fn cells(&self) -> Seq<Cell> {
        seq![
            Cell::Number(self.id),
            Cell::Number(self.map_id),
            Cell::Float(self.position_x),
            Cell::Float(self.position_y),
            Cell::Float(self.position_z),
            Cell::Float(self.falloff_start),
            Cell::Float(self.falloff_end),
            Cell::Number(self.params_clear),
            Cell::Number(self.params_clear_water),
            Cell::Number(self.params_storm),
            Cell::Number(self.params_storm_water),
            Cell::Number(self.params_death),
        ]
    }

    fn map_dbc_row(row: &DbcFileIteratorRow) -> (r: R<Self>) {
        let cells = row.extract(&Self::columns())?;
        let record = LightDbcRow {
            id: cells[0].number(),
            map_id: cells[1].number(),
            position_x: cells[2].float_bits(),
            position_y: cells[3].float_bits(),
            position_z: cells[4].float_bits(),
            falloff_start: cells[5].float_bits(),
            falloff_end: cells[6].float_bits(),
            params_clear: cells[7].number(),
            params_clear_water: cells[8].number(),
            params_storm: cells[9].number(),
            params_storm_water: cells[10].number(),
            params_death: cells[11].number(),
        };
        assert(record.cells() =~= cells.deep_view());
        Ok(record)
    }
}

} // verus!
