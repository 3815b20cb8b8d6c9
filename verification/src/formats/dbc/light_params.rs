use crate::common::{Failure, R};
use crate::formats::dbc::dbc::DbcRowMapper;
use crate::formats::dbc::{
    boolean, cells_of, float, number, Cell, Column, ColumnKind, DbcFile, DbcFileIteratorRow,
};
use vstd::prelude::*;

verus! {

/// One record of the light parameters table. The five single-precision
/// fields hold the bit patterns of their numbers.
#[derive(Debug)]
pub struct LightParamsDbcRow {
    pub id: u32,
    pub highlight_sky: bool,
    pub light_sky_box_id: u32,
    pub cloud_type_id: u32,
    pub glow: u32,
    pub water_shallow_alpha: u32,
    pub water_deep_alpha: u32,
    pub ocean_shallow_alpha: u32,
    pub ocean_deep_alpha: u32,
}

impl DbcRowMapper for LightParamsDbcRow {
    open spec fn plan() -> Seq<Column> {
        seq![
            number(1),
            boolean(2),
            number(3),
            number(4),
            float(5),
            float(6),
            float(7),
            float(8),
            float(9),
        ]
    }

    open spec fn cells(&self) -> Seq<Cell> {
        seq![
            Cell::Number(self.id),
            Cell::Bool(self.highlight_sky),
            Cell::Number(self.light_sky_box_id),
            Cell::Number(self.cloud_type_id),
            Cell::Float(self.glow),
            Cell::Float(self.water_shallow_alpha),
            Cell::Float(self.water_deep_alpha),
            Cell::Float(self.ocean_shallow_alpha),
            Cell::Float(self.ocean_deep_alpha),
        ]
    }

    fn map_dbc_row(row: &DbcFileIteratorRow) -> (r: R<Self>) {
        let cells = row.extract(&Self::columns())?;
        let record = LightParamsDbcRow {
            id: cells[0].number(),
            highlight_sky: cells[1].boolean(),
            light_sky_box_id: cells[2].number(),
            cloud_type_id: cells[3].number(),
            glow: cells[4].float_bits(),
            water_shallow_alpha: cells[5].float_bits(),
            water_deep_alpha: cells[6].float_bits(),
            ocean_shallow_alpha: cells[7].float_bits(),
            ocean_deep_alpha: cells[8].float_bits(),
        };
        assert(record.cells() =~= cells.deep_view());
        Ok(record)
    }
}

impl LightParamsDbcRow {
    /// The plan of the schema, as a value.
    pub fn columns() -> (plan: Vec<Column>)
        ensures
            plan@ == Self::plan(),
    {
        let plan = vec![
            Column { index: 1, kind: ColumnKind::Number },
            Column { index: 2, kind: ColumnKind::Bool },
            Column { index: 3, kind: ColumnKind::Number },
            Column { index: 4, kind: ColumnKind::Number },
            Column { index: 5, kind: ColumnKind::Float },
            Column { index: 6, kind: ColumnKind::Float },
            Column { index: 7, kind: ColumnKind::Float },
            Column { index: 8, kind: ColumnKind::Float },
            Column { index: 9, kind: ColumnKind::Float },
        ];
        assert(plan@ =~= Self::plan());
        plan
    }

    /// Maps the rows of a table in order and appends each record to
    /// `row_builder`. What `row_builder` held stays in front, unchanged.
    /// Where every row maps, one record for every row is appended. The
    /// first row that fails ends the work: the records of the rows before
    /// it, and no others, are appended, and its failure is returned.
    pub fn process(row_builder: &mut Vec<LightParamsDbcRow>, dbc_file: &DbcFile) -> (r: R<()>)
        ensures
            old(row_builder)@.len() <= final(row_builder)@.len(),
            final(row_builder)@.take(old(row_builder)@.len() as int) == old(row_builder)@,
            forall|j: int|
                #![trigger final(row_builder)@[old(row_builder)@.len() + j]]
                #![trigger dbc_file@.row(j)]
                0 <= j < final(row_builder)@.len() - old(row_builder)@.len() ==> cells_of(
                    dbc_file@.row(j),
                    Self::plan(),
                ) == Ok::<Seq<Cell>, Failure>(
                    final(row_builder)@[old(row_builder)@.len() + j].cells(),
                ),
            match r {
                Ok(_) => final(row_builder)@.len() == old(row_builder)@.len()
                    + dbc_file@.header.record_count,
                Err(e) => {
                    let failed = final(row_builder)@.len() - old(row_builder)@.len();
                    &&& failed < dbc_file@.header.record_count
                    &&& cells_of(dbc_file@.row(failed), Self::plan()) == Err::<
                        Seq<Cell>,
                        Failure,
                    >(e@)
                },
            },
    {
        let count = dbc_file.row_count();
        let ghost before = row_builder@;
        let mut i: u32 = 0;
        while i < count
            invariant
                i <= count,
                count == dbc_file@.header.record_count,
                before == old(row_builder)@,
                row_builder@.len() == before.len() + i,
                before == row_builder@.take(before.len() as int),
                forall|j: int|
                    #![trigger row_builder@[before.len() + j]]
                    0 <= j < i ==> cells_of(dbc_file@.row(j), Self::plan()) == Ok::<
                        Seq<Cell>,
                        Failure,
                    >(row_builder@[before.len() + j].cells()),
            decreases count - i,
        {
            let row = dbc_file.get_row(i)?;
            let record = Self::map_dbc_row(&row)?;
            row_builder.push(record);
            assert(before =~= row_builder@.take(before.len() as int));
            i = i + 1;
        }
        Ok(())
    }
}

} // verus!
