use asset_formats::common::DecodeError;
use asset_formats::formats::dbc::area_table::AreaTableDbcRow;
use asset_formats::formats::dbc::dbc::{
    load_area_table_from_path, load_dbc, load_light_from_path, load_light_params_from_path,
    load_map_dbc_from_path, load_spell_icon_dbc_from_path, load_spell_visual_kit_dbc_from_path,
    load_talent_tab_dbc_from_path, DbcRowMapper,
};
use asset_formats::formats::dbc::light_params::LightParamsDbcRow;
use asset_formats::formats::dbc::spell_icon::SpellIconDbcRow;
use asset_formats::formats::dbc::{
    CellValue, Column, ColumnKind, DbcFile, DbcHeader, DBC_HEADER_SIZE,
};

fn table(rows: &[Vec<u32>], pool: &[u8]) -> Vec<u8> {
    let columns = if rows.is_empty() { 0 } else { rows[0].len() };
    let mut buf: Vec<u8> = b"WDBC".to_vec();
    buf.extend_from_slice(&(rows.len() as u32).to_le_bytes());
    buf.extend_from_slice(&(columns as u32).to_le_bytes());
    buf.extend_from_slice(&((columns * 4) as u32).to_le_bytes());
    buf.extend_from_slice(&(pool.len() as u32).to_le_bytes());
    for row in rows {
        assert_eq!(row.len(), columns);
        for v in row {
            buf.extend_from_slice(&v.to_le_bytes());
        }
    }
    buf.extend_from_slice(pool);
    buf
}

const POOL: &[u8] = b"\0Elwynn\0Durotar\0";

fn sample() -> Vec<u8> {
    table(&[vec![1, 1, 0x8000_0000, 0], vec![2, 8, 0, 16]], POOL)
}

fn area_row(id: u32, name_offset: u32) -> Vec<u32> {
    let mut row = vec![0u32; 30];
    row[1] = id;
    row[2] = 10 + id;
    row[3] = 20 + id;
    row[4] = 30 + id;
    row[5] = 40 + id;
    row[8] = 50 + id;
    row[9] = 60 + id;
    row[10] = 70 + id;
    row[11] = 80 + id;
    row[12] = name_offset;
    row[29] = 90 + id;
    row
}

#[test]
fn header_is_read_from_the_start_of_the_buffer() {
    let dbc = DbcFile::parse(sample()).unwrap();
    assert_eq!(
        dbc.header(),
        DbcHeader {
            signature: u32::from_le_bytes(*b"WDBC"),
            record_count: 2,
            field_count: 4,
            record_size: 16,
            string_pool_size: 16,
        }
    );
    assert_eq!(dbc.row_count(), 2);
}

#[test]
fn lengths_of_a_table_add_up_to_the_buffer() {
    let buf = sample();
    let header = DbcFile::parse(buf.clone()).unwrap().header();
    assert_eq!(
        (header.record_count * header.record_size + header.string_pool_size) as usize
            + DBC_HEADER_SIZE,
        buf.len()
    );
    assert_eq!(DBC_HEADER_SIZE, 20);
}

#[test]
fn bytes_after_the_string_pool_are_not_part_of_the_table() {
    let mut buf = sample();
    buf.extend_from_slice(&[b'x', 0, b'y']);
    let dbc = DbcFile::parse(buf).unwrap();
    let row = dbc.get_row(1).unwrap();
    assert_eq!(row.get_string_column(1).unwrap(), "Durotar");
    assert_eq!(row.get_string_column(3).unwrap(), "");
    assert_eq!(row.get_string_column(0).unwrap(), "lwynn");
    let row = dbc.get_row(0).unwrap();
    assert!(matches!(
        row.get_string_column(2),
        Err(DecodeError::OutOfRange { offset: 0x8000_0000, width: 0, len: 16 })
    ));
}

#[test]
fn buffer_shorter_than_the_header_is_truncated() {
    for len in 0..20 {
        let buf = sample()[..len].to_vec();
        assert!(matches!(
            DbcFile::parse(buf),
            Err(DecodeError::Truncated { offset: 0, needed: 20, len: l }) if l == len as u64
        ));
    }
}

#[test]
fn buffer_cut_in_a_row_or_in_the_pool_is_truncated() {
    let whole = sample();
    assert_eq!(whole.len(), 68);
    for len in 20..whole.len() {
        let buf = whole[..len].to_vec();
        assert!(matches!(
            DbcFile::parse(buf),
            Err(DecodeError::Truncated { offset: 0, needed: 68, len: l }) if l == len as u64
        ));
    }
    assert!(DbcFile::parse(whole).is_ok());
}

#[test]
fn header_that_declares_more_than_any_buffer_holds_is_truncated() {
    let mut buf: Vec<u8> = b"WDBC".to_vec();
    for _ in 0..4 {
        buf.extend_from_slice(&u32::MAX.to_le_bytes());
    }
    let needed = 20 + (u32::MAX as u64) * (u32::MAX as u64) + u32::MAX as u64;
    assert!(matches!(
        DbcFile::parse(buf),
        Err(DecodeError::Truncated { offset: 0, needed: n, len: 20 }) if n == needed
    ));
}

#[test]
fn table_without_rows_is_a_table() {
    let dbc = DbcFile::parse(table(&[], b"\0")).unwrap();
    assert_eq!(dbc.row_count(), 0);
    assert!(matches!(
        dbc.get_row(0),
        Err(DecodeError::OutOfRange { offset: 0, width: 0, len: 0 })
    ));
}

#[test]
fn rows_can_be_asked_for_in_any_order_and_again() {
    let dbc = DbcFile::parse(sample()).unwrap();
    let second = dbc.get_row(1).unwrap();
    let first = dbc.get_row(0).unwrap();
    let again = dbc.get_row(1).unwrap();
    assert_eq!(first.get_number_column::<u32>(0).unwrap(), 1);
    assert_eq!(second.get_number_column::<u32>(0).unwrap(), 2);
    assert_eq!(again.get_number_column::<u32>(0).unwrap(), 2);
}

#[test]
fn row_beyond_the_last_is_out_of_range() {
    let dbc = DbcFile::parse(sample()).unwrap();
    assert!(matches!(
        dbc.get_row(2),
        Err(DecodeError::OutOfRange { offset: 32, width: 16, len: 32 })
    ));
    assert!(matches!(
        dbc.get_row(u32::MAX),
        Err(DecodeError::OutOfRange { width: 16, len: 32, .. })
    ));
}

#[test]
fn number_column_is_the_word_at_four_times_the_index() {
    let dbc = DbcFile::parse(sample()).unwrap();
    let row = dbc.get_row(0).unwrap();
    assert_eq!(row.get_number_column::<u32>(0).unwrap(), 1);
    assert_eq!(row.get_number_column::<u32>(2).unwrap(), 0x8000_0000);
    assert_eq!(row.get_number_column::<i32>(2).unwrap(), i32::MIN);
    assert_eq!(row.get_number_column::<i32>(1).unwrap(), 1);
    let signed: i32 = DbcFile::parse(table(&[vec![u32::MAX]], b""))
        .unwrap()
        .get_row(0)
        .unwrap()
        .get_number_column(0)
        .unwrap();
    assert_eq!(signed, -1);
}

#[test]
fn column_beyond_the_record_is_out_of_range() {
    let dbc = DbcFile::parse(sample()).unwrap();
    let row = dbc.get_row(0).unwrap();
    assert!(matches!(
        row.get_number_column::<u32>(4),
        Err(DecodeError::OutOfRange { offset: 16, width: 4, len: 16 })
    ));
    assert!(matches!(
        row.get_bool_column(5),
        Err(DecodeError::OutOfRange { offset: 20, width: 4, len: 16 })
    ));
    assert!(matches!(
        row.get_float_column(u32::MAX),
        Err(DecodeError::OutOfRange { offset: 0x3_ffff_fffc, width: 4, len: 16 })
    ));
    assert!(matches!(
        row.get_string_column(4),
        Err(DecodeError::OutOfRange { offset: 16, width: 4, len: 16 })
    ));
}

#[test]
fn record_size_that_is_no_multiple_of_four_has_no_partial_column() {
    let mut buf: Vec<u8> = b"WDBC".to_vec();
    for v in [1u32, 2, 6, 0] {
        buf.extend_from_slice(&v.to_le_bytes());
    }
    buf.extend_from_slice(&[1, 0, 0, 0, 2, 0]);
    let dbc = DbcFile::parse(buf).unwrap();
    let row = dbc.get_row(0).unwrap();
    assert_eq!(row.get_number_column::<u32>(0).unwrap(), 1);
    assert!(matches!(
        row.get_number_column::<u32>(1),
        Err(DecodeError::OutOfRange { offset: 4, width: 4, len: 6 })
    ));
}

#[test]
fn bool_column_is_true_for_any_number_but_zero() {
    let dbc = DbcFile::parse(sample()).unwrap();
    let row = dbc.get_row(0).unwrap();
    assert!(row.get_bool_column(0).unwrap());
    assert!(row.get_bool_column(2).unwrap());
    assert!(!row.get_bool_column(3).unwrap());
}

#[test]
fn float_column_is_the_bit_pattern_of_the_word() {
    let dbc = DbcFile::parse(table(&[vec![2.5f32.to_bits(), (-0.0f32).to_bits()]], b"")).unwrap();
    let row = dbc.get_row(0).unwrap();
    assert_eq!(f32::from_bits(row.get_float_column(0).unwrap()), 2.5);
    assert_eq!(row.get_float_column(1).unwrap(), 0x8000_0000);
}

#[test]
fn string_column_reads_the_pool_at_its_offset() {
    let dbc = DbcFile::parse(sample()).unwrap();
    let row = dbc.get_row(0).unwrap();
    assert_eq!(row.get_string_column(1).unwrap(), "Elwynn");
    assert_eq!(row.get_string_column(0).unwrap(), "Elwynn");
    assert_eq!(row.get_string_column(3).unwrap(), "");
    let row = dbc.get_row(1).unwrap();
    assert_eq!(row.get_string_column(1).unwrap(), "Durotar");
    assert_eq!(row.get_string_column(0).unwrap(), "lwynn");
}

#[test]
fn string_column_at_the_end_of_the_pool_is_empty() {
    let dbc = DbcFile::parse(sample()).unwrap();
    let row = dbc.get_row(1).unwrap();
    assert_eq!(row.get_number_column::<u32>(3).unwrap(), 16);
    assert_eq!(row.get_string_column(3).unwrap(), "");
}

#[test]
fn string_column_beyond_the_pool_is_out_of_range() {
    let dbc = DbcFile::parse(table(&[vec![17, 1000]], POOL)).unwrap();
    let row = dbc.get_row(0).unwrap();
    assert!(matches!(
        row.get_string_column(0),
        Err(DecodeError::OutOfRange { offset: 17, width: 0, len: 16 })
    ));
    assert!(matches!(
        row.get_string_column(1),
        Err(DecodeError::OutOfRange { offset: 1000, width: 0, len: 16 })
    ));
}

#[test]
fn string_column_that_is_not_utf8_is_an_encoding_failure() {
    let dbc = DbcFile::parse(table(&[vec![1, 4]], &[0, b'a', 0, 0, 0xff, 0])).unwrap();
    let row = dbc.get_row(0).unwrap();
    assert_eq!(row.get_string_column(0).unwrap(), "a");
    assert!(matches!(row.get_string_column(1), Err(DecodeError::Encoding { offset: 4 })));
}

#[test]
fn string_column_without_terminator_runs_to_the_end_of_the_pool() {
    let mut buf = table(&[vec![1]], b"\0open");
    buf.extend_from_slice(b"beyond\0");
    let dbc = DbcFile::parse(buf).unwrap();
    assert_eq!(dbc.get_row(0).unwrap().get_string_column(0).unwrap(), "open");
}

#[test]
fn plan_is_read_in_order_and_in_full() {
    let dbc = DbcFile::parse(sample()).unwrap();
    let row = dbc.get_row(0).unwrap();
    let plan = vec![
        Column { index: 1, kind: ColumnKind::Text },
        Column { index: 2, kind: ColumnKind::Signed },
        Column { index: 0, kind: ColumnKind::Number },
        Column { index: 3, kind: ColumnKind::Bool },
        Column { index: 0, kind: ColumnKind::Float },
    ];
    assert_eq!(
        row.extract(&plan).unwrap(),
        vec![
            CellValue::Text("Elwynn".to_string()),
            CellValue::Signed(i32::MIN),
            CellValue::Number(1),
            CellValue::Bool(false),
            CellValue::Float(1),
        ]
    );
    assert!(row.extract(&Vec::new()).unwrap().is_empty());
    assert_eq!(
        row.get_cell(Column { index: 1, kind: ColumnKind::Number }).unwrap(),
        CellValue::Number(1)
    );
}

#[test]
fn plan_fails_with_its_first_failing_entry() {
    let dbc = DbcFile::parse(sample()).unwrap();
    let row = dbc.get_row(0).unwrap();
    let plan = vec![
        Column { index: 0, kind: ColumnKind::Number },
        Column { index: 2, kind: ColumnKind::Text },
        Column { index: 9, kind: ColumnKind::Number },
    ];
    assert!(matches!(
        row.extract(&plan),
        Err(DecodeError::OutOfRange { offset: 0x8000_0000, width: 0, len: 16 })
    ));
    let plan = vec![
        Column { index: 9, kind: ColumnKind::Number },
        Column { index: 2, kind: ColumnKind::Text },
    ];
    assert!(matches!(
        row.extract(&plan),
        Err(DecodeError::OutOfRange { offset: 36, width: 4, len: 16 })
    ));
}

#[test]
fn cell_accessors_give_what_the_cell_holds() {
    assert_eq!(CellValue::Number(7).number(), 7);
    assert_eq!(CellValue::Signed(-7).signed(), -7);
    assert_eq!(CellValue::Float(0x3f80_0000).float_bits(), 0x3f80_0000);
    assert!(CellValue::Bool(true).boolean());
    assert_eq!(CellValue::Text("x".to_string()).text(), "x");
}

#[test]
fn area_table_row_follows_its_plan() {
    let buf = table(&[area_row(1, 1), area_row(2, 8)], POOL);
    let dbc = load_area_table_from_path(buf).unwrap();
    assert_eq!(dbc.header.record_count, 2);
    assert_eq!(dbc.header.record_size, 120);
    assert_eq!(dbc.rows.len(), 2);
    let row = &dbc.rows[0];
    assert_eq!(row.id, 1);
    assert_eq!(row.map_id, 11);
    assert_eq!(row.area_id, 21);
    assert_eq!(row.explore_flag, 31);
    assert_eq!(row.flags, 41);
    assert_eq!(row.sound_ambience_ref_id, 51);
    assert_eq!(row.zone_music_ref_id, 61);
    assert_eq!(row.zone_intro_music_ref_id, 71);
    assert_eq!(row.area_level, 81);
    assert_eq!(row.area_name, "Elwynn");
    assert_eq!(row.faction_group_id, 91);
    assert_eq!(dbc.rows[1].id, 2);
    assert_eq!(dbc.rows[1].area_name, "Durotar");
}

#[test]
fn area_table_plan_has_one_entry_for_every_field() {
    let plan = AreaTableDbcRow::columns();
    let indices: Vec<u32> = plan.iter().map(|c| c.index).collect();
    assert_eq!(indices, vec![1, 2, 3, 4, 5, 8, 9, 10, 11, 12, 29]);
    assert_eq!(plan[9].kind, ColumnKind::Text);
    assert!(plan.iter().enumerate().all(|(i, c)| i == 9 || c.kind == ColumnKind::Number));
}

#[test]
fn row_mapping_is_all_or_nothing() {
    let mut short = area_row(1, 1);
    short.truncate(29);
    let dbc = DbcFile::parse(table(&[short], POOL)).unwrap();
    let row = dbc.get_row(0).unwrap();
    assert!(matches!(
        AreaTableDbcRow::map_dbc_row(&row),
        Err(DecodeError::OutOfRange { offset: 116, width: 4, len: 116 })
    ));
    let dbc = DbcFile::parse(table(&[area_row(1, 99)], POOL)).unwrap();
    let row = dbc.get_row(0).unwrap();
    assert!(matches!(
        AreaTableDbcRow::map_dbc_row(&row),
        Err(DecodeError::OutOfRange { offset: 99, width: 0, len: 16 })
    ));
}

#[test]
fn load_fails_with_the_first_row_that_fails() {
    let buf = table(&[area_row(1, 1), area_row(2, 50), area_row(3, 60)], POOL);
    assert!(matches!(
        load_area_table_from_path(buf),
        Err(DecodeError::OutOfRange { offset: 50, width: 0, len: 16 })
    ));
}

#[test]
fn load_of_a_truncated_table_is_truncated() {
    let buf = table(&[area_row(1, 1)], POOL);
    let cut = buf[..buf.len() - 1].to_vec();
    assert!(matches!(
        load_area_table_from_path(cut),
        Err(DecodeError::Truncated { offset: 0, needed: 156, len: 155 })
    ));
    assert!(matches!(
        load_dbc::<SpellIconDbcRow>(vec![1, 2, 3]),
        Err(DecodeError::Truncated { offset: 0, needed: 20, len: 3 })
    ));
}

#[test]
fn light_params_row_follows_its_plan() {
    let glow = 0.5f32.to_bits();
    let row = vec![0, 7, 1, 3, 4, glow, 1, 2, 3, 4];
    let dbc = load_light_params_from_path(table(&[row], b"")).unwrap();
    let r = &dbc.rows[0];
    assert_eq!(r.id, 7);
    assert!(r.highlight_sky);
    assert_eq!(r.light_sky_box_id, 3);
    assert_eq!(r.cloud_type_id, 4);
    assert_eq!(f32::from_bits(r.glow), 0.5);
    assert_eq!(r.water_shallow_alpha, 1);
    assert_eq!(r.water_deep_alpha, 2);
    assert_eq!(r.ocean_shallow_alpha, 3);
    assert_eq!(r.ocean_deep_alpha, 4);
}

#[test]
fn process_appends_the_rows_of_a_table() {
    let rows = vec![vec![0, 1, 0, 0, 0, 0, 0, 0, 0, 0], vec![0, 2, 1, 0, 0, 0, 0, 0, 0, 0]];
    let dbc = DbcFile::parse(table(&rows, b"")).unwrap();
    let mut builder: Vec<LightParamsDbcRow> = Vec::new();
    LightParamsDbcRow::process(&mut builder, &dbc).unwrap();
    LightParamsDbcRow::process(&mut builder, &dbc).unwrap();
    let ids: Vec<u32> = builder.iter().map(|r| r.id).collect();
    assert_eq!(ids, vec![1, 2, 1, 2]);
    assert!(builder[1].highlight_sky);
}

#[test]
fn process_stops_at_the_first_row_that_fails() {
    let dbc = DbcFile::parse(table(&[vec![0, 1, 0, 0, 0, 0, 0, 0, 0]], b"")).unwrap();
    let mut builder: Vec<LightParamsDbcRow> = Vec::new();
    assert!(matches!(
        LightParamsDbcRow::process(&mut builder, &dbc),
        Err(DecodeError::OutOfRange { offset: 36, width: 4, len: 36 })
    ));
    assert!(builder.is_empty());
}

#[test]
fn spell_icon_row_follows_its_plan() {
    let dbc = load_spell_icon_dbc_from_path(table(&[vec![0, 42, 1]], b"\0Interface\\Icons\\a\0"))
        .unwrap();
    assert_eq!(dbc.rows[0].id, 42);
    assert_eq!(dbc.rows[0].name, "Interface\\Icons\\a");
}

#[test]
fn map_row_follows_its_plan() {
    let mut row = vec![0u32; 67];
    row[1] = 571;
    row[2] = 1;
    row[3] = 0;
    row[6] = 11;
    row[23] = 3;
    row[58] = 4;
    row[64] = 2;
    row[66] = 40;
    let dbc = load_map_dbc_from_path(table(&[row], b"\0Northrend\0The North\0")).unwrap();
    let r = &dbc.rows[0];
    assert_eq!(r.id, 571);
    assert_eq!(r.internal_name, "Northrend");
    assert_eq!(r.map_type, 0);
    assert_eq!(r.map_name, "The North");
    assert_eq!(r.area_table_id, 3);
    assert_eq!(r.loading_screen_id, 4);
    assert_eq!(r.expansion_id, 2);
    assert_eq!(r.max_players, 40);
}

#[test]
fn light_row_keeps_the_bits_of_its_coordinates() {
    let x = (-1234.5f32).to_bits();
    let row = vec![0, 1, 0, x, 2, 3, 4, 5, 6, 7, 8, 9, 10];
    let dbc = load_light_from_path(table(&[row], b"")).unwrap();
    let r = &dbc.rows[0];
    assert_eq!(r.id, 1);
    assert_eq!(f32::from_bits(r.position_x), -1234.5);
    assert_eq!(r.falloff_end, 5);
    assert_eq!(r.params_clear, 6);
    assert_eq!(r.params_death, 10);
}

#[test]
fn spell_visual_kit_row_reads_signed_animation_ids() {
    let row = vec![0, 1, u32::MAX, 5, 0, 0, 0, 0, 0];
    let dbc = load_spell_visual_kit_dbc_from_path(table(&[row], b"")).unwrap();
    assert_eq!(dbc.rows[0].start_anim_id, -1);
    assert_eq!(dbc.rows[0].anim_id, 5);
}

#[test]
fn talent_tab_row_follows_its_plan() {
    let mut row = vec![0u32; 25];
    row[1] = 161;
    row[2] = 1;
    row[19] = 5;
    row[21] = 8;
    row[23] = 2;
    row[24] = 6;
    let dbc = load_talent_tab_dbc_from_path(table(&[row], b"\0Fire\0Bg\0")).unwrap();
    let r = &dbc.rows[0];
    assert_eq!(r.id, 161);
    assert_eq!(r.name, "Fire");
    assert_eq!(r.spell_icon_id, 5);
    assert_eq!(r.class_mask, 8);
    assert_eq!(r.order_index, 2);
    assert_eq!(r.background_file, "Bg");
}

#[test]
fn loading_the_same_table_twice_gives_equal_results() {
    let buf = table(&[area_row(1, 1), area_row(2, 8)], POOL);
    let a = load_area_table_from_path(buf.clone()).unwrap();
    let b = load_area_table_from_path(buf).unwrap();
    assert_eq!(a.header, b.header);
    assert_eq!(format!("{:?}", a.rows), format!("{:?}", b.rows));
}
