use asset_formats::common::DecodeError;
use asset_formats::formats::chunk::Chunk;
use asset_formats::formats::variant::{matches_file_type, resolve};
use asset_formats::formats::wmo::{
    decimal_digits, group_file_chunks, root_file_chunks, WmoFile, WmoFileVariant, WmoGroupFile,
    WmoLoad, WmoNext, WmoRootFile,
};

fn chunk(tag: &str, payload: &[u8]) -> Vec<u8> {
    let mut out: Vec<u8> = tag.chars().rev().collect::<String>().into_bytes();
    out.extend_from_slice(&(payload.len() as u32).to_le_bytes());
    out.extend_from_slice(payload);
    out
}

fn words(values: &[u32]) -> Vec<u8> {
    let mut out = Vec::new();
    for v in values {
        out.extend_from_slice(&v.to_le_bytes());
    }
    out
}

fn root_bytes(n_groups: u32) -> Vec<u8> {
    let mut buf = chunk("MVER", &words(&[17]));
    buf.extend(chunk("MOHD", &words(&[1, n_groups, 0, 0, 0, 0, 0])));
    buf.extend(chunk("MOTX", b"wall.blp\0"));
    buf.extend(chunk("MOMT", &[]));
    buf.extend(chunk("MOGN", b"hall\0yard\0"));
    buf.extend(chunk("MOGI", &[]));
    buf.extend(chunk("MOSB", &[]));
    buf.extend(chunk("MOVV", &[]));
    buf.extend(chunk("MODN", b"chair.m2\0"));
    buf
}

fn group_bytes(version: u32) -> Vec<u8> {
    let mut buf = chunk("MVER", &words(&[version]));
    for tag in ["MOGP", "MOPY", "MOVI", "MONR", "MOTV"] {
        buf.extend(chunk(tag, &[]));
    }
    buf
}

fn strings(values: &[&str]) -> Vec<String> {
    values.iter().map(|s| s.to_string()).collect()
}

fn pending_name(load: WmoLoad) -> (WmoLoad, String) {
    match load.next() {
        WmoNext::Load { load, name } => (load, name),
        WmoNext::Done(_) => panic!("nothing is pending"),
    }
}

#[test]
fn wmo_root_get_group_names() {
    let group_names = WmoRootFile::get_group_names(2, "test.wmo");
    assert_eq!(group_names, vec![
        "test_000.wmo",
        "test_001.wmo",
    ]);

    let group_names = WmoRootFile::get_group_names(5, "test00.wmo");
    assert_eq!(group_names, vec![
        "test00_000.wmo",
        "test00_001.wmo",
        "test00_002.wmo",
        "test00_003.wmo",
        "test00_004.wmo",
    ]);
}

#[test]
fn no_groups_give_no_names() {
    assert!(WmoRootFile::get_group_names(0, "test.wmo").is_empty());
}

#[test]
fn group_index_is_padded_to_three_digits_and_no_further() {
    let names = WmoRootFile::get_group_names(1001, "a.wmo");
    assert_eq!(names.len(), 1001);
    assert_eq!(names[9], "a_009.wmo");
    assert_eq!(names[10], "a_010.wmo");
    assert_eq!(names[99], "a_099.wmo");
    assert_eq!(names[100], "a_100.wmo");
    assert_eq!(names[999], "a_999.wmo");
    assert_eq!(names[1000], "a_1000.wmo");
    for (i, name) in names.iter().enumerate() {
        assert_eq!(*name, format!("{}_{:0>3}.wmo", "a", i));
    }
}

#[test]
fn stem_is_the_name_without_its_last_extension() {
    assert_eq!(WmoRootFile::get_group_names(1, "my.wmo.wmo"), strings(&["my.wmo_000.wmo"]));
    assert_eq!(WmoRootFile::get_group_names(1, "a.b.c"), strings(&["a.b_000.wmo"]));
    assert_eq!(WmoRootFile::get_group_names(1, "noext"), strings(&["noext_000.wmo"]));
    assert_eq!(WmoRootFile::get_group_names(1, ".wmo"), strings(&["_000.wmo"]));
    assert_eq!(WmoRootFile::get_group_names(1, ""), strings(&["_000.wmo"]));
    assert_eq!(WmoRootFile::get_group_names(1, "a."), strings(&["a_000.wmo"]));
    assert_eq!(WmoRootFile::get_group_names(1, "a.wm"), strings(&["a_000.wmo"]));
    assert_eq!(WmoRootFile::get_group_names(1, "a.WMO"), strings(&["a_000.wmo"]));
    assert_eq!(WmoRootFile::get_group_names(1, "日本.wmo"), strings(&["日本_000.wmo"]));
    for name in ["my.wmo.wmo", "noext", ".wmo", "", "x.wmoy.wmo", "a..b"] {
        let stem = match name.rfind('.') {
            Some(dot) => &name[..dot],
            None => name,
        };
        assert_eq!(
            WmoRootFile::get_group_names(1, name),
            vec![format!("{}_{:0>3}.wmo", stem, 0)]
        );
    }
}

#[test]
fn decimal_digits_spell_the_number() {
    assert_eq!(decimal_digits(0), vec!['0']);
    assert_eq!(decimal_digits(7), vec!['7']);
    assert_eq!(decimal_digits(10), vec!['1', '0']);
    assert_eq!(decimal_digits(u32::MAX).iter().collect::<String>(), "4294967295");
}

#[test]
fn marker_sets_are_the_formats_own() {
    assert_eq!(root_file_chunks(), vec!["MOMT", "MOGI", "MOSB", "MOVV", "MODN"]);
    assert_eq!(group_file_chunks(), vec!["MOGP", "MOPY", "MOVI", "MONR", "MOTV"]);
}

#[test]
fn a_marker_set_matches_only_in_full() {
    let markers = vec!["A", "B"];
    assert!(matches_file_type(&markers, &strings(&["B", "C", "A"])));
    assert!(!matches_file_type(&markers, &strings(&["A", "C"])));
    assert!(!matches_file_type(&markers, &strings(&[])));
    assert!(matches_file_type(&Vec::new(), &strings(&[])));
}

#[test]
fn resolver_picks_the_only_full_match() {
    let candidates = vec![vec!["A", "B"], vec!["C", "D"]];
    assert_eq!(resolve(&candidates, &strings(&["A", "B", "C"])).unwrap(), 0);
    assert_eq!(resolve(&candidates, &strings(&["A", "D", "C"])).unwrap(), 1);
}

#[test]
fn resolver_picks_the_first_of_two_full_matches() {
    let candidates = vec![vec!["A", "B"], vec!["B", "C"]];
    assert_eq!(resolve(&candidates, &strings(&["C", "B", "A"])).unwrap(), 0);
    let reversed = vec![vec!["B", "C"], vec!["A", "B"]];
    assert_eq!(resolve(&reversed, &strings(&["C", "B", "A"])).unwrap(), 0);
}

#[test]
fn resolver_does_not_guess_from_a_partial_match() {
    let candidates = vec![vec!["A", "B"], vec!["C", "D"]];
    assert!(matches!(
        resolve(&candidates, &strings(&["A", "C"])),
        Err(DecodeError::UnrecognizedVariant)
    ));
    assert!(matches!(
        resolve(&Vec::new(), &strings(&["A"])),
        Err(DecodeError::UnrecognizedVariant)
    ));
}

#[test]
fn container_with_the_root_markers_is_a_root() {
    let chunks = Chunk::parse(&root_bytes(2)).unwrap();
    match WmoFileVariant::new(chunks).unwrap() {
        WmoFileVariant::ROOT(root) => {
            assert_eq!(root.mver.version, 17);
            assert_eq!(root.mohd.n_groups, 2);
            assert_eq!(root.motx.names, strings(&["wall.blp"]));
            assert_eq!(root.mogn.names, strings(&["hall", "yard"]));
            assert_eq!(root.modn.names, strings(&["chair.m2"]));
        }
        WmoFileVariant::GROUP(_) => panic!("resolved to a group"),
    }
}

#[test]
fn container_with_the_group_markers_is_a_group() {
    let chunks = Chunk::parse(&group_bytes(17)).unwrap();
    match WmoFileVariant::new(chunks).unwrap() {
        WmoFileVariant::GROUP(group) => {
            assert_eq!(group.mver.version, 17);
            assert_eq!(group.molr, None);
            assert_eq!(group.morb, None);
        }
        WmoFileVariant::ROOT(_) => panic!("resolved to a root"),
    }
}

#[test]
fn root_markers_with_some_group_markers_resolve_to_root() {
    let mut buf = root_bytes(0);
    buf.extend(chunk("MOGP", &[]));
    buf.extend(chunk("MOPY", &[]));
    let chunks = Chunk::parse(&buf).unwrap();
    assert!(matches!(WmoFileVariant::new(chunks), Ok(WmoFileVariant::ROOT(_))));
}

#[test]
fn both_marker_sets_resolve_to_root() {
    let mut buf = group_bytes(17);
    buf.extend(root_bytes(0));
    let chunks = Chunk::parse(&buf).unwrap();
    assert!(matches!(WmoFileVariant::new(chunks), Ok(WmoFileVariant::ROOT(_))));
}

#[test]
fn container_matching_neither_is_unrecognized() {
    let mut buf = chunk("MVER", &words(&[17]));
    buf.extend(chunk("MOMT", &[]));
    buf.extend(chunk("MOGP", &[]));
    let chunks = Chunk::parse(&buf).unwrap();
    assert!(matches!(WmoFileVariant::new(chunks), Err(DecodeError::UnrecognizedVariant)));
    assert!(matches!(
        WmoFileVariant::new(Vec::new()),
        Err(DecodeError::UnrecognizedVariant)
    ));
}

#[test]
fn root_without_a_required_chunk_names_the_chunk() {
    let mut buf = chunk("MVER", &words(&[17]));
    for tag in ["MOMT", "MOGI", "MOSB", "MOVV", "MODN"] {
        buf.extend(chunk(tag, &[]));
    }
    let chunks = Chunk::parse(&buf).unwrap();
    match WmoFileVariant::new(chunks) {
        Err(DecodeError::MissingChunk { tag }) => assert_eq!(tag, "MOTX"),
        other => panic!("unexpected: {:?}", other),
    }
}

#[test]
fn group_file_needs_its_version_marker() {
    let chunks = Chunk::parse(&chunk("MOGP", &[])).unwrap();
    match WmoGroupFile::new(chunks) {
        Err(DecodeError::MissingChunk { tag }) => assert_eq!(tag, "MVER"),
        other => panic!("unexpected: {:?}", other),
    }
    assert_eq!(WmoFile::load_group_wmo(&group_bytes(5)).unwrap().mver.version, 5);
    assert!(matches!(
        WmoFile::load_group_wmo(&vec![1, 2, 3]),
        Err(DecodeError::Truncated { .. })
    ));
}

#[test]
fn load_asks_for_each_group_in_index_order() {
    let load = WmoFile::from_path("castle.wmo", &root_bytes(3)).unwrap();
    let (load, first) = pending_name(load);
    assert_eq!(first, "castle_000.wmo");
    // Asking again changes nothing.
    let (load, again) = pending_name(load);
    assert_eq!(again, "castle_000.wmo");
    let load = load.supply(Some(group_bytes(10))).unwrap();
    let (load, second) = pending_name(load);
    assert_eq!(second, "castle_001.wmo");
    let load = load.supply(Some(group_bytes(11))).unwrap();
    let (load, third) = pending_name(load);
    assert_eq!(third, "castle_002.wmo");
    let load = load.supply(Some(group_bytes(12))).unwrap();
    match load.next() {
        WmoNext::Done(file) => {
            assert_eq!(file.root.mohd.n_groups, 3);
            let versions: Vec<u32> = file.groups.iter().map(|g| g.mver.version).collect();
            assert_eq!(versions, vec![10, 11, 12]);
        }
        WmoNext::Load { name, .. } => panic!("a fourth load was asked for: {}", name),
    }
}

#[test]
fn root_without_groups_is_done_at_once() {
    let load = WmoFile::from_path("hut.wmo", &root_bytes(0)).unwrap();
    match load.next() {
        WmoNext::Done(file) => assert!(file.groups.is_empty()),
        WmoNext::Load { .. } => panic!("a load was asked for"),
    }
}

#[test]
fn supplying_when_nothing_is_pending_changes_nothing() {
    let load = WmoFile::from_path("hut.wmo", &root_bytes(0)).unwrap();
    let load = load.supply(None).unwrap();
    let load = load.supply(Some(group_bytes(1))).unwrap();
    match load.next() {
        WmoNext::Done(file) => assert!(file.groups.is_empty()),
        WmoNext::Load { .. } => panic!("a load was asked for"),
    }
}

#[test]
fn missing_group_file_fails_the_whole_load() {
    for missing in 0..3 {
        let mut load = WmoFile::from_path("castle.wmo", &root_bytes(3)).unwrap();
        let mut failed = None;
        for index in 0..3 {
            let contents = if index == missing { None } else { Some(group_bytes(index)) };
            match load.supply(contents) {
                Ok(next) => load = next,
                Err(e) => {
                    failed = Some((index, e));
                    break;
                }
            }
        }
        match failed {
            Some((index, DecodeError::DependencyLoadFailed { name })) => {
                assert_eq!(index, missing);
                assert_eq!(name, format!("castle_00{}.wmo", missing));
            }
            other => panic!("unexpected: {:?}", other.map(|(i, _)| i)),
        }
    }
}

#[test]
fn group_file_that_does_not_decode_fails_the_whole_load() {
    let load = WmoFile::from_path("castle.wmo", &root_bytes(2)).unwrap();
    let load = load.supply(Some(group_bytes(1))).unwrap();
    match load.supply(Some(vec![b'R', b'E', b'V'])) {
        Err(DecodeError::DependencyLoadFailed { name }) => assert_eq!(name, "castle_001.wmo"),
        Err(other) => panic!("unexpected: {:?}", other),
        Ok(_) => panic!("a broken group file was taken"),
    }
    let load = WmoFile::from_path("castle.wmo", &root_bytes(1)).unwrap();
    match load.supply(Some(chunk("MOGP", &[]))) {
        Err(DecodeError::DependencyLoadFailed { name }) => assert_eq!(name, "castle_000.wmo"),
        Err(other) => panic!("unexpected: {:?}", other),
        Ok(_) => panic!("a group file without version was taken"),
    }
}

#[test]
fn group_file_is_no_root() {
    assert!(matches!(
        WmoFile::from_path("castle_000.wmo", &group_bytes(17)),
        Err(DecodeError::UnrecognizedVariant)
    ));
}

#[test]
fn root_load_passes_on_the_failures_of_the_container() {
    let buf = root_bytes(1);
    assert!(matches!(
        WmoFile::from_path("castle.wmo", &buf[..buf.len() - 1].to_vec()),
        Err(DecodeError::Truncated { .. })
    ));
    let mut short_header = chunk("MVER", &words(&[17]));
    short_header.extend(chunk("MOTX", &[]));
    short_header.extend(chunk("MOHD", &words(&[1])));
    for tag in ["MOMT", "MOGI", "MOSB", "MOVV", "MODN", "MOGN"] {
        short_header.extend(chunk(tag, &[]));
    }
    assert!(matches!(
        WmoFile::from_path("castle.wmo", &short_header),
        Err(DecodeError::OutOfRange { offset: 0, width: 28, len: 4 })
    ));
}

#[test]
fn loading_the_same_root_twice_gives_equal_results() {
    let bytes = root_bytes(2);
    let mut seen: Vec<(Vec<String>, u32, Vec<u32>)> = Vec::new();
    for _ in 0..2 {
        let mut load = WmoFile::from_path("castle.wmo", &bytes).unwrap();
        let mut names = Vec::new();
        let file = loop {
            match load.next() {
                WmoNext::Load { load: l, name } => {
                    names.push(name);
                    load = l.supply(Some(group_bytes(names.len() as u32))).unwrap();
                }
                WmoNext::Done(file) => break file,
            }
        };
        seen.push((names, file.root.mver.version, file.groups.iter().map(|g| g.mver.version).collect()));
    }
    assert_eq!(seen[0], seen[1]);
    assert_eq!(seen[0].0, strings(&["castle_000.wmo", "castle_001.wmo"]));
}
