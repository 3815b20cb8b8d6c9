use asset_formats::common::DecodeError;
use asset_formats::formats::adt::AdtFile;
use asset_formats::formats::chunk::Chunk;

fn chunk(tag: &str, payload: &[u8]) -> Vec<u8> {
    let mut out: Vec<u8> = tag.chars().rev().collect::<String>().into_bytes();
    out.extend_from_slice(&(payload.len() as u32).to_le_bytes());
    out.extend_from_slice(payload);
    out
}

fn words(values: &[u32]) -> Vec<u8> {
    let mut out = Vec::new();
    for v in values {
        out.extend_from_slice(&v.to_le_bytes());
    }
    out
}

fn parts() -> Vec<(&'static str, Vec<u8>)> {
    vec![
        ("MVER", words(&[18])),
        ("MHDR", words(&[0, 64, 100, 200, 300, 400, 500, 600, 700])),
        ("MCIN", words(&[1000, 50, 0, 0])),
        ("MTEX", b"grass.blp\0rock.blp\0".to_vec()),
        ("MMDX", b"tree.m2\0".to_vec()),
        ("MMID", words(&[0])),
        ("MWMO", b"inn.wmo\0".to_vec()),
        ("MWID", words(&[0])),
        ("MDDF", words(&[0, 1, 0, 0, 0, 0, 0, 0, 1024])),
        ("MFBO", vec![9, 9, 9]),
        ("MCNK", words(&[0, 3, 4, 1, 0])),
    ]
}

fn tile_bytes(skip: Option<&str>) -> Vec<u8> {
    let mut buf = Vec::new();
    for (tag, payload) in parts() {
        if Some(tag) != skip {
            buf.extend(chunk(tag, &payload));
        }
    }
    buf
}

#[test]
fn terrain_tile_is_assembled_from_its_chunks() {
    let adt = AdtFile::from_path(&tile_bytes(None)).unwrap();
    assert_eq!(adt.mver.version, 18);
    assert_eq!(adt.mhdr.mcin, 64);
    assert_eq!(adt.mcin.len(), 1);
    assert_eq!(adt.mcin[0].offset, 1000);
    assert_eq!(adt.mtex.names, vec!["grass.blp".to_string(), "rock.blp".to_string()]);
    assert_eq!(adt.mmdx.names, vec!["tree.m2".to_string()]);
    assert_eq!(adt.mmid.offsets, vec![0]);
    assert_eq!(adt.mwmo.names, vec!["inn.wmo".to_string()]);
    assert_eq!(adt.mwid.offsets, vec![0]);
    assert_eq!(adt.mddf.entries.len(), 1);
    assert_eq!(adt.mddf.entries[0].scale, 1024);
    assert_eq!(adt.mcnk.tiles.len(), 1);
    assert_eq!(adt.mcnk.tiles[0].index_x, 3);
    assert_eq!(adt.mcnk.tiles[0].index_y, 4);
}

#[test]
fn terrain_tile_without_a_required_chunk_names_the_chunk() {
    for tag in ["MVER", "MHDR", "MCIN", "MTEX", "MMDX", "MMID", "MWMO", "MWID", "MDDF"] {
        match AdtFile::from_path(&tile_bytes(Some(tag))) {
            Err(DecodeError::MissingChunk { tag: missing }) => assert_eq!(missing, tag),
            other => panic!("unexpected for {}: {:?}", tag, other.map(|_| ())),
        }
    }
}

#[test]
fn terrain_tile_reports_the_first_field_that_fails() {
    let mut buf = chunk("MHDR", &words(&[0]));
    buf.extend(chunk("MCIN", &[1, 2, 3]));
    match AdtFile::from_path(&buf) {
        Err(DecodeError::MissingChunk { tag }) => assert_eq!(tag, "MVER"),
        other => panic!("unexpected: {:?}", other.map(|_| ())),
    }
    buf.extend(chunk("MVER", &words(&[18])));
    assert!(matches!(
        AdtFile::from_path(&buf),
        Err(DecodeError::OutOfRange { offset: 0, width: 36, len: 4 })
    ));
}

#[test]
fn terrain_tile_may_have_no_sub_tiles() {
    let adt = AdtFile::from_path(&tile_bytes(Some("MCNK"))).unwrap();
    assert!(adt.mcnk.tiles.is_empty());
}

#[test]
fn chunks_that_the_schema_does_not_know_are_kept_and_not_decoded() {
    let chunks = Chunk::parse(&tile_bytes(None)).unwrap();
    assert!(chunks.iter().any(|c| c.id == "MFBO" && c.data == vec![9, 9, 9]));
    assert!(AdtFile::new(chunks).is_ok());
}

#[test]
fn truncated_terrain_tile_is_truncated() {
    let buf = tile_bytes(None);
    assert!(matches!(
        AdtFile::from_path(&buf[..buf.len() - 3].to_vec()),
        Err(DecodeError::Truncated { .. })
    ));
}

#[test]
fn loading_the_same_tile_twice_gives_equal_results() {
    let buf = tile_bytes(None);
    let a = AdtFile::from_path(&buf).unwrap();
    let b = AdtFile::from_path(&buf).unwrap();
    assert_eq!(format!("{:?}", a), format!("{:?}", b));
}
