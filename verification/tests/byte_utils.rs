use asset_formats::byte_utils::{
    chars_of, i32_from_le, push_chars, reverse_chars, same_text, u32_from_le, VecUtils,
};
use asset_formats::common::DecodeError;

#[test]
fn reads_little_endian_u32() {
    let buf: Vec<u8> = vec![0x78, 0x56, 0x34, 0x12, 0xff];
    assert_eq!(buf.get_u32(0).unwrap(), 0x1234_5678);
    assert_eq!(buf.get_u32(1).unwrap(), 0xff12_3456);
}

#[test]
fn u32_window_past_the_end_is_out_of_range() {
    let buf: Vec<u8> = vec![0x78, 0x56, 0x34, 0x12, 0xff];
    assert!(matches!(
        buf.get_u32(2),
        Err(DecodeError::OutOfRange { offset: 2, width: 4, len: 5 })
    ));
    assert!(matches!(
        buf.get_u32(usize::MAX),
        Err(DecodeError::OutOfRange { width: 4, len: 5, .. })
    ));
}

#[test]
fn reads_little_endian_u16() {
    let buf: Vec<u8> = vec![0x34, 0x12, 0xff];
    assert_eq!(buf.get_u16(0).unwrap(), 0x1234);
    assert_eq!(buf.get_u16(1).unwrap(), 0xff12);
    assert!(matches!(
        buf.get_u16(2),
        Err(DecodeError::OutOfRange { offset: 2, width: 2, len: 3 })
    ));
}

#[test]
fn reads_signed_numbers_in_twos_complement() {
    let buf: Vec<u8> = vec![0xff, 0xff, 0xff, 0xff, 0x00, 0x00, 0x00, 0x80, 0xff, 0xff, 0xff, 0x7f];
    assert_eq!(buf.get_i32(0).unwrap(), -1);
    assert_eq!(buf.get_i32(4).unwrap(), i32::MIN);
    assert_eq!(buf.get_i32(8).unwrap(), i32::MAX);
    assert_eq!(buf.get_i32(0).unwrap(), i32::from_le_bytes([0xff, 0xff, 0xff, 0xff]));
}

#[test]
fn float_reader_returns_the_bit_pattern() {
    let buf: Vec<u8> = 1.5f32.to_le_bytes().to_vec();
    let bits = buf.get_f32(0).unwrap();
    assert_eq!(bits, 0x3fc0_0000);
    assert_eq!(f32::from_bits(bits), 1.5f32);
}

#[test]
fn reads_single_bytes_and_raw_windows() {
    let buf: Vec<u8> = vec![1, 2, 3, 4, 5];
    assert_eq!(buf.get_byte(4).unwrap(), 5);
    assert!(matches!(
        buf.get_byte(5),
        Err(DecodeError::OutOfRange { offset: 5, width: 1, len: 5 })
    ));
    assert_eq!(buf.get_two_bytes(3).unwrap(), [4, 5]);
    assert_eq!(buf.get_four_bytes(1).unwrap(), [2, 3, 4, 5]);
    assert!(matches!(
        buf.get_two_bytes(4),
        Err(DecodeError::OutOfRange { offset: 4, width: 2, len: 5 })
    ));
    assert!(matches!(
        buf.get_four_bytes(2),
        Err(DecodeError::OutOfRange { offset: 2, width: 4, len: 5 })
    ));
}

#[test]
fn slices_have_the_same_readers() {
    let buf: Vec<u8> = vec![9, 0x78, 0x56, 0x34, 0x12];
    let window: &[u8] = &buf[1..];
    assert_eq!(window.get_u32(0).unwrap(), 0x1234_5678);
    assert_eq!(window.get_byte(0).unwrap(), 0x78);
}

#[test]
fn reads_a_string_of_given_length() {
    let buf: Vec<u8> = b"xxhelloyy".to_vec();
    assert_eq!(buf.get_string(2, 5).unwrap(), "hello");
    assert_eq!(buf.get_string(9, 0).unwrap(), "");
    assert!(matches!(
        buf.get_string(5, 5),
        Err(DecodeError::OutOfRange { offset: 5, width: 5, len: 9 })
    ));
    assert!(matches!(
        buf.get_string(10, 0),
        Err(DecodeError::OutOfRange { offset: 10, width: 0, len: 9 })
    ));
}

#[test]
fn string_that_is_not_utf8_is_an_encoding_failure() {
    let buf: Vec<u8> = vec![b'a', 0xff, 0xfe, b'b'];
    assert!(matches!(buf.get_string(0, 4), Err(DecodeError::Encoding { offset: 0 })));
    assert!(matches!(buf.get_string(1, 2), Err(DecodeError::Encoding { offset: 1 })));
    assert_eq!(buf.get_string(3, 1).unwrap(), "b");
    // A window that cuts a character in two is no text either.
    let cut: Vec<u8> = "é".as_bytes().to_vec();
    assert!(matches!(cut.get_string(0, 1), Err(DecodeError::Encoding { offset: 0 })));
}

#[test]
fn reversed_string_reverses_characters_not_bytes() {
    let buf: Vec<u8> = "aéb!".as_bytes().to_vec();
    assert_eq!(buf.len(), 5);
    assert_eq!(buf.get_reversed_string(0, 5).unwrap(), "!béa");
    let tag: Vec<u8> = b"REVM".to_vec();
    assert_eq!(tag.get_reversed_string(0, 4).unwrap(), "MVER");
    assert!(matches!(
        tag.get_reversed_string(1, 4),
        Err(DecodeError::OutOfRange { offset: 1, width: 4, len: 4 })
    ));
}

#[test]
fn reverse_chars_keeps_every_character() {
    assert_eq!(reverse_chars("abc"), "cba");
    assert_eq!(reverse_chars(""), "");
    assert_eq!(reverse_chars("日本語"), "語本日");
}

#[test]
fn null_terminated_string_stops_at_the_first_zero() {
    let buf: Vec<u8> = b"ab\0cde\0f".to_vec();
    assert_eq!(buf.get_string_null_terminated(0).unwrap(), "ab");
    assert_eq!(buf.get_string_null_terminated(1).unwrap(), "b");
    assert_eq!(buf.get_string_null_terminated(2).unwrap(), "");
    assert_eq!(buf.get_string_null_terminated(3).unwrap(), "cde");
}

#[test]
fn null_terminated_string_without_terminator_runs_to_the_end() {
    let buf: Vec<u8> = b"ab\0cde\0f".to_vec();
    assert_eq!(buf.get_string_null_terminated(7).unwrap(), "f");
    assert_eq!(buf.get_string_null_terminated(8).unwrap(), "");
}

#[test]
fn null_terminated_string_beyond_the_buffer_is_out_of_range() {
    let buf: Vec<u8> = b"ab\0".to_vec();
    assert!(matches!(
        buf.get_string_null_terminated(4),
        Err(DecodeError::OutOfRange { offset: 4, width: 0, len: 3 })
    ));
}

#[test]
fn null_terminated_string_that_is_not_utf8_is_an_encoding_failure() {
    let buf: Vec<u8> = vec![b'a', 0, 0xc3, 0x28, 0, b'z'];
    assert_eq!(buf.get_string_null_terminated(0).unwrap(), "a");
    assert!(matches!(
        buf.get_string_null_terminated(2),
        Err(DecodeError::Encoding { offset: 2 })
    ));
}

#[test]
fn packed_strings_are_read_in_order() {
    let buf: Vec<u8> = b"one\0two\0\0three\0".to_vec();
    assert_eq!(
        buf.get_null_terminated_strings().unwrap(),
        vec!["one".to_string(), "two".to_string(), "".to_string(), "three".to_string()]
    );
}

#[test]
fn packed_strings_drop_what_follows_the_last_zero() {
    let buf: Vec<u8> = b"one\0rest".to_vec();
    assert_eq!(buf.get_null_terminated_strings().unwrap(), vec!["one".to_string()]);
    let none: Vec<u8> = b"rest".to_vec();
    assert!(none.get_null_terminated_strings().unwrap().is_empty());
    let empty: Vec<u8> = Vec::new();
    assert!(empty.get_null_terminated_strings().unwrap().is_empty());
}

#[test]
fn packed_strings_fail_at_the_first_text_that_is_not_utf8() {
    let buf: Vec<u8> = vec![b'o', b'k', 0, 0xff, 0, 0xfe, 0];
    assert!(matches!(
        buf.get_null_terminated_strings(),
        Err(DecodeError::Encoding { offset: 3 })
    ));
}

#[test]
fn same_text_compares_letter_for_letter() {
    assert!(same_text("MVER", "MVER"));
    assert!(!same_text("MVER", "MVEr"));
    assert!(!same_text("MVER", "MVE"));
    assert!(same_text("", ""));
    assert!(same_text("é", "é"));
}

#[test]
fn four_bytes_spell_a_number_least_significant_first() {
    assert_eq!(u32_from_le([0x78, 0x56, 0x34, 0x12]), 0x1234_5678);
    assert_eq!(u32_from_le([0xff, 0xff, 0xff, 0xff]), u32::MAX);
    assert_eq!(i32_from_le([0xfe, 0xff, 0xff, 0xff]), -2);
    assert_eq!(i32_from_le([0x00, 0x00, 0x00, 0x80]), i32::MIN);
    for word in [[1u8, 2, 3, 4], [0, 0, 0, 0], [255, 0, 255, 0], [9, 8, 7, 0x80]] {
        assert_eq!(u32_from_le(word), u32::from_le_bytes(word));
        assert_eq!(i32_from_le(word), i32::from_le_bytes(word));
    }
}

#[test]
fn characters_are_taken_and_appended_in_order() {
    assert_eq!(chars_of("aé!"), vec!['a', 'é', '!']);
    assert!(chars_of("").is_empty());
    let mut text = String::from("x");
    push_chars(&mut text, &vec!['y', 'é']);
    push_chars(&mut text, &Vec::new());
    assert_eq!(text, "xyé");
}
