use pcan_basic::error::PcanError;
use pcan_basic::param::{
    flag_buffer, flag_from_output, masked_flag_from_output, status_result, string_from_output,
    u16_from_le_bytes, u16_pair_from_output, u32_from_le_bytes, u32_from_output,
    u32_pair_from_output, u32_to_le_bytes,
};
use pcan_basic::text::{split_lines, trim_nuls, trimmed_text};

const OK: u32 = 0;
const BUSOFF: u32 = 0x10;
const UNDOCUMENTED: u32 = 3;

#[test]
fn words_round_trip_through_little_endian_buffers() {
    assert_eq!(u32_to_le_bytes(0x1234_5678), [0x78, 0x56, 0x34, 0x12]);
    assert_eq!(u32_from_le_bytes(&[0x78, 0x56, 0x34, 0x12]), 0x1234_5678);
    assert_eq!(u32_from_le_bytes(&u32_to_le_bytes(0xFFFF_FFFF)), 0xFFFF_FFFF);
    assert_eq!(u32_from_le_bytes(&u32_to_le_bytes(0)), 0);
    assert_eq!(u16_from_le_bytes(&[0xCD, 0xAB]), 0xABCD);
}

#[test]
fn status_words_map_to_results() {
    assert_eq!(status_result(OK), Ok(()));
    assert_eq!(status_result(BUSOFF), Err(PcanError::BusOff));
    assert_eq!(status_result(UNDOCUMENTED), Err(PcanError::Unknown));
}

#[test]
fn numeric_parameters_decode_their_buffer() {
    assert_eq!(u32_from_output(OK, &[0x2A, 0, 0, 0]), Ok(42));
    assert_eq!(u32_from_output(BUSOFF, &[0x2A, 0, 0, 0]), Err(PcanError::BusOff));
    assert_eq!(u32_from_output(UNDOCUMENTED, &[0x2A, 0, 0, 0]), Err(PcanError::Unknown));
}

#[test]
fn flag_buffers_hold_the_on_and_off_values() {
    assert_eq!(flag_buffer(true), [1, 0, 0, 0]);
    assert_eq!(flag_buffer(false), [0, 0, 0, 0]);
}

#[test]
fn strict_flags_accept_only_on_and_off() {
    assert_eq!(flag_from_output(OK, &[1, 0, 0, 0]), Ok(true));
    assert_eq!(flag_from_output(OK, &[0, 0, 0, 0]), Ok(false));
    assert_eq!(flag_from_output(OK, &[2, 0, 0, 0]), Err(PcanError::Unknown));
    assert_eq!(flag_from_output(BUSOFF, &[1, 0, 0, 0]), Err(PcanError::BusOff));
}

#[test]
fn masked_flags_test_their_bits() {
    // The feature word 0b101 has the first and third feature bits.
    assert_eq!(masked_flag_from_output(OK, &[0b101, 0, 0, 0], 0x1), Ok(true));
    assert_eq!(masked_flag_from_output(OK, &[0b101, 0, 0, 0], 0x2), Ok(false));
    assert_eq!(masked_flag_from_output(OK, &[0b101, 0, 0, 0], 0x4), Ok(true));
    assert_eq!(masked_flag_from_output(BUSOFF, &[1, 0, 0, 0], 0x1), Err(PcanError::BusOff));
}

#[test]
fn word_pairs_split_their_buffer() {
    assert_eq!(u16_pair_from_output(OK, &[0x1C, 0x00, 0x2B, 0x01]), Ok((0x001C, 0x012B)));
    assert_eq!(
        u32_pair_from_output(OK, &[1, 0, 0, 0, 2, 0, 0, 0]),
        Ok((1, 2))
    );
    assert_eq!(
        u32_pair_from_output(BUSOFF, &[0; 8]),
        Err(PcanError::BusOff)
    );
}

#[test]
fn text_parameters_strip_their_padding() {
    let mut buffer = [0u8; 33];
    buffer[..8].copy_from_slice(b"PCAN-USB");
    assert_eq!(string_from_output(OK, &buffer), Ok(String::from("PCAN-USB")));
    assert_eq!(string_from_output(BUSOFF, &buffer), Err(PcanError::BusOff));
}

#[test]
fn text_parameters_refuse_bytes_that_are_not_utf8() {
    let buffer = [0xFFu8, 0xFE, 0, 0];
    assert_eq!(string_from_output(OK, &buffer), Err(PcanError::Unknown));
}

#[test]
fn nul_trimming_strips_both_ends() {
    assert_eq!(trim_nuls("\0\0abc\0"), String::from("abc"));
    assert_eq!(trim_nuls("abc"), String::from("abc"));
    assert_eq!(trim_nuls("\0\0\0"), String::from(""));
    assert_eq!(trim_nuls(""), String::from(""));
    assert_eq!(trim_nuls("a\0b"), String::from("a\0b"));
}

#[test]
fn trimmed_text_validates_and_trims() {
    assert_eq!(trimmed_text(b"hi\0\0"), Some(String::from("hi")));
    assert_eq!(trimmed_text(&[0x80, 0x80]), None);
}

#[test]
fn lines_split_at_line_feeds() {
    assert_eq!(split_lines(""), Vec::<String>::new());
    assert_eq!(split_lines("one"), vec![String::from("one")]);
    assert_eq!(
        split_lines("a\nb\nc"),
        vec![String::from("a"), String::from("b"), String::from("c")]
    );
    // A final line feed closes the last line without opening a new one, and
    // a carriage return before a line feed does not count.
    assert_eq!(split_lines("a\r\nb\n"), vec![String::from("a"), String::from("b")]);
    assert_eq!(split_lines("a\rb"), vec![String::from("a\rb")]);
}
