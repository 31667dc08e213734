use gles20::enums::DataType;
use gles20::wrapper::byte_extent;
use gles20::wrapper::active_from_driver;
use gles20::wrapper::c_string_bytes;
use gles20::wrapper::clip_to_reported;
use gles20::wrapper::constant_string_from_driver;
use gles20::wrapper::driver_flag;
use gles20::wrapper::flag_byte;
use gles20::wrapper::handle_slots;
use gles20::wrapper::matrix_uniform_count;
use gles20::wrapper::text_from_driver;
use gles20::wrapper::vector_uniform_count;

#[test]
fn zero_handles_give_an_empty_buffer_not_an_error() {
    let slots = handle_slots(0);
    assert_eq!(slots.len(), 0);
}

#[test]
fn requested_handle_count_is_exact() {
    for n in [1usize, 2, 3, 16, 100] {
        let slots = handle_slots(n);
        assert_eq!(slots.len(), n);
        assert!(slots.iter().all(|&h| h == 0));
    }
}

#[test]
fn reported_length_zero_gives_empty_string() {
    let buf = b"leftover junk in the buffer".to_vec();
    let got = text_from_driver(buf, 0);
    assert_eq!(got, Ok(String::new()));
}

#[test]
fn negative_reported_length_gives_empty_string() {
    let got = text_from_driver(b"xyz".to_vec(), -3);
    assert_eq!(got, Ok(String::new()));
}

#[test]
fn reported_length_truncates_to_exactly_that_many_bytes() {
    let buf = b"hello world".to_vec();
    let got = text_from_driver(buf, 5).unwrap();
    assert_eq!(got.len(), 5);
    assert_eq!(got, "hello");
}

#[test]
fn reported_length_beyond_buffer_keeps_whole_buffer() {
    let got = text_from_driver(b"log".to_vec(), 99).unwrap();
    assert_eq!(got, "log");
}

#[test]
fn invalid_utf8_surfaces_as_error_not_replacement() {
    let buf = vec![0xFF, 0xFE, 0x61];
    assert!(text_from_driver(buf, 3).is_err());
}

#[test]
fn invalid_bytes_past_reported_length_do_not_matter() {
    let buf = vec![0x61, 0x62, 0xFF, 0xFE];
    assert_eq!(text_from_driver(buf, 2).unwrap(), "ab");
}

#[test]
fn missing_constant_string_reads_as_empty() {
    assert_eq!(constant_string_from_driver(None), Ok(String::new()));
}

#[test]
fn constant_string_is_decoded_whole() {
    let got = constant_string_from_driver(Some(b"OpenGL ES 2.0".to_vec()));
    assert_eq!(got.unwrap(), "OpenGL ES 2.0");
}

#[test]
fn constant_string_with_invalid_encoding_is_an_error() {
    assert!(constant_string_from_driver(Some(vec![0xC3, 0x28])).is_err());
}

#[test]
fn active_query_with_zero_length_is_an_error() {
    let mut buf = b"name".to_vec();
    buf.resize(256, 0);
    assert!(active_from_driver(buf, 0, 1, 0x8B50).is_err());
}

#[test]
fn active_query_assembles_reported_fields() {
    let mut buf = b"position".to_vec();
    buf.resize(256, 0);
    let a = active_from_driver(buf, 8, 1, 0x8B50).unwrap();
    assert_eq!(a.name, "position");
    assert_eq!(a.size, 1);
    assert_eq!(a.type_, DataType::FLOAT_VEC2);
    assert_eq!(a.length, 8);
}

#[test]
fn active_query_with_unknown_type_falls_back_to_byte() {
    let a = active_from_driver(b"n".to_vec(), 1, 2, 0xDEAD).unwrap();
    assert_eq!(a.type_, DataType::BYTE);
}

#[test]
fn clip_keeps_exactly_the_reported_prefix() {
    assert_eq!(clip_to_reported(vec![1u32, 2, 3, 4], 2), vec![1, 2]);
    assert_eq!(clip_to_reported(vec![1u32, 2, 3], -1), Vec::<u32>::new());
    assert_eq!(clip_to_reported(vec![1u32, 2, 3], 10), vec![1, 2, 3]);
}

#[test]
fn c_string_bytes_appends_terminator() {
    assert_eq!(c_string_bytes(b"abc"), Ok(vec![97, 98, 99, 0]));
    assert_eq!(c_string_bytes(b""), Ok(vec![0]));
}

#[test]
fn embedded_terminator_is_rejected() {
    assert!(c_string_bytes(b"a\0b").is_err());
}

#[test]
fn driver_booleans_read_as_true_only_on_gl_true() {
    assert!(driver_flag(1));
    assert!(!driver_flag(0));
    assert!(!driver_flag(2));
}

#[test]
fn boolean_arguments_marshal_to_the_two_constants() {
    assert_eq!(flag_byte(true), 1);
    assert_eq!(flag_byte(false), 0);
}

#[test]
fn byte_extent_multiplies_and_checks() {
    assert_eq!(byte_extent(4, 3), Some(12));
    assert_eq!(byte_extent(0, 7), Some(0));
    assert_eq!(byte_extent(usize::MAX, 2), None);
}

#[test]
fn uniform_counts_follow_the_calling_convention() {
    assert_eq!(vector_uniform_count(8, 2), 4);
    assert_eq!(vector_uniform_count(9, 4), 2);
    assert_eq!(matrix_uniform_count(8, 2), 2);
    assert_eq!(matrix_uniform_count(7, 2), 1);
    assert_eq!(matrix_uniform_count(16, 4), 1);
    assert_eq!(matrix_uniform_count(18, 3), 2);
}
