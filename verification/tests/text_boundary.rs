use aqkanji2koe::error::AqKanji2KoeError;
use aqkanji2koe::text::{nul_terminated_prefix, to_nul_terminated};

#[test]
fn encodes_with_one_terminator() {
    assert_eq!(to_nul_terminated("abc"), Ok(vec![97, 98, 99, 0]));
}

#[test]
fn encodes_empty_text() {
    assert_eq!(to_nul_terminated(""), Ok(vec![0]));
}

#[test]
fn encodes_multibyte_text_as_utf8() {
    let mut expected = "こ".as_bytes().to_vec();
    expected.push(0);
    assert_eq!(to_nul_terminated("こ"), Ok(expected));
}

#[test]
fn rejects_interior_nul() {
    assert_eq!(
        to_nul_terminated("a\0b"),
        Err(AqKanji2KoeError::InvalidEncoding)
    );
    assert_eq!(
        to_nul_terminated("\0"),
        Err(AqKanji2KoeError::InvalidEncoding)
    );
}

#[test]
fn prefix_stops_at_first_nul() {
    assert_eq!(nul_terminated_prefix(&[65, 66, 0, 67, 0]), vec![65, 66]);
}

#[test]
fn prefix_of_zero_filled_buffer_is_empty() {
    let buffer = [0u8; 256];
    assert_eq!(nul_terminated_prefix(&buffer), Vec::<u8>::new());
}

#[test]
fn prefix_without_nul_is_the_whole_buffer() {
    assert_eq!(nul_terminated_prefix(&[1, 2, 3]), vec![1, 2, 3]);
}

#[test]
fn prefix_of_empty_buffer_is_empty() {
    assert_eq!(nul_terminated_prefix(&[]), Vec::<u8>::new());
}
