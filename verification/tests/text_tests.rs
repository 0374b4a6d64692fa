use vdfs4_inspect::string_from_bytes;
use vdfs4_inspect::text::find_text_len;

#[test]
fn text_ends_at_the_first_zero_byte() {
    assert_eq!(string_from_bytes(b"ab\0cd"), "ab");
    assert_eq!(string_from_bytes(b"ab\0cd\0"), "ab");
    assert_eq!(find_text_len(b"ab\0cd"), 2);
}

#[test]
fn text_without_a_zero_byte_is_the_whole_field() {
    assert_eq!(string_from_bytes(b"2007"), "2007");
    assert_eq!(find_text_len(b"2007"), 4);
}

#[test]
fn text_of_an_empty_field_is_empty() {
    assert_eq!(string_from_bytes(b""), "");
    assert_eq!(find_text_len(b""), 0);
}

#[test]
fn text_of_a_field_that_starts_with_zero_is_empty() {
    assert_eq!(string_from_bytes(b"\0abc"), "");
    assert_eq!(find_text_len(b"\0abc"), 0);
    assert_eq!(string_from_bytes(&[0u8; 16]), "");
}

#[test]
fn ill_formed_bytes_are_replaced_not_refused() {
    assert_eq!(string_from_bytes(&[0x66, 0xff, 0x6f]), "f\u{fffd}o");
    assert_eq!(string_from_bytes(&[0xc3]), "\u{fffd}");
    assert_eq!(string_from_bytes(&[0x80, 0x00, 0x41]), "\u{fffd}");
}

#[test]
fn well_formed_utf8_is_decoded() {
    assert_eq!(string_from_bytes("héllo".as_bytes()), "héllo");
    assert_eq!(string_from_bytes(&[0xe2, 0x82, 0xac, 0x00, 0x41]), "€");
}

#[test]
fn text_differs_from_its_bytes() {
    let s = string_from_bytes(&[0x41, 0x42, 0x00]);
    assert_eq!(s.len(), 2);
    assert_eq!(s.chars().count(), 2);
    assert_eq!(s, "AB");
}
