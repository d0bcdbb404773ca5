use pb_print::quote::quote_bytes;

#[test]
fn quote_empty_is_a_pair_of_quotes() {
    assert_eq!(quote_bytes(&[]), "\"\"");
}

#[test]
fn quote_escapes_a_double_quote_byte() {
    assert_eq!(quote_bytes(&[0x22]), "\"\\\"\"");
}

#[test]
fn quote_escapes_a_backslash_byte() {
    assert_eq!(quote_bytes(&[0x5c]), "\"\\\\\"");
}

#[test]
fn quote_octal_escapes_control_and_high_bytes() {
    assert_eq!(quote_bytes(&[0x00, 0xff]), "\"\\000\\377\"");
}

#[test]
fn quote_mixes_plain_bytes_and_escapes() {
    assert_eq!(quote_bytes(&[0x41, 0x0a, 0x42]), "\"A\\nB\"");
}

#[test]
fn quote_escapes_tab_and_carriage_return() {
    assert_eq!(quote_bytes(&[0x09, 0x0d]), "\"\\t\\r\"");
}

#[test]
fn quote_keeps_printable_ascii_verbatim() {
    assert_eq!(quote_bytes(b"Hello, world! 0123"), "\"Hello, world! 0123\"");
}

#[test]
fn quote_octal_escapes_are_three_digits_each() {
    assert_eq!(quote_bytes(&[0x01, 0x1f, 0x7f, 0x80]), "\"\\001\\037\\177\\200\"");
}

#[test]
fn quote_matches_the_text_format_reference() {
    // protobuf-support additionally escapes the single-quote byte, so the
    // comparison stays away from it.
    let cases: [&[u8]; 5] = [
        b"",
        b"plain text",
        b"a\\023",
        b"a\r\n\t \"\\",
        b"\x00\x01\x7f\x80\xfe\xff",
    ];
    for bytes in cases {
        let mut reference = String::new();
        protobuf_support::text_format::quote_bytes_to(bytes, &mut reference);
        assert_eq!(quote_bytes(bytes), reference);
    }
}
