use pb_print::chars::Chars;
use pb_print::print::{print, PbPrint};
use pb_print::quote::quote_bytes;
use pb_print::sink::{LimitedSink, SinkError, StringSink};
use pb_print::timestamp::Timestamp;

#[test]
fn unsigned_integers_render_in_decimal() {
    assert_eq!(0u32.fmt(), "0");
    assert_eq!(7u32.fmt(), "7");
    assert_eq!(u32::MAX.fmt(), "4294967295");
    assert_eq!(0u64.fmt(), "0");
    assert_eq!(1000000u64.fmt(), "1000000");
    assert_eq!(u64::MAX.fmt(), "18446744073709551615");
}

#[test]
fn signed_integers_render_with_a_sign() {
    assert_eq!(42i32.fmt(), "42");
    assert_eq!((-1i32).fmt(), "-1");
    assert_eq!(i32::MIN.fmt(), "-2147483648");
    assert_eq!(i32::MAX.fmt(), "2147483647");
    assert_eq!((-57i64).fmt(), "-57");
    assert_eq!(i64::MIN.fmt(), "-9223372036854775808");
    assert_eq!(i64::MAX.fmt(), "9223372036854775807");
}

#[test]
fn integer_text_parses_back_exactly() {
    for n in [0i64, 1, -1, 999, -1000, i64::MIN, i64::MAX] {
        let text = n.fmt();
        assert!(!text.contains(',') && !text.contains('_') && !text.contains(' '));
        assert_eq!(text.parse::<i64>().unwrap(), n);
    }
    for n in [0u64, 9, 10, u64::MAX] {
        let text = n.fmt();
        assert!(!text.contains(',') && !text.contains('_') && !text.contains(' '));
        assert_eq!(text.parse::<u64>().unwrap(), n);
    }
}

#[test]
fn booleans_render_as_their_literals() {
    assert_eq!(true.fmt(), "true");
    assert_eq!(false.fmt(), "false");
}

#[test]
fn text_renders_verbatim() {
    assert_eq!("a \"quoted\" \\ line\n".fmt(), "a \"quoted\" \\ line\n");
    assert_eq!(String::from("héllo").fmt(), "héllo");
    assert_eq!(Chars::from_string(String::from("shared héllo")).fmt(), "shared héllo");
}

#[test]
fn byte_sequences_dispatch_to_the_quoting_algorithm() {
    let raw: &[u8] = b"A\n\x00\xff\"\\z";
    let direct = quote_bytes(raw);
    assert_eq!(raw.fmt(), direct);
    assert_eq!(raw.to_vec().fmt(), direct);
    let shared = bytes::Bytes::from_static(b"A\n\x00\xff\"\\z");
    assert_eq!(shared.fmt(), direct);
}

#[test]
fn timestamps_render_their_non_default_fields() {
    assert_eq!(Timestamp::new(0, 0).fmt(), "");
    assert_eq!(Timestamp::new(5, 0).fmt(), "seconds: 5");
    assert_eq!(Timestamp::new(0, 7).fmt(), "nanos: 7");
    assert_eq!(Timestamp::new(-3, 500).fmt(), "seconds: -3 nanos: 500");
    assert_eq!(Timestamp::new(1700000000, 999999999).fmt(), "seconds: 1700000000 nanos: 999999999");
}

#[test]
fn print_appends_the_rendering_to_the_sink() {
    let mut sink = StringSink::new();
    assert_eq!(print(&true, &mut sink), Ok(()));
    assert_eq!(print("/", &mut sink), Ok(()));
    assert_eq!(print(&12345u32, &mut sink), Ok(()));
    let raw: &[u8] = &[0x0a];
    assert_eq!(print(raw, &mut sink), Ok(()));
    assert_eq!(sink.into_string(), "true/12345\"\\n\"");
}

#[test]
fn a_failing_sink_fails_the_print_and_nothing_more_runs() {
    let mut sink = LimitedSink::new(0);
    assert_eq!(print(&1u32, &mut sink), Err(SinkError));
    assert_eq!(sink.into_string(), "");

    let mut sink = LimitedSink::new(1);
    assert_eq!(print(&1u32, &mut sink), Ok(()));
    assert_eq!(print(&2u32, &mut sink), Err(SinkError));
    assert_eq!(print(&3u32, &mut sink), Err(SinkError));
    assert_eq!(sink.into_string(), "1");
}
