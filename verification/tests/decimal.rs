use consul::decimal::{parse_index, u64_to_string};

#[test]
fn writes_numbers_in_decimal() {
    assert_eq!(u64_to_string(0), "0");
    assert_eq!(u64_to_string(7), "7");
    assert_eq!(u64_to_string(10), "10");
    assert_eq!(u64_to_string(1234567890), "1234567890");
    assert_eq!(u64_to_string(u64::MAX), "18446744073709551615");
}

#[test]
fn reads_numbers_from_text() {
    assert_eq!(parse_index(b"0"), Some(0));
    assert_eq!(parse_index(b"42"), Some(42));
    assert_eq!(parse_index(b"+42"), Some(42));
    assert_eq!(parse_index(b"0042"), Some(42));
    assert_eq!(parse_index(b"18446744073709551615"), Some(u64::MAX));
}

#[test]
fn refuses_what_is_no_number() {
    assert_eq!(parse_index(b""), None);
    assert_eq!(parse_index(b"+"), None);
    assert_eq!(parse_index(b"-1"), None);
    assert_eq!(parse_index(b" 1"), None);
    assert_eq!(parse_index(b"1 "), None);
    assert_eq!(parse_index(b"12a"), None);
    assert_eq!(parse_index(b"++1"), None);
    assert_eq!(parse_index(b"18446744073709551616"), None);
    assert_eq!(parse_index(b"99999999999999999999999"), None);
    assert_eq!(parse_index(&[0xff, 0x31]), None);
}

#[test]
fn reading_agrees_with_the_standard_parser() {
    let samples: [&str; 12] = [
        "", "+", "-", "0", "+0", "-0", "007", "1_000", "18446744073709551615",
        "18446744073709551616", "+18446744073709551615", "1e3",
    ];
    for s in samples.iter() {
        assert_eq!(parse_index(s.as_bytes()), s.parse::<u64>().ok());
    }
}

#[test]
fn text_written_is_read_back() {
    let samples: [u64; 6] = [0, 1, 9, 10, 4096, u64::MAX];
    for n in samples.iter() {
        assert_eq!(parse_index(u64_to_string(*n).as_bytes()), Some(*n));
        assert_eq!(u64_to_string(*n), n.to_string());
    }
}
