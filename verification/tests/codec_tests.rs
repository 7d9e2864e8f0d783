use shell_core::codec::{build_number_from_minutes, encode, parse_u64};

/// A plain reference rendering of `m` in base 36, for comparison.
fn base36_reference(mut m: u64) -> String {
    let digits = b"0123456789ABCDEFGHIJKLMNOPQRSTUVWXYZ";
    let mut out: Vec<char> = Vec::new();
    if m == 0 {
        out.push('0');
    }
    while m > 0 {
        out.push(digits[(m % 36) as usize] as char);
        m /= 36;
    }
    out.reverse();
    out.into_iter().collect()
}

#[test]
fn encode_zero_is_all_zeros() {
    assert_eq!(encode(0), "00000");
}

#[test]
fn encode_single_digit_boundary() {
    assert_eq!(encode(35), "0000Z");
    assert_eq!(encode(36), "00010");
}

#[test]
fn encode_is_five_base36_chars() {
    let samples: Vec<u64> = vec![
        0,
        1,
        9,
        10,
        35,
        36,
        1295,
        1296,
        46655,
        46656,
        1679615,
        1679616,
        60466175,
        60466176,
        29380573,
        u64::MAX - 1,
        u64::MAX,
    ];
    for m in samples {
        let s = encode(m);
        assert_eq!(s.len(), 5);
        for c in s.chars() {
            assert!(c.is_ascii_digit() || c.is_ascii_uppercase());
        }
    }
}

#[test]
fn encode_truncates_to_last_five() {
    // Values whose full base-36 rendering exceeds five digits: the encoding
    // is the last five characters of that rendering, not a re-encoding.
    let samples: Vec<u64> = vec![60466176, 60466213, 2176782336, 123456789012345, u64::MAX];
    for m in samples {
        let full = base36_reference(m);
        assert!(full.len() > 5);
        let tail: String = full.chars().skip(full.len() - 5).collect();
        assert_eq!(encode(m), tail);
    }
}

#[test]
fn encode_five_digit_value_needs_no_padding() {
    // 36^4 renders as exactly five digits; padding leaves it unchanged.
    assert_eq!(base36_reference(1679616), "10000");
    assert_eq!(encode(1679616), "10000");
    assert_eq!(encode(60466175), "ZZZZZ");
}

#[test]
fn parse_accepts_plain_and_signed_decimals() {
    assert_eq!(parse_u64("0"), Some(0));
    assert_eq!(parse_u64("42"), Some(42));
    assert_eq!(parse_u64("+42"), Some(42));
    assert_eq!(parse_u64("007"), Some(7));
    assert_eq!(parse_u64("18446744073709551615"), Some(u64::MAX));
}

#[test]
fn parse_rejects_malformed_and_overflowing_text() {
    assert_eq!(parse_u64(""), None);
    assert_eq!(parse_u64("+"), None);
    assert_eq!(parse_u64("abc"), None);
    assert_eq!(parse_u64("-5"), None);
    assert_eq!(parse_u64("1e3"), None);
    assert_eq!(parse_u64("12 "), None);
    assert_eq!(parse_u64("1.0"), None);
    assert_eq!(parse_u64("18446744073709551616"), None);
}

#[test]
fn build_number_from_parseable_minutes() {
    assert_eq!(build_number_from_minutes("0"), "00000");
    assert_eq!(build_number_from_minutes("35"), "0000Z");
    assert_eq!(build_number_from_minutes("36"), "00010");
    assert_eq!(build_number_from_minutes("29380573"), encode(29380573));
}

#[test]
fn build_number_from_bad_minutes_is_sentinel() {
    assert_eq!(build_number_from_minutes(""), "00000");
    assert_eq!(build_number_from_minutes("abc"), "00000");
    assert_eq!(build_number_from_minutes("-1"), "00000");
    assert_eq!(build_number_from_minutes("12x"), "00000");
    assert_eq!(build_number_from_minutes("99999999999999999999"), "00000");
}
