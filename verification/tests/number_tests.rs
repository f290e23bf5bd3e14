use turbohash::numbers::{format_bool, format_u64, parse_bool, parse_u32, parse_u64, parse_usize};

#[test]
fn numbers_are_written_in_base_ten() {
    assert_eq!(format_u64(0), "0");
    assert_eq!(format_u64(7), "7");
    assert_eq!(format_u64(10), "10");
    assert_eq!(format_u64(1_048_576), "1048576");
    assert_eq!(format_u64(u64::MAX), "18446744073709551615");
}

#[test]
fn numbers_are_read_as_std_reads_them() {
    let cases = [
        "0", "7", "007", "+5", "+", "", "-1", "1 ", " 1", "12a", "18446744073709551615",
        "18446744073709551616", "99999999999999999999999", "++1", "1+", "４２", "0x10",
    ];
    for text in cases {
        assert_eq!(parse_u64(text), text.parse::<u64>().ok(), "u64 {:?}", text);
        assert_eq!(parse_u32(text), text.parse::<u32>().ok(), "u32 {:?}", text);
        assert_eq!(parse_usize(text), text.parse::<usize>().ok(), "usize {:?}", text);
    }
    assert_eq!(parse_u32("4294967295"), Some(u32::MAX));
    assert_eq!(parse_u32("4294967296"), None);
}

#[test]
fn written_numbers_are_read_back() {
    for value in [0u64, 1, 9, 10, 99, 100, 65_536, 4_294_967_296, u64::MAX] {
        assert_eq!(parse_u64(&format_u64(value)), Some(value));
    }
}

#[test]
fn truth_values_are_true_or_false() {
    assert_eq!(format_bool(true), "true");
    assert_eq!(format_bool(false), "false");
    assert_eq!(parse_bool("true"), Some(true));
    assert_eq!(parse_bool("false"), Some(false));
    assert_eq!(parse_bool("True"), None);
    assert_eq!(parse_bool("1"), None);
    assert_eq!(parse_bool(""), None);
}
