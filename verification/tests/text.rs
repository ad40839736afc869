use mosaic_core::strmap::sort_strings;
use mosaic_core::text::{parse_i64, parse_usize};

#[test]
fn integers_read_as_std_reads_them() {
    for s in ["0", "42", "-7", "+8", "9223372036854775807", "-9223372036854775808", "007"] {
        assert_eq!(parse_i64(s), s.parse::<i64>().ok(), "{s}");
    }
    for s in ["", "-", "+", "9223372036854775808", "-9223372036854775809", "1 ", " 1", "1a", "--1"] {
        assert_eq!(parse_i64(s), None, "{s}");
        assert_eq!(s.parse::<i64>().ok(), None, "{s}");
    }
    for s in ["0", "+5", "18446744073709551615", "-0", "-1", "", "18446744073709551616"] {
        assert_eq!(parse_usize(s), s.parse::<usize>().ok(), "{s}");
    }
}

#[test]
fn strings_sort_ascending() {
    let v: Vec<String> = ["b", "a", "ab", "", "b"].iter().map(|s| s.to_string()).collect();
    let mut expected = v.clone();
    expected.sort();
    assert_eq!(sort_strings(v), expected);
}
