use ferrisdex::text::{contains_str, parse_i64, replace_str, starts_with, str_eq, to_ascii_lowercase};

#[test]
fn string_helpers_match_std() {
    let samples = ["", "a", "abc", "ABC-def", "Ünïcode", "aaaa", "abab", "-", "+5"];
    for a in samples {
        assert_eq!(to_ascii_lowercase(a), a.to_ascii_lowercase());
        assert_eq!(parse_i64(a), a.parse::<i64>().ok(), "{}", a);
        for b in samples {
            assert_eq!(str_eq(a, b), a == b);
            assert_eq!(starts_with(a, b), a.starts_with(b));
            assert_eq!(contains_str(a, b), a.contains(b));
            if !b.is_empty() {
                assert_eq!(replace_str(a, b, "xy"), a.replace(b, "xy"), "{} {}", a, b);
            }
        }
    }
    assert_eq!(replace_str("aaaa", "aa", "b"), "bb");
    assert_eq!(replace_str("aaa", "aa", "b"), "ba");
}
