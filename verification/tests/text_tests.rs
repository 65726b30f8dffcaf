use offline_chess_puzzles::decimal::{format_i64, format_u64, parse_i32, parse_usize};
use offline_chess_puzzles::text::{join_with_spaces, split_whitespace};

#[test]
fn words_are_split_at_whitespace() {
    assert_eq!(split_whitespace("  e2e4  e7e5\tg1f3\n"), vec![String::from("e2e4"), String::from("e7e5"), String::from("g1f3")]);
    assert_eq!(split_whitespace("   "), Vec::<String>::new());
}

#[test]
fn words_are_joined_with_spaces() {
    let ws = vec![String::from("a"), String::from("b"), String::from("c")];
    assert_eq!(join_with_spaces(&ws), String::from("a b c"));
}

#[test]
fn numbers_are_read_like_parse() {
    assert_eq!(parse_i32("-42"), Some(-42));
    assert_eq!(parse_i32("+7"), Some(7));
    assert_eq!(parse_i32("2147483647"), Some(i32::MAX));
    assert_eq!(parse_i32("2147483648"), None);
    assert_eq!(parse_i32("-2147483648"), Some(i32::MIN));
    assert_eq!(parse_i32(""), None);
    assert_eq!(parse_i32("12a"), None);
    assert_eq!(parse_usize("20000"), Some(20000));
    assert_eq!(parse_usize("-1"), None);
}

#[test]
fn printed_numbers_read_back() {
    for n in [0i64, 7, -7, 1234567, i32::MIN as i64, i32::MAX as i64] {
        assert_eq!(format_i64(n), n.to_string());
        assert_eq!(parse_i32(&format_i64(n)), Some(n as i32));
    }
    assert_eq!(format_u64(20000), String::from("20000"));
    assert_eq!(parse_usize(&format_u64(20000)), Some(20000));
}
