use simple_cmd::text::{decimal_string, join, text_or_empty};
use simple_cmd::Vec8ToString;

#[test]
fn decimal_of_small_numbers() {
    assert_eq!(decimal_string(0), "0");
    assert_eq!(decimal_string(7), "7");
    assert_eq!(decimal_string(10), "10");
    assert_eq!(decimal_string(127), "127");
    assert_eq!(decimal_string(-1), "-1");
    assert_eq!(decimal_string(-100), "-100");
}

#[test]
fn decimal_of_the_extremes() {
    assert_eq!(decimal_string(i32::MAX), "2147483647");
    assert_eq!(decimal_string(i32::MIN), "-2147483648");
}

#[test]
fn decimal_agrees_with_the_formatter() {
    for n in [-1000001, -99, -10, -9, 1, 9, 99, 100, 101, 65535, 1000000] {
        assert_eq!(decimal_string(n), format!("{}", n));
    }
}

#[test]
fn join_puts_single_spaces_between_words() {
    assert_eq!(join(&vec![]), "");
    assert_eq!(join(&vec!["a".to_string()]), "a");
    assert_eq!(join(&vec!["a".to_string(), "b".to_string(), "c".to_string()]), "a b c");
    assert_eq!(join(&vec!["".to_string(), "".to_string()]), " ");
}

#[test]
fn valid_utf8_reads_as_text() {
    let bytes: Vec<u8> = "héllo\n".as_bytes().to_vec();
    assert_eq!(bytes.as_str(), Some("héllo\n"));
    assert_eq!(text_or_empty(&bytes), "héllo\n");
    let empty: Vec<u8> = Vec::new();
    assert_eq!(empty.as_str(), Some(""));
}

#[test]
fn invalid_utf8_reads_as_nothing() {
    let bytes: Vec<u8> = vec![b'a', 0xff, b'b'];
    assert_eq!(bytes.as_str(), None);
    assert_eq!(text_or_empty(&bytes), "");
    let truncated: Vec<u8> = vec![0xe2, 0x82];
    assert_eq!(truncated.as_str(), None);
}
