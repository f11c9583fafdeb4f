use tauri_plugin_oauth::sentinel::{is_exit, EXIT};
use tauri_plugin_oauth::text::{
    append, append_decimal, equal, find, matches_at, replace, starts_with,
};

fn numeral(n: u64) -> Vec<u8> {
    let mut out = Vec::new();
    append_decimal(&mut out, n);
    out
}

#[test]
fn exit_is_the_four_magic_bytes() {
    assert_eq!(EXIT, [1, 3, 3, 7]);
}

#[test]
fn is_exit_knows_what_cancel_sends() {
    assert!(is_exit(&EXIT));
}

#[test]
fn is_exit_accepts_the_message_alone_and_with_more_behind_it() {
    assert!(is_exit(&[1, 3, 3, 7]));
    assert!(is_exit(&[1, 3, 3, 7, 0, 0, 0]));
    assert!(is_exit(b"\x01\x03\x03\x07GET / HTTP/1.1\r\n\r\n"));
}

#[test]
fn is_exit_rejects_short_and_other_bytes() {
    assert!(!is_exit(&[]));
    assert!(!is_exit(&[1, 3, 3]));
    assert!(!is_exit(&[1, 3, 3, 8]));
    assert!(!is_exit(&[0, 1, 3, 3, 7]));
    assert!(!is_exit(b"GET / HTTP/1.1\r\n\r\n"));
    assert!(!is_exit(&[0u8; 4048]));
}

#[test]
fn append_adds_at_the_end() {
    let mut out = b"ab".to_vec();
    append(&mut out, b"cd");
    assert_eq!(out, b"abcd".to_vec());
    append(&mut out, b"");
    assert_eq!(out, b"abcd".to_vec());
}

#[test]
fn decimal_numerals() {
    assert_eq!(numeral(0), b"0".to_vec());
    assert_eq!(numeral(7), b"7".to_vec());
    assert_eq!(numeral(9), b"9".to_vec());
    assert_eq!(numeral(10), b"10".to_vec());
    assert_eq!(numeral(407), b"407".to_vec());
    assert_eq!(numeral(65535), b"65535".to_vec());
    assert_eq!(numeral(u64::MAX), b"18446744073709551615".to_vec());
}

#[test]
fn decimal_numeral_goes_behind_what_is_there() {
    let mut out = b"port ".to_vec();
    append_decimal(&mut out, 8080);
    assert_eq!(out, b"port 8080".to_vec());
}

#[test]
fn matches_at_checks_one_place() {
    assert!(matches_at(b"hello", b"ell", 1));
    assert!(!matches_at(b"hello", b"ell", 0));
    assert!(matches_at(b"hello", b"", 5));
    assert!(!matches_at(b"hello", b"", 6));
    assert!(!matches_at(b"hello", b"lo!", 3));
    assert!(!matches_at(b"hello", b"h", usize::MAX));
}

#[test]
fn starts_with_and_equal() {
    assert!(starts_with(b"localhost:3000", b"localhost"));
    assert!(starts_with(b"localhost", b"localhost"));
    assert!(!starts_with(b"localhos", b"localhost"));
    assert!(!starts_with(b"127.0.0.1", b"localhost"));
    assert!(starts_with(b"", b""));
    assert!(equal(b"/exit", b"/exit"));
    assert!(!equal(b"/exit", b"/exit/"));
    assert!(!equal(b"/exit", b"/exiT"));
    assert!(equal(b"", b""));
}

#[test]
fn find_gives_the_leftmost_place() {
    assert_eq!(find(b"<html><head></head></html>", b"<head>"), Some(6));
    assert_eq!(find(b"abcabc", b"bc"), Some(1));
    assert_eq!(find(b"abc", b"abc"), Some(0));
    assert_eq!(find(b"abc", b"abcd"), None);
    assert_eq!(find(b"abc", b"x"), None);
    assert_eq!(find(b"abc", b""), Some(0));
    assert_eq!(find(b"", b""), Some(0));
    assert_eq!(find(b"", b"a"), None);
    assert_eq!(find(b"aab", b"ab"), Some(1));
}

#[test]
fn replace_takes_every_occurrence_from_the_left() {
    assert_eq!(replace(b"a-b-c", b"-", b"+"), b"a+b+c".to_vec());
    assert_eq!(replace(b"aaa", b"aa", b"b"), b"ba".to_vec());
    assert_eq!(replace(b"abc", b"abc", b""), b"".to_vec());
    assert_eq!(replace(b"abc", b"x", b"y"), b"abc".to_vec());
    assert_eq!(replace(b"", b"x", b"y"), b"".to_vec());
    assert_eq!(replace(b"xx", b"x", b"xx"), b"xxxx".to_vec());
    assert_eq!(replace(b"ab", b"abc", b"z"), b"ab".to_vec());
}

#[test]
fn replace_with_an_empty_pattern_changes_nothing() {
    assert_eq!(replace(b"abc", b"", b"-"), b"abc".to_vec());
}

#[test]
fn replace_agrees_with_the_text_it_stands_for() {
    let page = "<p>é</p><head><title>ü</title><head>";
    assert_eq!(
        replace(page.as_bytes(), b"<head>", b"<head>!"),
        page.replace("<head>", "<head>!").into_bytes()
    );
}
