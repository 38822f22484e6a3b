use nu_formatter::files::is_file_extension;
use nu_formatter::postprocess::{
    add_newline_at_end_of_file, end_with_one_newline, insert_newline,
};
use nu_formatter::text::{append_decimal, bytes_equal, find_byte, trim_ascii_whitespace};

#[test]
fn insert_newline_appends_one_line_feed() {
    assert_eq!(insert_newline(b"abc".to_vec()), b"abc\n".to_vec());
    assert_eq!(insert_newline(b"abc\n".to_vec()), b"abc\n\n".to_vec());
    assert_eq!(insert_newline(Vec::new()), b"\n".to_vec());
}

#[test]
fn add_newline_when_there_is_none() {
    assert_eq!(add_newline_at_end_of_file(b"let x = 1".to_vec()), b"let x = 1\n".to_vec());
    assert_eq!(add_newline_at_end_of_file(Vec::new()), b"\n".to_vec());
}

#[test]
fn add_newline_leaves_a_final_line_feed_alone() {
    assert_eq!(add_newline_at_end_of_file(b"let x = 1\n".to_vec()), b"let x = 1\n".to_vec());
    assert_eq!(add_newline_at_end_of_file(b"a\n\n".to_vec()), b"a\n\n".to_vec());
}

#[test]
fn one_final_line_feed() {
    assert_eq!(end_with_one_newline(b"a".to_vec()), b"a\n".to_vec());
    assert_eq!(end_with_one_newline(b"a\n".to_vec()), b"a\n".to_vec());
    assert_eq!(end_with_one_newline(b"a\n\n\n".to_vec()), b"a\n".to_vec());
    assert_eq!(end_with_one_newline(b"a\n\nb\n\n".to_vec()), b"a\n\nb\n".to_vec());
    assert_eq!(end_with_one_newline(Vec::new()), b"\n".to_vec());
    assert_eq!(end_with_one_newline(b"\n\n".to_vec()), b"\n".to_vec());
}

#[test]
fn trim_strips_both_ends() {
    assert_eq!(trim_ascii_whitespace(b"  a b \t\n"), b"a b");
    assert_eq!(trim_ascii_whitespace(b"a"), b"a");
    assert_eq!(trim_ascii_whitespace(b"\r\n\x0cx\r"), b"x");
}

#[test]
fn trim_of_whitespace_alone_is_empty() {
    assert_eq!(trim_ascii_whitespace(b" \t\n"), b"");
    assert_eq!(trim_ascii_whitespace(b""), b"");
}

#[test]
fn trim_keeps_inner_whitespace() {
    assert_eq!(trim_ascii_whitespace(b" a  b "), b"a  b");
}

#[test]
fn find_byte_gives_the_first_occurrence() {
    assert_eq!(find_byte(b"a|b|c", 0, b'|'), 1);
    assert_eq!(find_byte(b"a|b|c", 2, b'|'), 3);
    assert_eq!(find_byte(b"a|b|c", 4, b'|'), 5);
    assert_eq!(find_byte(b"abc", 7, b'|'), 3);
}

#[test]
fn decimal_digits() {
    let mut out = b"x".to_vec();
    append_decimal(&mut out, 0);
    append_decimal(&mut out, 7);
    append_decimal(&mut out, 10);
    append_decimal(&mut out, 1234567890);
    assert_eq!(out, b"x07101234567890".to_vec());
}

#[test]
fn byte_strings_compare() {
    assert!(bytes_equal(b"def", b"def"));
    assert!(bytes_equal(b"", b""));
    assert!(!bytes_equal(b"def", b"de"));
    assert!(!bytes_equal(b"def", b"dee"));
}

#[test]
fn file_extension() {
    assert!(is_file_extension("a.nu", ".nu"));
    assert!(is_file_extension("dir/b.nu", ".nu"));
    assert!(is_file_extension(".nu", ".nu"));
    assert!(!is_file_extension("a.nuon", ".nu"));
    assert!(!is_file_extension("nu", ".nu"));
    assert!(!is_file_extension("a.rs", ".nu"));
}
