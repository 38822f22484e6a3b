use nu_formatter::ast::Span;
use nu_formatter::comments::extract_comments;

fn found(source: &str) -> Vec<(usize, usize, String)> {
    extract_comments(source.as_bytes())
        .into_iter()
        .map(|c| (c.span.start, c.span.end, String::from_utf8(c.content).unwrap()))
        .collect()
}

#[test]
fn no_comment() {
    assert!(found("let x = 1").is_empty());
    assert!(found("").is_empty());
}

#[test]
fn comment_runs_to_the_end_of_its_line() {
    assert_eq!(found("# a\nlet x = 1"), vec![(0, 3, "# a".to_string())]);
    assert_eq!(found("let x = 1 # b\nlet y = 2"), vec![(10, 13, "# b".to_string())]);
}

#[test]
fn comments_come_in_source_order() {
    assert_eq!(
        found("# a\n# b\nx # c"),
        vec![(0, 3, "# a".to_string()), (4, 7, "# b".to_string()), (10, 13, "# c".to_string())]
    );
}

#[test]
fn last_comment_without_line_feed() {
    assert_eq!(found("x # end"), vec![(2, 7, "# end".to_string())]);
    assert_eq!(found("#"), vec![(0, 1, "#".to_string())]);
}

#[test]
fn hash_inside_a_comment_opens_no_second_one() {
    assert_eq!(found("# a # b\n"), vec![(0, 7, "# a # b".to_string())]);
}

#[test]
fn hash_inside_strings() {
    assert!(found("\"a # b\"").is_empty());
    assert!(found("'a # b'").is_empty());
    assert_eq!(found("\"a\" # c"), vec![(4, 7, "# c".to_string())]);
}

#[test]
fn quote_of_the_other_kind_does_not_close_a_string() {
    assert!(found("\"it's # here\"").is_empty());
    assert!(found("'say \"hi\" # here'").is_empty());
}

#[test]
fn escaped_quote_does_not_close_a_string() {
    assert!(found("\"a \\\" # b\"").is_empty());
    assert_eq!(found("\"a \\\\\" # b"), vec![(7, 10, "# b".to_string())]);
}

#[test]
fn unterminated_string_hides_the_rest() {
    assert!(found("\"abc # x\n# y\n").is_empty());
}

#[test]
fn quote_inside_a_comment_opens_no_string() {
    assert_eq!(
        found("# it's\n# b"),
        vec![(0, 6, "# it's".to_string()), (7, 10, "# b".to_string())]
    );
}

#[test]
fn content_is_the_source_in_the_span() {
    let source = "let x = 1 # one\n# two\n";
    for comment in extract_comments(source.as_bytes()) {
        let Span { start, end } = comment.span;
        assert_eq!(&source.as_bytes()[start..end], comment.content.as_slice());
    }
}
