use nu_formatter::config::Config;
use nu_formatter::format_error::FormatError;
use nu_formatter::format_inner;

fn format(input: &str) -> String {
    let config = Config::default();
    let result = format_inner(input.as_bytes(), &config).expect("formatting failed");
    String::from_utf8(result).expect("invalid utf8")
}

#[test]
fn test_simple_let() {
    let input = "let x = 1";
    let output = format(input);
    assert_eq!(output, "let x = 1");
}

#[test]
fn test_let_with_spaces() {
    let input = "let   x   =   1";
    let output = format(input);
    assert_eq!(output, "let x = 1");
}

#[test]
fn test_simple_def() {
    let input = "def foo [] { echo hello }";
    let output = format(input);
    assert!(output.contains("def foo"));
}

#[test]
fn test_pipeline() {
    let input = "ls | get name";
    let output = format(input);
    assert!(output.contains("| get"));
}

#[test]
fn test_if_else() {
    let input = "if true { echo yes } else { echo no }";
    let output = format(input);
    assert!(output.contains("if true"));
    assert!(output.contains("else"));
}

#[test]
fn test_for_loop() {
    let input = "for x in [1, 2, 3] { print $x }";
    let output = format(input);
    assert!(output.contains("for x in"));
    assert!(output.contains("{ print"));
}

#[test]
fn test_while_loop() {
    let input = "while true { break }";
    let output = format(input);
    assert!(output.contains("while true"));
    assert!(output.contains("{ break }"));
}

#[test]
fn test_closure() {
    let input = "{|x| $x * 2 }";
    let output = format(input);
    assert!(output.contains("{|x|"));
}

#[test]
fn test_multiline() {
    let input = "let x = 1\nlet y = 2";
    let output = format(input);
    assert!(output.contains("let x = 1"));
    assert!(output.contains("let y = 2"));
    assert!(output.contains("\n"));
}

#[test]
fn test_list_simple() {
    let input = "[1, 2, 3]";
    let output = format(input);
    assert_eq!(output, "[1, 2, 3]");
}

#[test]
fn test_record_simple() {
    let input = "{a: 1, b: 2}";
    let output = format(input);
    assert!(output.contains("a: 1"));
}

#[test]
fn test_comment_preservation() {
    let input = "# this is a comment\nlet x = 1";
    let output = format(input);
    assert!(output.contains("# this is a comment"));
}

#[test]
fn test_idempotency_let() {
    let input = "let x = 1";
    let first = format(input);
    let second = format(&first);
    assert_eq!(first, second, "Formatting should be idempotent");
}

#[test]
fn test_idempotency_def() {
    let input = "def foo [x: int] { $x + 1 }";
    let first = format(input);
    let second = format(&first);
    assert_eq!(first, second, "Formatting should be idempotent");
}

#[test]
fn test_idempotency_if_else() {
    let input = "if true { echo yes } else { echo no }";
    let first = format(input);
    let second = format(&first);
    assert_eq!(first, second, "Formatting should be idempotent");
}

#[test]
fn test_idempotency_for_loop() {
    let input = "for x in [1, 2, 3] { print $x }";
    let first = format(input);
    let second = format(&first);
    assert_eq!(first, second, "Formatting should be idempotent");
}

#[test]
fn test_idempotency_complex() {
    let input = "# comment\nlet x = 1\ndef foo [] { $x }";
    let first = format(input);
    let second = format(&first);
    assert_eq!(first, second, "Formatting should be idempotent");
}

/// Formats twice and checks that the second pass changes nothing.
fn assert_idempotent(input: &str) {
    let first = format(input);
    let second = format(&first);
    assert_eq!(first, second, "formatting {input:?} twice");
}

#[test]
fn pipes_are_spaced() {
    let output = format("ls|get name");
    assert_eq!(output, "ls | get name");
    assert!(output.contains("| "));
    assert!(!output.contains("|get"));
}

#[test]
fn short_list_stays_on_one_line() {
    assert_eq!(format("[1,2,3]"), "[1, 2, 3]");
    assert_eq!(format("[1 2 3 4 5]"), "[1, 2, 3, 4, 5]");
}

#[test]
fn long_list_goes_one_item_per_line() {
    assert_eq!(format("[1,2,3,4,5,6]"), "[\n    1\n    2\n    3\n    4\n    5\n    6\n]");
}

#[test]
fn empty_list_and_record() {
    assert_eq!(format("[]"), "[]");
    assert_eq!(format("let r = {}"), "let r = {}");
}

#[test]
fn simple_branches_stay_on_one_line() {
    let output = format("if true { echo yes } else { echo no }");
    assert_eq!(output, "if true { echo yes } else { echo no }");
    assert!(output.contains("{ echo yes }"));
}

#[test]
fn definition_keeps_signature_and_body() {
    let output = format("def foo [x: int] { $x + 1 }");
    assert_eq!(output, "def foo [x: int] { $x + 1 }");
    assert!(output.contains("[x: int]"));
    assert!(output.contains("{ $x + 1 }"));
    assert_eq!(format(&output), output);
}

#[test]
fn signature_with_many_parameters_goes_one_per_line() {
    let output = format("def foo [a: int, b?: string, --flag(-f): int, ...rest] { $a }");
    assert_eq!(
        output,
        "def foo [\n    a: int\n    b?: string\n    --flag(-f): int\n    ...rest\n] { $a }"
    );
    assert_idempotent("def foo [a: int, b?: string, --flag(-f): int, ...rest] { $a }");
}

#[test]
fn signature_lists_positionals_before_flags() {
    assert_eq!(
        format("def main [--verbose(-v), path: path] { $path }"),
        "def main [path: path, --verbose(-v)] { $path }"
    );
}

#[test]
fn parameter_of_type_any_loses_its_type() {
    assert_eq!(format("def f [x: any, y: int] { $x }"), "def f [x, y: int] { $x }");
}

#[test]
fn signature_writes_defaults() {
    assert_eq!(
        format("def foo [x = 5, --name: string = 'a'] { $x }"),
        "def foo [x: int = 5, --name: string = 'a'] { $x }"
    );
}

#[test]
fn signature_with_types_or_completers_is_copied() {
    assert_eq!(format("def f []: nothing -> int { 1 }"), "def f []: nothing -> int { 1 }");
    assert_eq!(
        format("def f [ x:int ]: [int -> int, string -> int] { 1 }"),
        "def f [ x:int ]: [int -> int, string -> int] { 1 }"
    );
    assert_eq!(
        format("def c [] { [a b] }\ndef f [ x: string@c ] { $x }"),
        "def c [] { [a, b] }\ndef f [ x: string@c ] { $x }"
    );
}

#[test]
fn extern_signature_is_copied() {
    assert_eq!(format("extern foo [x: int, --flag]"), "extern foo [x: int, --flag]");
}

#[test]
fn binding_of_a_pipeline_in_parentheses() {
    assert_eq!(format("let x = (ls | get name)"), "let x = (\n    ls | get name\n)");
    assert_idempotent("let x = (ls | get name)");
}

#[test]
fn assignment_keeps_one_pair_of_parentheses() {
    assert_eq!(format("mut x = 1; $x = (2 + 3)"), "mut x = 1\n$x = (2 + 3)");
    assert_eq!(format("mut x = 1; $x = 2 + 3"), "mut x = 1\n$x = 2 + 3");
}

#[test]
fn operators_are_spaced() {
    assert_eq!(format("1   +    2"), "1 + 2");
    assert_eq!(format("let a = 1; $a   ==   2"), "let a = 1\n$a == 2");
}

#[test]
fn ranges() {
    assert_eq!(format("1..10"), "1..10");
    assert_eq!(format("1..2..10"), "1..2..10");
    assert_eq!(format("1..<10"), "1..<10");
    assert_eq!(format("1..2..<10"), "1..2..<10");
}

#[test]
fn closure_parameters_are_trimmed() {
    assert_eq!(format("{ |x| $x * 2 }"), "{|x| $x * 2 }");
    assert_eq!(format("{|  x, y  | $x + $y }"), "{|x, y| $x + $y }");
    assert_eq!(format("let f = {|a, b| $a + $b }"), "let f = {|a, b| $a + $b }");
}

#[test]
fn nested_block_goes_on_lines_of_its_own() {
    assert_eq!(
        format("def f [] { if true { 1 } else { 2 } }"),
        "def f [] {\n    if true { 1 } else { 2 }\n}"
    );
    assert_eq!(
        format("module m { export def f [] { 1 } }"),
        "module m {\n    export def f [] { 1 }\n}"
    );
}

#[test]
fn indentation_follows_the_configuration() {
    let config = Config::new(2, 80, 1);
    let out = format_inner("def f [] { if true { 1 } else { 2 } }".as_bytes(), &config).unwrap();
    assert_eq!(String::from_utf8(out).unwrap(), "def f [] {\n  if true { 1 } else { 2 }\n}");
}

#[test]
fn match_block_is_multi_line() {
    assert_eq!(
        format("match 1 { 1 => 'a', _ => { 'b' } }"),
        "match 1 {\n    1 => 'a'\n    _ => { 'b' }\n}"
    );
    assert_idempotent("match 1 { 1 => 'a', _ => { 'b' } }");
}

#[test]
fn match_guard_is_kept() {
    assert_eq!(
        format("match 3 { $n if $n > 2 => 'big', _ => 'small' }"),
        "match 3 {\n    $n if $n > 2 => 'big'\n    _ => 'small'\n}"
    );
    assert_idempotent("match 3 { $n if $n > 2 => 'big', _ => 'small' }");
}

#[test]
fn table_stays_on_one_line() {
    assert_eq!(format("[[a, b]; [1, 2], [3, 4]]"), "[[a, b]; [1, 2], [3, 4]]");
    assert_eq!(format("[[a b]; [1 2]]"), "[[a, b]; [1, 2]]");
}

#[test]
fn record_thresholds() {
    assert_eq!(format("let r = {a: 1, b: 2, c: 3}"), "let r = {a: 1, b: 2, c: 3}");
    assert_eq!(
        format("let r = {a: 1, b: 2, c: 3, d: 4}"),
        "let r = {\n    a: 1\n    b: 2\n    c: 3\n    d: 4\n}"
    );
}

#[test]
fn record_with_variable_inside_a_list_is_multi_line() {
    assert_eq!(format("let x = 1; {a: $x, b: 1}"), "let x = 1\n{a: $x, b: 1}");
    assert_eq!(
        format("let x = 1; [{a: $x, b: 1}]"),
        "let x = 1\n[\n    {\n        a: $x\n        b: 1\n    }\n]"
    );
}

#[test]
fn external_call_keeps_its_caret() {
    assert_eq!(format("^ls   -la"), "^ls -la");
    assert_eq!(format("ls   -la"), "ls -la");
}

#[test]
fn redirection_is_kept() {
    assert_eq!(format("ls   out>   file.txt"), "ls out> file.txt");
}

#[test]
fn cell_paths() {
    assert_eq!(format("let a = {b: {c: 1}}; $a.b.c"), "let a = {\n    b: {c: 1}\n}\n$a.b.c");
    assert_eq!(format("let a = [[1]]; $a.0.0"), "let a = [\n    [1]\n]\n$a.0.0");
}

#[test]
fn attribute_keeps_its_marker() {
    assert_eq!(
        format("@example 'x' { 1 }\ndef f [] { 1 }"),
        "@example 'x' { 1 }\ndef f [] { 1 }"
    );
}

#[test]
fn lone_interpolation_loses_its_parentheses() {
    assert_eq!(format("print ($\"hi\")"), "print $\"hi\"");
}

#[test]
fn literals_are_copied() {
    assert_eq!(format("0x1F"), "0x1F");
    assert_eq!(format("1_000"), "1_000");
    assert_eq!(format("'it''s'"), "'it''s'");
    assert_eq!(format("\"a\\tb\""), "\"a\\tb\"");
    assert_eq!(format("true"), "true");
    assert_eq!(format("2020-01-02"), "2020-01-02");
    assert_eq!(format("10kb"), "10kb");
}

#[test]
fn comments_before_and_behind_code() {
    assert_eq!(
        format("# a\n\n# b\nlet x = 1\n\n\n# c\n"),
        "# a\n# b\nlet x = 1\n# c\n"
    );
    assert_eq!(
        format("let x = 1 # t1\n# own line\nlet y = 2 # t2"),
        "let x = 1 # t1\n# own line\nlet y = 2 # t2"
    );
}

#[test]
fn comments_inside_a_block() {
    assert_eq!(
        format("def f [] {\n  let a = 1\n  # inner\n  let b = 2\n}"),
        "def f [] {\n    let a = 1\n    # inner\n    let b = 2\n}"
    );
}

#[test]
fn comment_inside_a_list_is_kept() {
    assert_eq!(format("[\n 1 # one\n 2\n]"), "[1, 2]\n# one\n");
    assert_idempotent("[\n 1 # one\n 2\n]");
}

#[test]
fn comment_inside_an_expression_stands_before_the_next_pipeline() {
    assert_eq!(
        format("[\n 1 # one\n 2\n]\nlet x = 1"),
        "[1, 2]\n# one\nlet x = 1"
    );
    assert_eq!(
        format("let r = {\n  a: 1 # first\n  b: 2\n}\nlet x = 1 # last"),
        "let r = {a: 1, b: 2}\n# first\nlet x = 1 # last"
    );
    assert_eq!(
        format("match 1 {\n  1 => 'a' # one\n  _ => 'b'\n}"),
        "match 1 {\n    1 => 'a'\n    _ => 'b'\n}\n# one\n"
    );
}

#[test]
fn comments_are_conserved() {
    for input in [
        "[\n 1 # one\n 2 # two\n]",
        "# a\nlet x = [1 # b\n 2] # c\n# d",
        "def f [\n  x: int # the x\n] {\n  # e\n  [1 # f\n  2]\n}",
        "foo [1 # g\n 2] { bar }",
        "extern foo [\n  x: int # h\n]\nlet x = 1",
    ] {
        let output = format(input);
        let comments =
            ["# a", "# b", "# c", "# d", "# e", "# f", "# g", "# h", "# one", "# two", "# the x"];
        for comment in comments {
            assert_eq!(
                input.matches(comment).count(),
                output.matches(comment).count(),
                "{comment} of {input:?} in {output:?}"
            );
        }
    }
}

#[test]
fn text_copied_as_written_is_not_written_again() {
    assert_eq!(
        format("extern foo [\n  x: int # the x\n]"),
        "extern foo [\n  x: int # the x\n]"
    );
    assert_eq!(format("let s = r#'abc'#"), "let s = r#'abc'#");
    assert_idempotent("extern foo [\n  x: int # the x\n]");
    assert_idempotent("let s = r#'abc'#");
}

#[test]
fn each_comment_is_written_once() {
    let input = "# a\nlet x = 1 # b\n# c\ndef f [] {\n  # d\n  1\n}\n# e";
    let output = format(input);
    for comment in ["# a", "# b", "# c", "# d", "# e"] {
        assert_eq!(output.matches(comment).count(), 1, "{comment} in {output:?}");
    }
}

#[test]
fn hash_in_a_string_is_no_comment() {
    assert_eq!(
        format("echo \"a # not comment\" # real"),
        "echo \"a # not comment\" # real"
    );
}

#[test]
fn source_of_comments_alone() {
    assert_eq!(format("# only a comment"), "# only a comment\n");
    assert_eq!(format("# a\n# b\n"), "# a\n# b\n");
}

#[test]
fn empty_source_stays_as_it_is() {
    assert_eq!(format(""), "");
    assert_eq!(format("\n\n"), "\n\n");
}

#[test]
fn garbage_is_rejected() {
    let config = Config::default();
    assert_eq!(
        format_inner("ls | where size > 10".as_bytes(), &config),
        Err(FormatError::GarbageFound)
    );
    assert_eq!(format_inner("1 +".as_bytes(), &config), Err(FormatError::GarbageFound));
    assert_eq!(format_inner("{".as_bytes(), &config), Err(FormatError::GarbageFound));
}

#[test]
fn formatting_twice_changes_nothing() {
    for input in [
        "let x = 1\nlet y = 2",
        "ls|get name",
        "[1,2,3,4,5,6]",
        "let r = {a: 1, b: 2, c: 3, d: 4}",
        "def f [] {\n  let a = 1\n  # inner\n  let b = 2\n}",
        "{ |x| $x * 2 }",
        "mut x = 1; $x = (2 + 3)",
        "let x = [1 2 3] # numbers",
        "try { foo } catch { bar }",
        "for x in [1, 2, 3] { if $x > 1 { print $x } }",
    ] {
        assert_idempotent(input);
    }
}
