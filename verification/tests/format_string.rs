use nu_formatter::config::Config;
use nu_formatter::format_string;

/// Checks that formatting `input` gives `expected`, and that formatting the
/// result once more changes nothing.
fn run_test(input: &str, expected: &str) {
    let formatted = format_string(input, &Config::default()).unwrap();

    assert_eq!(expected, formatted);
    assert_eq!(
        formatted,
        format_string(&formatted, &Config::default()).unwrap(),
        "Formatting should be idempotent"
    );
}

#[test]
fn array_of_object() {
    let input = "[
  {
    \"a\": 0
  },
  {},
  {
    \"a\": null
  }
]";
    let expected = "[
    {\"a\": 0}
    {}
    {\"a\": null}
]
";
    run_test(input, expected);
}

#[test]
fn echoes_primitive() {
    run_test("1.35", "1.35\n");
}

#[test]
fn handle_escaped_strings() {
    run_test("\"hallo\\\"\"", "\"hallo\\\"\"\n");
}

#[test]
fn ignore_comments() {
    let input = "# comment
let x = 1";
    let formatted = format_string(input, &Config::default()).unwrap();
    assert!(formatted.contains("# comment"));
    assert!(formatted.contains("let x ="));
}

#[test]
fn ignore_whitespace_in_string() {
    run_test("\" hallo \"", "\" hallo \"\n");
}

#[test]
fn remove_additional_lines() {
    run_test("let one = 1\n\n\n", "let one = 1\n");
}

#[test]
fn remove_leading_whitespace() {
    run_test("   0", "0\n");
}

#[test]
fn formatted_string_ends_with_exactly_one_line_feed() {
    for input in ["let   x   =   1", "let x = 1\n\n", "# c", "", "\n\n", "[1,2,3,4,5,6]"] {
        let formatted = format_string(input, &Config::default()).unwrap();
        assert!(formatted.ends_with('\n'), "{formatted:?}");
        assert!(!formatted.ends_with("\n\n"), "{formatted:?}");
    }
}

#[test]
fn whitespace_is_canonical() {
    run_test("let   x   =   1", "let x = 1\n");
}

#[test]
fn lists_by_length() {
    run_test("[1,2,3]", "[1, 2, 3]\n");
    run_test("[1,2,3,4,5,6]", "[\n    1\n    2\n    3\n    4\n    5\n    6\n]\n");
}

#[test]
fn branches_on_one_line() {
    let formatted =
        format_string("if true { echo yes } else { echo no }", &Config::default()).unwrap();
    assert!(formatted.contains("{ echo yes }"));
    assert!(formatted.contains("{ echo no }"));
    assert_eq!(formatted.matches('\n').count(), 1);
}

#[test]
fn definition_on_one_line() {
    run_test("def foo [x: int] { $x + 1 }", "def foo [x: int] { $x + 1 }\n");
    run_test("def foo [x: int] { $x + 1 }\n", "def foo [x: int] { $x + 1 }\n");
}

