use nu_formatter::config::Config;
use nu_formatter::config_error::ConfigError;
use nu_formatter::files::{exclude_overrides, format_directory, PathEntry, PathKind};
use nu_formatter::format_error::FormatError;
use nu_formatter::report::{compute_exit_code, handle_invalid_file, ExitCode, FileResult, Summary};
use nu_formatter::{format_single_file, format_string, FileDiagnostic, Mode};

const INVALID: &str = "# beginning of script comment

let one = 1
";
const VALID: &str = "# beginning of script comment
let one = 1
";

fn result(file: &str, diagnostic: FileDiagnostic) -> FileResult {
    FileResult { file: file.to_string(), diagnostic }
}

fn two(second: FileDiagnostic) -> Vec<FileResult> {
    vec![result("a.nu", FileDiagnostic::AlreadyFormatted), result("b.nu", second)]
}

fn three() -> Vec<FileResult> {
    let mut results = two(FileDiagnostic::Reformatted);
    results.push(result("c.nu", FileDiagnostic::Failure("some error".to_string())));
    results
}

#[test]
fn exit_code() {
    assert_eq!(
        compute_exit_code(&two(FileDiagnostic::AlreadyFormatted), false).exit_code,
        ExitCode::Success
    );
    assert_eq!(
        compute_exit_code(&two(FileDiagnostic::AlreadyFormatted), true).exit_code,
        ExitCode::Success
    );
    assert_eq!(
        compute_exit_code(&two(FileDiagnostic::Reformatted), false).exit_code,
        ExitCode::Success
    );
    assert_eq!(
        compute_exit_code(&two(FileDiagnostic::Reformatted), true).exit_code,
        ExitCode::CheckFailed
    );
    assert_eq!(compute_exit_code(&three(), false).exit_code, ExitCode::Failure);
    assert_eq!(compute_exit_code(&three(), true).exit_code, ExitCode::Failure);
}

#[test]
fn outcomes_are_counted() {
    assert_eq!(
        compute_exit_code(&three(), true),
        Summary { already_formatted: 1, reformatted: 1, failures: 1, exit_code: ExitCode::Failure }
    );
    assert_eq!(
        compute_exit_code(&Vec::new(), true),
        Summary { already_formatted: 0, reformatted: 0, failures: 0, exit_code: ExitCode::Success }
    );
}

#[test]
fn exit_code_numbers() {
    assert_eq!(ExitCode::Success.code(), 0);
    assert_eq!(ExitCode::CheckFailed.code(), 1);
    assert_eq!(ExitCode::Failure.code(), 2);
}

#[test]
fn files_that_were_not_found() {
    let results = handle_invalid_file(vec!["x.nu".to_string(), "y/z.nu".to_string()]);
    assert_eq!(results.len(), 2);
    assert_eq!(results[0].file, "x.nu");
    assert_eq!(results[1].file, "y/z.nu");
    for result in &results {
        assert_eq!(
            result.diagnostic,
            FileDiagnostic::Failure("cannot find the file specified".to_string())
        );
    }
    assert!(handle_invalid_file(Vec::new()).is_empty());
}

#[test]
fn files_chosen_for_formatting() {
    let entries = vec![
        PathEntry { path: "gone.nu".to_string(), kind: PathKind::Missing },
        PathEntry {
            path: "dir".to_string(),
            kind: PathKind::Directory(vec![
                "dir/a.nu".to_string(),
                "dir/b.txt".to_string(),
                "dir/sub/c.nu".to_string(),
            ]),
        },
        PathEntry { path: "script".to_string(), kind: PathKind::File },
    ];
    assert_eq!(format_directory(&entries), vec!["dir/a.nu", "dir/sub/c.nu", "script"]);
    assert!(format_directory(&Vec::new()).is_empty());
}

#[test]
fn exclude_patterns_become_override_globs() {
    assert_eq!(
        exclude_overrides(&vec!["a*nu".to_string(), "dir/**/b?.nu".to_string()]),
        Ok(vec!["!a*nu".to_string(), "!dir/**/b?.nu".to_string()])
    );
    assert_eq!(exclude_overrides(&Vec::new()), Ok(Vec::new()));
}

#[test]
fn exclude_pattern_that_is_no_glob() {
    assert_eq!(
        exclude_overrides(&vec!["a*".to_string(), "[abc".to_string()]),
        Err(ConfigError::InvalidExcludePattern)
    );
}

#[test]
fn default_mode_is_normal() {
    assert_eq!(Mode::default(), Mode::Normal);
}

#[test]
fn file_that_is_already_formatted() {
    let update = format_single_file(VALID.as_bytes(), &Config::default(), &Mode::Normal);
    assert_eq!(update.diagnostic, FileDiagnostic::AlreadyFormatted);
    assert_eq!(update.contents, None);
}

#[test]
fn file_that_is_reformatted() {
    let update = format_single_file(INVALID.as_bytes(), &Config::default(), &Mode::Normal);
    assert_eq!(update.diagnostic, FileDiagnostic::Reformatted);
    assert_eq!(update.contents, Some(VALID.as_bytes().to_vec()));
}

#[test]
fn dry_run_writes_nothing() {
    let update = format_single_file(INVALID.as_bytes(), &Config::default(), &Mode::DryRun);
    assert_eq!(update.diagnostic, FileDiagnostic::Reformatted);
    assert_eq!(update.contents, None);
    let update = format_single_file(VALID.as_bytes(), &Config::default(), &Mode::DryRun);
    assert_eq!(update.diagnostic, FileDiagnostic::AlreadyFormatted);
}

#[test]
fn file_that_cannot_be_formatted() {
    let update = format_single_file("1 +".as_bytes(), &Config::default(), &Mode::Normal);
    assert_eq!(
        update.diagnostic,
        FileDiagnostic::Failure("found invalid Nushell syntax".to_string())
    );
    assert_eq!(update.contents, None);
}

#[test]
fn written_file_ends_with_one_line_feed() {
    for source in ["let   x   =   1", "let x = 1\n\n\n", "# c", "ls|get name\n"] {
        let update = format_single_file(source.as_bytes(), &Config::default(), &Mode::Normal);
        let written = update.contents.expect("new contents");
        assert!(written.ends_with(b"\n"));
        assert!(!written.ends_with(b"\n\n"));
    }
    let update =
        format_single_file("let   x   =   1".as_bytes(), &Config::default(), &Mode::Normal);
    assert_eq!(update.contents, Some(b"let x = 1\n".to_vec()));
}

#[test]
fn string_that_cannot_be_formatted() {
    assert_eq!(format_string("1 +", &Config::default()), Err(FormatError::GarbageFound));
    assert_eq!(FormatError::GarbageFound.message(), "found invalid Nushell syntax");
    assert_eq!(
        FormatError::InvariantViolated.message(),
        "the syntax tree does not fit the source text"
    );
}

#[test]
fn string_with_characters_beyond_ascii() {
    assert_eq!(
        format_string("let   s = 'gr\u{fc}\u{df}e \u{2603}'", &Config::default()).unwrap(),
        "let s = 'gr\u{fc}\u{df}e \u{2603}'\n"
    );
}
