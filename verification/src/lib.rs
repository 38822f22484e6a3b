//! `nu_formatter` is a library for formatting nu.
//!
//! A source text is parsed, its syntax tree is rendered by fixed style rules,
//! and the comments found in the source are put back where they belong. The
//! rendering rules are stated in `render`, and `formatter` is proved to
//! follow them.

use vstd::prelude::*;
use vstd::string::StringSliceAdditionalSpecFns;
use vstd::utf8::{decode_utf8, valid_utf8};

pub mod ast;
pub mod comments;
pub mod config;
pub mod config_error;
pub mod config_value;
pub mod files;
pub mod format_error;
pub mod formatter;
pub mod formatting;
pub mod frontend;
pub mod garbage;
pub mod laws;
pub mod lower;
pub mod model;
pub mod nesting;
pub mod postprocess;
pub mod reattach;
pub mod render;
pub mod report;
pub mod shape;
pub mod signature;
pub mod text;
pub mod utf8_text;

use ast::BlockNode;
use config::Config;
use format_error::FormatError;
use formatting::{agrees, format_program, formatted};
use lower::{parse_program, NESTING_LIMIT};
use nesting::block_within;
use postprocess::{
    end_with_one_newline, lemma_one_final_newline, trailing_newlines, with_one_final_newline,
};
use text::bytes_equal;
use utf8_text::{ends_with_one_line_feed, lemma_text_ends_with_one_line_feed};

verus! {

/// Possible modes the formatter can run on.
#[derive(Debug, Clone, Copy, PartialEq, Eq)]
pub enum Mode {
    Normal,
    DryRun,
}

impl Default for Mode {
    fn default() -> (mode: Self)
        ensures
            mode is Normal,
    {
        Mode::Normal
    }
}

/// The possible outcome of formatting a file.
#[derive(Debug, Clone, PartialEq, Eq)]
pub enum FileDiagnostic {
    /// File was left unchanged, as it is already correctly formatted.
    AlreadyFormatted,
    /// File was formatted successfully.
    Reformatted,
    /// An error occurred while trying to access or write to the file.
    Failure(String),
}

/// What is to be done with a file: what to report of it, and the new
/// contents to write to it, if any.
#[derive(Debug)]
pub struct FileUpdate {
    pub diagnostic: FileDiagnostic,
    pub contents: Option<Vec<u8>>,
}

/// `String::from_utf8`: the string that `bytes` encode; none where they are
/// not valid UTF-8.
#[verifier::external_body]
fn string_from_utf8(bytes: Vec<u8>) -> (text: Option<String>)
    ensures
        text is Some <==> valid_utf8(bytes@),
        text matches Some(s) ==> s@ == decode_utf8(bytes@),
{
    String::from_utf8(bytes).ok()
}

/// Formats an array of bytes: parses it, and formats the program that the
/// parser returns. Whatever the parser returns, the result is what
/// `formatted` gives for a program within the nesting limit.
pub fn format_inner(contents: &[u8], config: &Config) -> (result: Result<Vec<u8>, FormatError>)
    ensures
        exists|program: BlockNode|
            block_within(program, NESTING_LIMIT as nat) && agrees(
                result,
                #[trigger] formatted(contents@, program, config.indent as nat),
            ),
{
    let program = parse_program(contents);
    format_program(contents, &program, config)
}

/// The string that the formatted bytes of a source give: the bytes, ended
/// with exactly one line feed, as text. Bytes that are no valid UTF-8 are a
/// violated invariant.
pub open spec fn formatted_string(bytes: Result<Seq<u8>, FormatError>) -> Result<
    Seq<char>,
    FormatError,
> {
    match bytes {
        Ok(bytes) => if valid_utf8(with_one_final_newline(bytes)) {
            Ok(decode_utf8(with_one_final_newline(bytes)))
        } else {
            Err(FormatError::InvariantViolated)
        },
        Err(e) => Err(e),
    }
}

/// Whether `result` holds the string, or the error, of `expected`.
pub open spec fn agrees_string(
    result: Result<String, FormatError>,
    expected: Result<Seq<char>, FormatError>,
) -> bool {
    match expected {
        Ok(text) => result matches Ok(s) && s@ == text,
        Err(e) => result matches Err(f) && f == e,
    }
}

/// Formats a string of Nushell code of which `program` is the syntax tree.
/// The formatted text ends with exactly one line feed.
pub fn format_parsed_string(input_string: &str, program: &BlockNode, config: &Config) -> (result:
    Result<String, FormatError>)
    ensures
        agrees_string(
            result,
            formatted_string(formatted(input_string.spec_bytes(), *program, config.indent as nat)),
        ),
        result matches Ok(text) ==> ends_with_one_line_feed(text@),
{
    match format_program(input_string.as_bytes(), program, config) {
        Ok(bytes) => {
            let ghost rendered = bytes@;
            match string_from_utf8(end_with_one_newline(bytes)) {
                Some(text) => {
                    proof {
                        lemma_text_ends_with_one_line_feed(rendered);
                    }
                    Ok(text)
                },
                None => Err(FormatError::InvariantViolated),
            }
        },
        Err(e) => Err(e),
    }
}

/// Formats a string of Nushell code: parses it, and formats the program that
/// the parser returns. The formatted text ends with exactly one line feed.
pub fn format_string(input_string: &str, config: &Config) -> (result: Result<String, FormatError>)
    ensures
        result matches Ok(text) ==> ends_with_one_line_feed(text@),
        exists|program: BlockNode|
            block_within(program, NESTING_LIMIT as nat) && agrees_string(
                result,
                formatted_string(
                    #[trigger] formatted(
                        input_string.spec_bytes(),
                        program,
                        config.indent as nat,
                    ),
                ),
            ),
{
    let program = parse_program(input_string.as_bytes());
    format_parsed_string(input_string, &program, config)
}

/// What is to be done with a file that holds `contents`, given what
/// formatting them came to.
///
/// - A failure is reported with its message, and nothing is written.
/// - The formatted bytes are ended with exactly one line feed. If they then
///   equal `contents`, the file is already formatted.
/// - Otherwise the file counts as reformatted; the new contents are written
///   unless the mode is a dry run.
pub open spec fn file_update(
    contents: Seq<u8>,
    outcome: Result<Seq<u8>, FormatError>,
    mode: Mode,
    update: FileUpdate,
) -> bool {
    match outcome {
        Err(e) => {
            &&& update.diagnostic matches FileDiagnostic::Failure(reason)
            &&& reason@ == e.message_text()
            &&& update.contents is None
        },
        Ok(bytes) => if with_one_final_newline(bytes) == contents {
            update.diagnostic is AlreadyFormatted && update.contents is None
        } else {
            &&& update.diagnostic is Reformatted
            &&& match mode {
                Mode::DryRun => update.contents is None,
                Mode::Normal => update.contents matches Some(written) && written@
                    == with_one_final_newline(bytes),
            }
        },
    }
}

/// Decides what is to be done with a file that holds `contents`, of which
/// `program` is the syntax tree.
pub fn update_for_program(contents: &[u8], program: &BlockNode, config: &Config, mode: &Mode)
    -> (update: FileUpdate)
    ensures
        file_update(
            contents@,
            formatted(contents@, *program, config.indent as nat),
            *mode,
            update,
        ),
        update.contents matches Some(written) ==> trailing_newlines(written@) == 1,
{
    proof {
        if let Ok(bytes) = formatted(contents@, *program, config.indent as nat) {
            lemma_one_final_newline(bytes);
        }
    }
    match format_program(contents, program, config) {
        Err(e) => FileUpdate { diagnostic: FileDiagnostic::Failure(e.message()), contents: None },
        Ok(bytes) => {
            let bytes = end_with_one_newline(bytes);
            if bytes_equal(bytes.as_slice(), contents) {
                FileUpdate { diagnostic: FileDiagnostic::AlreadyFormatted, contents: None }
            } else {
                match mode {
                    Mode::DryRun => FileUpdate {
                        diagnostic: FileDiagnostic::Reformatted,
                        contents: None,
                    },
                    Mode::Normal => FileUpdate {
                        diagnostic: FileDiagnostic::Reformatted,
                        contents: Some(bytes),
                    },
                }
            }
        },
    }
}

/// Formats the contents of a Nushell file: parses them, and decides what is
/// to be done with the file. Nothing is written here; in a dry run nothing
/// is to be written at all. What is to be written ends with exactly one line
/// feed.
pub fn format_single_file(contents: &[u8], config: &Config, mode: &Mode) -> (update: FileUpdate)
    ensures
        update.contents matches Some(written) ==> trailing_newlines(written@) == 1,
        exists|program: BlockNode|
            block_within(program, NESTING_LIMIT as nat) && file_update(
                contents@,
                #[trigger] formatted(contents@, program, config.indent as nat),
                *mode,
                update,
            ),
{
    let program = parse_program(contents);
    update_for_program(contents, &program, config, mode)
}

} // verus!
