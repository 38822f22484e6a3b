//! Summing up the outcomes of a run.

use vstd::prelude::*;
use crate::FileDiagnostic;

verus! {

/// The possible exit codes.
#[derive(Debug, Clone, Copy, PartialEq, Eq)]
pub enum ExitCode {
    /// The run ended well, whether or not anything was formatted.
    Success,
    /// Only in check mode: at least one file would be formatted if check
    /// mode was off.
    CheckFailed,
    /// The run ended badly: invalid configuration, invalid options, or a
    /// file that could not be formatted.
    Failure,
}

impl ExitCode {
    /// The number that stands for this exit code.
    pub open spec fn code_of(self) -> int {
        match self {
            ExitCode::Success => 0,
            ExitCode::CheckFailed => 1,
            ExitCode::Failure => 2,
        }
    }

    /// Return the exit code to use.
    pub fn code(&self) -> (code: i32)
        ensures
            code == self.code_of(),
    {
        match self {
            ExitCode::Success => 0,
            ExitCode::CheckFailed => 1,
            ExitCode::Failure => 2,
        }
    }
}

/// The outcome of a run over a set of files: how many files were already
/// formatted, how many were (or would be) reformatted, how many failed, and
/// the exit code that follows.
#[derive(Debug, Clone, Copy, PartialEq, Eq)]
pub struct Summary {
    pub already_formatted: usize,
    pub reformatted: usize,
    pub failures: usize,
    pub exit_code: ExitCode,
}

/// The file and the outcome for it.
pub struct FileResult {
    pub file: String,
    pub diagnostic: FileDiagnostic,
}

/// How many of the first `n` results are `AlreadyFormatted`.
pub open spec fn count_already_formatted(results: Seq<FileResult>, n: int) -> nat
    decreases n,
{
    if n <= 0 || n > results.len() {
        0
    } else if results[n - 1].diagnostic is AlreadyFormatted {
        count_already_formatted(results, n - 1) + 1
    } else {
        count_already_formatted(results, n - 1)
    }
}

/// How many of the first `n` results are `Reformatted`.
pub open spec fn count_reformatted(results: Seq<FileResult>, n: int) -> nat
    decreases n,
{
    if n <= 0 || n > results.len() {
        0
    } else if results[n - 1].diagnostic is Reformatted {
        count_reformatted(results, n - 1) + 1
    } else {
        count_reformatted(results, n - 1)
    }
}

/// How many of the first `n` results are failures.
pub open spec fn count_failures(results: Seq<FileResult>, n: int) -> nat
    decreases n,
{
    if n <= 0 || n > results.len() {
        0
    } else if results[n - 1].diagnostic is Failure {
        count_failures(results, n - 1) + 1
    } else {
        count_failures(results, n - 1)
    }
}

/// The exit code of a run: failure if a file failed; in check mode, check
/// failed if a file would be reformatted; success otherwise.
pub open spec fn exit_code_for(reformatted: nat, failures: nat, check_mode: bool) -> ExitCode {
    if failures > 0 {
        ExitCode::Failure
    } else if check_mode && reformatted > 0 {
        ExitCode::CheckFailed
    } else {
        ExitCode::Success
    }
}

/// Counts the outcomes and computes the exit code of a run.
pub fn compute_exit_code(results: &Vec<FileResult>, check_mode: bool) -> (summary: Summary)
    ensures
        summary.already_formatted == count_already_formatted(results@, results.len() as int),
        summary.reformatted == count_reformatted(results@, results.len() as int),
        summary.failures == count_failures(results@, results.len() as int),
        summary.exit_code == exit_code_for(
            summary.reformatted as nat,
            summary.failures as nat,
            check_mode,
        ),
{
    let mut already_formatted: usize = 0;
    let mut reformatted: usize = 0;
    let mut failures: usize = 0;
    let mut i: usize = 0;
    while i < results.len()
        invariant
            i <= results.len(),
            already_formatted == count_already_formatted(results@, i as int),
            reformatted == count_reformatted(results@, i as int),
            failures == count_failures(results@, i as int),
            already_formatted + reformatted + failures == i,
        decreases results.len() - i,
    {
        match &results[i].diagnostic {
            FileDiagnostic::AlreadyFormatted => {
                already_formatted += 1;
            },
            FileDiagnostic::Reformatted => {
                reformatted += 1;
            },
            FileDiagnostic::Failure(_) => {
                failures += 1;
            },
        }
        i += 1;
    }
    let exit_code = if failures > 0 {
        ExitCode::Failure
    } else if check_mode && reformatted > 0 {
        ExitCode::CheckFailed
    } else {
        ExitCode::Success
    };
    Summary { already_formatted, reformatted, failures, exit_code }
}

/// The results for files that could not be found: a failure for each, in
/// the order given.
pub fn handle_invalid_file(files: Vec<String>) -> (results: Vec<FileResult>)
    ensures
        results.len() == files.len(),
        forall|i: int|
            0 <= i < results.len() ==> {
                &&& (#[trigger] results[i]).file@ == files[i]@
                &&& results[i].diagnostic matches FileDiagnostic::Failure(reason)
                &&& reason@ == "cannot find the file specified"@
            },
{
    let mut results: Vec<FileResult> = Vec::new();
    let mut i: usize = 0;
    while i < files.len()
        invariant
            i <= files.len(),
            results.len() == i,
            forall|k: int|
                0 <= k < i ==> {
                    &&& (#[trigger] results[k]).file@ == files[k]@
                    &&& results[k].diagnostic matches FileDiagnostic::Failure(reason)
                    &&& reason@ == "cannot find the file specified"@
                },
        decreases files.len() - i,
    {
        results.push(
            FileResult {
                file: files[i].clone(),
                diagnostic: FileDiagnostic::Failure("cannot find the file specified".to_string()),
            },
        );
        i += 1;
    }
    results
}

} // verus!
