use vstd::prelude::*;

verus! {

/// Process exit status for each fatal error kind.
pub enum ExitCode {
    FileNotFound,
    FailedToReadDirectory,
    FailedToReadDirectoryEntry,
    FailedToReadFile,
}

/// The numeric status each exit code reports.
pub open spec fn exit_code_value(e: ExitCode) -> int {
    match e {
        ExitCode::FileNotFound => 1,
        ExitCode::FailedToReadDirectory => 2,
        ExitCode::FailedToReadDirectoryEntry => 3,
        ExitCode::FailedToReadFile => 4,
    }
}

impl ExitCode {
    /// The numeric status this exit code reports.
    pub fn code(&self) -> (r: i32)
        ensures
            r == exit_code_value(*self),
    {
        match self {
            ExitCode::FileNotFound => 1,
            ExitCode::FailedToReadDirectory => 2,
            ExitCode::FailedToReadDirectoryEntry => 3,
            ExitCode::FailedToReadFile => 4,
        }
    }
}

/// The process exit status for a whole run: a dry run that found at least
/// one file with pending changes yields a non-zero status; every other
/// successful outcome yields zero.
pub fn run_status(check_only: bool, number_of_changed_files: usize) -> (r: i32)
    ensures
        r != 0 <==> check_only && number_of_changed_files > 0,
        r == 0 || r == 1,
{
    if check_only && number_of_changed_files > 0 {
        1
    } else {
        0
    }
}

} // verus!
