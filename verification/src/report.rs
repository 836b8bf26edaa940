//! What the caller is told when the compiler run that generates the
//! bindings has ended.

use vstd::prelude::*;
use vstd::string::*;

verus! {

/// How an external program ended, as the caller observed it.
#[derive(Debug)]
pub struct ProcessOutput {
    /// Whether the program reported success.
    pub success: bool,
    /// Its exit code, if it had one.
    pub code: Option<i32>,
    /// What it printed, if that was text.
    pub stdout: Option<String>,
    /// What it printed as errors, if that was text.
    pub stderr: Option<String>,
}

/// What is known of a failed compiler run.
#[derive(Debug)]
pub struct Diagnostics {
    /// The exit code, if there was one.
    pub code: Option<i32>,
    /// The program's output, or a note that it could not be read.
    pub stdout: String,
    /// The program's error output, or a note that it could not be read.
    pub stderr: String,
}

/// The text of `captured`, or `note` where there is none.
pub open spec fn text_or(captured: Option<String>, note: Seq<char>) -> Seq<char> {
    match captured {
        Some(text) => text@,
        None => note,
    }
}

/// Judges the compiler run that generates the bindings: a success is
/// passed on as such, a failure with its exit code and all the program
/// printed.
pub fn bindings_report(output: ProcessOutput) -> (report: Result<(), Diagnostics>)
    ensures
        report.is_ok() == output.success,
        !output.success ==> {
            &&& report.unwrap_err().code == output.code
            &&& report.unwrap_err().stdout@ == text_or(output.stdout, "cant decode stdout"@)
            &&& report.unwrap_err().stderr@ == text_or(output.stderr, "cant decode stderr"@)
        },
{
    if output.success {
        Ok(())
    } else {
        let stdout = match output.stdout {
            Some(text) => text,
            None => String::from_str("cant decode stdout"),
        };
        let stderr = match output.stderr {
            Some(text) => text,
            None => String::from_str("cant decode stderr"),
        };
        Err(Diagnostics { code: output.code, stdout, stderr })
    }
}

} // verus!
