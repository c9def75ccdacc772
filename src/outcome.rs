use vstd::prelude::*;
use vstd::utf8::{decode_utf8, valid_utf8};

verus! {

/// What running the tool once came to.
pub enum ExecutionOutcome {
    /// The tool ran and exited, successfully or not, with its captured output.
    Completed { exit_success: bool, stdout: String, stderr: String },
    /// The tool could not be started; the system's description of why.
    LaunchFailed { description: String },
}

/// Standard output on success, standard error on a failed exit, the launch
/// error's description when nothing ran.
pub open spec fn normalized(outcome: ExecutionOutcome) -> Result<String, String> {
    match outcome {
        ExecutionOutcome::Completed { exit_success, stdout, stderr } => if exit_success {
            Ok(stdout)
        } else {
            Err(stderr)
        },
        ExecutionOutcome::LaunchFailed { description } => Err(description),
    }
}

/// The result that a caller sees for `outcome`.
pub fn normalize(outcome: ExecutionOutcome) -> (r: Result<String, String>)
    ensures
        r == normalized(outcome),
{
    match outcome {
        ExecutionOutcome::Completed { exit_success, stdout, stderr } => if exit_success {
            Ok(stdout)
        } else {
            Err(stderr)
        },
        ExecutionOutcome::LaunchFailed { description } => Err(description),
    }
}

/// The text of `b` with each invalid UTF-8 sequence replaced.
pub uninterp spec fn lossy_utf8(b: Seq<u8>) -> Seq<char>;

/// Relies on `String::from_utf8_lossy`: decodes the bytes, putting U+FFFD in
/// place of invalid sequences, so that valid UTF-8 comes out as it was encoded.
#[verifier::external_body]
fn decode_lossy(b: &[u8]) -> (r: String)
    ensures
        r@ == lossy_utf8(b@),
        valid_utf8(b@) ==> r@ == decode_utf8(b@),
{
    String::from_utf8_lossy(b).into_owned()
}

/// The outcome of a run that exited, from the raw bytes it wrote.
pub fn completed(exit_success: bool, stdout: &[u8], stderr: &[u8]) -> (r: ExecutionOutcome)
    ensures
        match r {
            ExecutionOutcome::Completed { exit_success: s, stdout: out, stderr: err } => s
                == exit_success && out@ == lossy_utf8(stdout@) && err@ == lossy_utf8(stderr@),
            ExecutionOutcome::LaunchFailed { .. } => false,
        },
        valid_utf8(stdout@) ==> r->stdout@ == decode_utf8(stdout@),
        valid_utf8(stderr@) ==> r->stderr@ == decode_utf8(stderr@),
{
    ExecutionOutcome::Completed {
        exit_success,
        stdout: decode_lossy(stdout),
        stderr: decode_lossy(stderr),
    }
}

/// The message for a file browser that ran and reported failure.
pub open spec fn browser_failed() -> Seq<char> {
    "failed to open explorer"@
}

/// `Ok` when the file browser exited successfully; its failure message when it
/// exited otherwise; the launch error's description when it could not start.
pub open spec fn folder_opened(launch: Result<bool, String>) -> Result<(), Seq<char>> {
    match launch {
        Ok(true) => Ok(()),
        Ok(false) => Err(browser_failed()),
        Err(d) => Err(d@),
    }
}

/// The result of opening the output folder, from how the file browser that the
/// host ran on the working directory fared. The tool is not involved.
pub fn open_output_folder(launch: Result<bool, String>) -> (r: Result<(), String>)
    ensures
        match r {
            Ok(()) => folder_opened(launch) == Ok::<(), Seq<char>>(()),
            Err(e) => folder_opened(launch) == Err::<(), Seq<char>>(e@),
        },
{
    match launch {
        Ok(true) => Ok(()),
        Ok(false) => Err("failed to open explorer".to_owned()),
        Err(d) => Err(d),
    }
}

} // verus!
