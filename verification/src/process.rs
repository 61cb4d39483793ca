//! What is handed to a process, what comes back from it, and how the
//! outcome of a run is read.

use crate::error::outcome;
use crate::error::Error;
use crate::error::ErrorView;
use crate::error::OutputStream;
use vstd::prelude::*;
use vstd::utf8::decode_utf8;
use vstd::utf8::valid_utf8;

verus! {

/// One run of the tool: the program, its arguments, the directory it runs
/// in (inherited where `None`) and the environment variables set for it.
#[derive(Debug)]
pub struct Invocation {
    pub program: String,
    pub args: Vec<String>,
    pub working_dir: Option<String>,
    pub env: Vec<(String, String)>,
}

/// An `Invocation` with its texts and lists as sequences.
pub ghost struct InvocationView {
    pub program: Seq<char>,
    pub args: Seq<Seq<char>>,
    pub working_dir: Option<Seq<char>>,
    pub env: Seq<(Seq<char>, Seq<char>)>,
}

impl View for Invocation {
    type V = InvocationView;

    open spec fn view(&self) -> InvocationView {
        InvocationView {
            program: self.program@,
            args: self.args.deep_view(),
            working_dir: self.working_dir.deep_view(),
            env: self.env.deep_view(),
        }
    }
}

impl DeepView for Invocation {
    type V = InvocationView;

    open spec fn deep_view(&self) -> InvocationView {
        self@
    }
}

/// What a process left behind: its exit code (`None` where it had none)
/// and the bytes of its two streams.
#[derive(Debug)]
pub struct ProcessOutput {
    pub exit_code: Option<i32>,
    pub stdout: Vec<u8>,
    pub stderr: Vec<u8>,
}

/// A `ProcessOutput` with its texts and lists as sequences.
pub ghost struct ProcessOutputView {
    pub exit_code: Option<i32>,
    pub stdout: Seq<u8>,
    pub stderr: Seq<u8>,
}

impl View for ProcessOutput {
    type V = ProcessOutputView;

    open spec fn view(&self) -> ProcessOutputView {
        ProcessOutputView { exit_code: self.exit_code, stdout: self.stdout@, stderr: self.stderr@ }
    }
}

impl DeepView for ProcessOutput {
    type V = ProcessOutputView;

    open spec fn deep_view(&self) -> ProcessOutputView {
        self@
    }
}

/// A run as it ended: the output of the process, or why none was started.
pub open spec fn run_view(run: Result<ProcessOutput, String>) -> Result<
    ProcessOutputView,
    Seq<char>,
> {
    match run {
        Ok(output) => Ok(output@),
        Err(message) => Err(message@),
    }
}

/// A text without the white space at its two ends, as `str::trim` leaves
/// it.
pub uninterp spec fn trimmed(text: Seq<char>) -> Seq<char>;

/// Calls `String::from_utf8`, which gives the text exactly where the bytes
/// are UTF-8.
#[verifier::external_body]
fn utf8_text(bytes: Vec<u8>) -> (r: Option<String>)
    ensures
        r is Some <==> valid_utf8(bytes@),
        r matches Some(s) ==> s@ == decode_utf8(bytes@),
{
    String::from_utf8(bytes).ok()
}

/// Calls `str::trim`. The contract claims only that the result is a
/// function of the text.
#[verifier::external_body]
fn trim(text: &str) -> (r: &str)
    ensures
        r@ == trimmed(text@),
{
    text.trim()
}

/// What a stream holds as text: trimmed, if its bytes are UTF-8.
pub open spec fn stream_text(bytes: Seq<u8>) -> Option<Seq<char>> {
    if valid_utf8(bytes) {
        Some(trimmed(decode_utf8(bytes)))
    } else {
        None
    }
}

/// Reads a captured stream as text and trims it.
pub fn read_stream(bytes: Vec<u8>) -> (r: Option<String>)
    ensures
        r.deep_view() == stream_text(bytes@),
{
    match utf8_text(bytes) {
        Some(text) => Some(trim(text.as_str()).to_string()),
        None => None,
    }
}

/// What a run gives its caller. No process: the reason. An exit code other
/// than zero: the code and what the process wrote to its error stream,
/// trimmed. Zero: what it wrote to its output stream, trimmed. A stream that
/// has to be read and is no UTF-8 is an error of its own.
pub open spec fn command_outcome(run: Result<ProcessOutputView, Seq<char>>) -> Result<
    Seq<char>,
    ErrorView,
> {
    match run {
        Err(message) => Err(ErrorView::ProcessExecution { message }),
        Ok(output) => if output.exit_code != Some(0i32) {
            match stream_text(output.stderr) {
                Some(stderr) => Err(
                    ErrorView::CommandFailed { exit_status: output.exit_code, stderr },
                ),
                None => Err(ErrorView::Encoding(OutputStream::Stderr)),
            }
        } else {
            match stream_text(output.stdout) {
                Some(stdout) => Ok(stdout),
                None => Err(ErrorView::Encoding(OutputStream::Stdout)),
            }
        },
    }
}

/// Reads the outcome of a run.
pub fn command_output(run: Result<ProcessOutput, String>) -> (r: Result<String, Error>)
    ensures
        outcome(r) == command_outcome(run_view(run)),
{
    match run {
        Err(message) => Err(Error::ProcessExecution { message }),
        Ok(output) => {
            let succeeded = match output.exit_code {
                Some(code) => code == 0,
                None => false,
            };
            if !succeeded {
                match read_stream(output.stderr) {
                    Some(stderr) => Err(
                        Error::CommandFailed { exit_status: output.exit_code, stderr },
                    ),
                    None => Err(Error::Encoding(OutputStream::Stderr)),
                }
            } else {
                match read_stream(output.stdout) {
                    Some(stdout) => Ok(stdout),
                    None => Err(Error::Encoding(OutputStream::Stdout)),
                }
            }
        },
    }
}

} // verus!
