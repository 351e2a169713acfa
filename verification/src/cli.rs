//! The command line: which arguments start a reversal, and what is printed
//! and returned to the shell when it ends.

use vstd::prelude::*;
use vstd::string::StringExecFns;
use crate::error::{spec_message, VideoError};
use crate::session::{opening, result_view, Session, SessionView};

verus! {

/// How the program ends.
#[derive(Debug, Clone, PartialEq, Eq)]
pub enum Exit {
    /// With status 0, after printing the line to standard output.
    Success(String),
    /// With status 1, after printing the line to standard error.
    Failure(String),
}

/// An [`Exit`] with its line as a sequence of characters.
pub enum ExitView {
    Success(Seq<char>),
    Failure(Seq<char>),
}

impl View for Exit {
    type V = ExitView;

    open spec fn view(&self) -> ExitView {
        match self {
            Exit::Success(line) => ExitView::Success(line@),
            Exit::Failure(line) => ExitView::Failure(line@),
        }
    }
}

/// The line that tells how `program` is to be called.
pub open spec fn spec_usage_line(program: Seq<char>) -> Seq<char> {
    "Usage: "@ + program + " <input_mp4_file>"@
}

/// The line that announces the reversed copy at `output`.
pub open spec fn spec_success_line(output: Seq<char>) -> Seq<char> {
    "Successfully created reversed video: "@ + output
}

/// The line that reports a failure with the given message.
pub open spec fn spec_failure_line(message: Seq<char>) -> Seq<char> {
    "Error: "@ + message
}

/// What the command line leads to: a reversal of the one path given, or the
/// usage line when there is not exactly one.
pub open spec fn spec_dispatch(program: Seq<char>, positional: Seq<Seq<char>>) -> Result<
    SessionView,
    ExitView,
> {
    if positional.len() == 1 {
        Ok(opening(positional[0]))
    } else {
        Err(ExitView::Failure(spec_usage_line(program)))
    }
}

/// What is opened or refused at the start, over sequences.
pub open spec fn dispatch_view(start: Result<Session, Exit>) -> Result<SessionView, ExitView> {
    match start {
        Ok(session) => Ok(session@),
        Err(exit) => Err(exit@),
    }
}

/// Builds the line that tells how `program` is to be called.
pub fn usage_line(program: &str) -> (line: String)
    ensures
        line@ == spec_usage_line(program@),
{
    "Usage: ".to_owned().concat(program).concat(" <input_mp4_file>")
}

/// Builds the line that announces the reversed copy at `output`.
pub fn success_line(output: &str) -> (line: String)
    ensures
        line@ == spec_success_line(output@),
{
    "Successfully created reversed video: ".to_owned().concat(output)
}

/// Builds the line that reports a failure with the given message.
pub fn failure_line(message: &str) -> (line: String)
    ensures
        line@ == spec_failure_line(message@),
{
    "Error: ".to_owned().concat(message)
}

/// Reads the command line. `program` is the name the program was called by,
/// `positional` the arguments behind it.
///
/// Exactly one argument opens a reversal of the path it names. Any other
/// number ends the program with the usage line, and no reversal is opened.
pub fn dispatch(program: &str, positional: &Vec<String>) -> (start: Result<Session, Exit>)
    ensures
        dispatch_view(start) == spec_dispatch(program@, positional.deep_view()),
{
    if positional.len() == 1 {
        Ok(Session::begin(positional[0].as_str()))
    } else {
        Err(Exit::Failure(usage_line(program)))
    }
}

/// Turns the end of a reversal into the end of the program: the output path
/// is announced, an error is reported by its message.
pub fn report(result: &Result<String, VideoError>) -> (exit: Exit)
    ensures
        match result_view(*result) {
            Ok(output) => exit@ == ExitView::Success(spec_success_line(output)),
            Err(error) => exists|detail: Seq<char>|
                exit@ == ExitView::Failure(spec_failure_line(spec_message(error, detail))),
        },
{
    match result {
        Ok(output) => Exit::Success(success_line(output.as_str())),
        Err(error) => {
            let message = error.message();
            let exit = Exit::Failure(failure_line(message.as_str()));
            proof {
                let detail = choose|detail: Seq<char>| message@ == spec_message(error@, detail);
                assert(exit@ == ExitView::Failure(
                    spec_failure_line(spec_message(error@, detail)),
                ));
            }
            exit
        },
    }
}

impl Exit {
    /// The status handed to the shell: 0 for success, 1 for any failure.
    pub fn code(&self) -> (status: i32)
        ensures
            status == (if self@ is Success {
                0i32
            } else {
                1i32
            }),
    {
        match self {
            Exit::Success(_) => 0,
            Exit::Failure(_) => 1,
        }
    }
}

} // verus!
