//! One reversal as a conversation: the library asks, the caller answers.
//!
//! A [`Session`] is both the state of a reversal and the request now pending.
//! The caller does what the session asks for, and hands the outcome back as a
//! [`Reply`]; the step that follows is decided here.

use vstd::prelude::*;
use crate::error::{VideoError, VideoErrorView};
use crate::paths::{output_path, path_extension, spec_is_mp4};
use crate::process::{
    lossy_text, probe_invocation, transform_invocation, Invocation, InvocationView,
    SubprocessResult, SubprocessResultView,
};

verus! {

/// What the caller observed when it did what a session asked for.
#[derive(Debug)]
pub enum Reply {
    /// Whether the input path names an existing filesystem entry.
    Exists(bool),
    /// What came of starting a process: its result once it has exited, or the
    /// failure to start it.
    Ran(Result<SubprocessResult, std::io::Error>),
}

/// A [`Reply`] over sequences.
pub enum ReplyView {
    Exists(bool),
    Ran(Result<SubprocessResultView, std::io::Error>),
}

/// The outcome of starting a process, over sequences.
pub open spec fn ran_view(
    outcome: Result<SubprocessResult, std::io::Error>,
) -> Result<SubprocessResultView, std::io::Error> {
    match outcome {
        Ok(finished) => Ok(finished@),
        Err(cause) => Err(cause),
    }
}

impl View for Reply {
    type V = ReplyView;

    open spec fn view(&self) -> ReplyView {
        match self {
            Reply::Exists(exists) => ReplyView::Exists(*exists),
            Reply::Ran(outcome) => ReplyView::Ran(ran_view(*outcome)),
        }
    }
}

/// Where a reversal stands.
#[derive(Debug)]
pub enum Session {
    /// Asks whether `input` names an existing filesystem entry.
    CheckInput { input: String },
    /// Asks for `command`, the availability probe, to be run.
    Probe { input: String, command: Invocation },
    /// Asks for `command`, the transformation that writes to `output`, to be
    /// run.
    Transform { output: String, command: Invocation },
    /// Asks for nothing more: the reversal has ended, with the path of the
    /// reversed copy or with the reason why there is none.
    Finished(Result<String, VideoError>),
}

/// A [`Session`] over sequences.
pub enum SessionView {
    CheckInput { input: Seq<char> },
    Probe { input: Seq<char>, command: InvocationView },
    Transform { output: Seq<char>, command: InvocationView },
    Finished(Result<Seq<char>, VideoErrorView>),
}

/// The end of a reversal, over sequences.
pub open spec fn result_view(result: Result<String, VideoError>) -> Result<
    Seq<char>,
    VideoErrorView,
> {
    match result {
        Ok(output) => Ok(output@),
        Err(error) => Err(error@),
    }
}

impl View for Session {
    type V = SessionView;

    open spec fn view(&self) -> SessionView {
        match self {
            Session::CheckInput { input } => SessionView::CheckInput { input: input@ },
            Session::Probe { input, command } => SessionView::Probe {
                input: input@,
                command: command@,
            },
            Session::Transform { output, command } => SessionView::Transform {
                output: output@,
                command: command@,
            },
            Session::Finished(result) => SessionView::Finished(result_view(*result)),
        }
    }
}

/// The session that a reversal of `input` starts in.
pub open spec fn opening(input: Seq<char>) -> SessionView {
    SessionView::CheckInput { input }
}

/// The process that a session asks to be run, if it asks for one.
pub open spec fn spawned(session: SessionView) -> Option<InvocationView> {
    match session {
        SessionView::Probe { command, .. } => Some(command),
        SessionView::Transform { command, .. } => Some(command),
        _ => None,
    }
}

/// The session that asks for the availability probe.
pub open spec fn probing(input: Seq<char>) -> SessionView {
    SessionView::Probe { input, command: probe_invocation() }
}

/// The session that asks for the transformation of `input`.
pub open spec fn transforming(input: Seq<char>) -> SessionView {
    SessionView::Transform {
        output: output_path(input),
        command: transform_invocation(input, output_path(input)),
    }
}

/// The verdict on the input: it must exist, and then its extension must be
/// exactly `mp4`. Existence is judged first.
pub open spec fn input_verdict(exists: bool, extension: Option<Seq<char>>) -> Result<
    (),
    VideoErrorView,
> {
    if !exists {
        Err(VideoErrorView::InvalidInput("Input file does not exist"@))
    } else if !spec_is_mp4(extension) {
        Err(VideoErrorView::InvalidInput("Input file must be an MP4"@))
    } else {
        Ok(())
    }
}

/// The verdict on the availability probe: only whether the process could be
/// started counts, not how it exited.
pub open spec fn probe_verdict(started: bool) -> Result<(), VideoErrorView> {
    if started {
        Ok(())
    } else {
        Err(VideoErrorView::FFmpegNotFound)
    }
}

/// The verdict on a transformation that exited: its exit status alone decides.
/// `diagnostic` is what it wrote to its standard error stream, as text.
pub open spec fn exit_verdict(output: Seq<char>, success: bool, diagnostic: Seq<char>) -> Result<
    Seq<char>,
    VideoErrorView,
> {
    if success {
        Ok(output)
    } else {
        Err(VideoErrorView::ProcessingError(diagnostic))
    }
}

/// The verdict on the transformation, whether it could be started or not.
pub open spec fn transform_verdict(
    output: Seq<char>,
    outcome: Result<SubprocessResultView, std::io::Error>,
) -> Result<Seq<char>, VideoErrorView> {
    match outcome {
        Ok(finished) => exit_verdict(output, finished.success, lossy_text(finished.stderr)),
        Err(cause) => Err(VideoErrorView::IoError(cause)),
    }
}

/// The session that follows `session` on `reply`.
///
/// A reply that does not answer what the session asked for changes nothing,
/// and a finished session stays as it is.
pub open spec fn step(session: SessionView, reply: ReplyView) -> SessionView {
    match (session, reply) {
        (SessionView::CheckInput { input }, ReplyView::Exists(exists)) => {
            match input_verdict(exists, path_extension(input)) {
                Ok(_) => probing(input),
                Err(error) => SessionView::Finished(Err(error)),
            }
        },
        (SessionView::Probe { input, .. }, ReplyView::Ran(outcome)) => {
            match probe_verdict(outcome is Ok) {
                Ok(_) => transforming(input),
                Err(error) => SessionView::Finished(Err(error)),
            }
        },
        (SessionView::Transform { output, .. }, ReplyView::Ran(outcome)) => {
            SessionView::Finished(transform_verdict(output, outcome))
        },
        _ => session,
    }
}

impl Session {
    /// Opens the reversal of `input_path`. Nothing has been looked at yet.
    pub fn begin(input_path: &str) -> (session: Session)
        ensures
            session@ == opening(input_path@),
    {
        Session::CheckInput { input: input_path.to_owned() }
    }
}

} // verus!
