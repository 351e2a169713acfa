//! Child processes as plain data: what to start, and what came of it.

use vstd::prelude::*;
use vstd::utf8::{decode_utf8, valid_utf8};

verus! {

/// A command line: the program to start and the arguments to hand it.
#[derive(Debug, Clone, PartialEq, Eq)]
pub struct Invocation {
    pub program: String,
    pub args: Vec<String>,
}

/// An [`Invocation`] as sequences of characters.
pub struct InvocationView {
    pub program: Seq<char>,
    pub args: Seq<Seq<char>>,
}

impl View for Invocation {
    type V = InvocationView;

    open spec fn view(&self) -> InvocationView {
        InvocationView { program: self.program@, args: self.args.deep_view() }
    }
}

/// What is known of a child process that was started and has exited.
#[derive(Debug, Clone, PartialEq, Eq)]
pub struct SubprocessResult {
    /// Whether it exited with a success status.
    pub success: bool,
    /// The bytes it wrote to its standard error stream.
    pub stderr: Vec<u8>,
}

/// A [`SubprocessResult`] with its bytes as a sequence.
pub struct SubprocessResultView {
    pub success: bool,
    pub stderr: Seq<u8>,
}

impl View for SubprocessResult {
    type V = SubprocessResultView;

    open spec fn view(&self) -> SubprocessResultView {
        SubprocessResultView { success: self.success, stderr: self.stderr@ }
    }
}

/// The command that shows whether `ffmpeg` can be started: `ffmpeg -version`.
pub open spec fn probe_invocation() -> InvocationView {
    InvocationView { program: "ffmpeg"@, args: seq!["-version"@] }
}

/// The command that writes the reversed copy of `input` to `output`:
/// `ffmpeg -i <input> -vf reverse -af areverse -y <output>`.
pub open spec fn transform_invocation(input: Seq<char>, output: Seq<char>) -> InvocationView {
    InvocationView {
        program: "ffmpeg"@,
        args: seq!["-i"@, input, "-vf"@, "reverse"@, "-af"@, "areverse"@, "-y"@, output],
    }
}

/// Builds the availability probe.
pub fn probe_command() -> (command: Invocation)
    ensures
        command@ == probe_invocation(),
{
    let mut args: Vec<String> = Vec::new();
    args.push("-version".to_owned());
    let command = Invocation { program: "ffmpeg".to_owned(), args };
    assert(command@.args =~= probe_invocation().args);
    command
}

/// Builds the command that reverses the frames and the samples of `input`
/// and writes them to `output`, replacing what is there.
pub fn transform_command(input: &str, output: &str) -> (command: Invocation)
    ensures
        command@ == transform_invocation(input@, output@),
{
    let mut args: Vec<String> = Vec::new();
    args.push("-i".to_owned());
    args.push(input.to_owned());
    args.push("-vf".to_owned());
    args.push("reverse".to_owned());
    args.push("-af".to_owned());
    args.push("areverse".to_owned());
    args.push("-y".to_owned());
    args.push(output.to_owned());
    let command = Invocation { program: "ffmpeg".to_owned(), args };
    assert(command@.args =~= transform_invocation(input@, output@).args);
    command
}

/// What `String::from_utf8_lossy` makes of `bytes`. It is asked for only where
/// the bytes are not UTF-8 throughout: there the parts that are not UTF-8 come
/// out as U+FFFD.
pub uninterp spec fn utf8_lossy(bytes: Seq<u8>) -> Seq<char>;

/// The text read out of captured output: bytes that are UTF-8 throughout are
/// decoded as they stand, others as far as they can be.
pub open spec fn lossy_text(bytes: Seq<u8>) -> Seq<char> {
    if valid_utf8(bytes) {
        decode_utf8(bytes)
    } else {
        utf8_lossy(bytes)
    }
}

/// Calls `String::from_utf8_lossy`.
///
/// Trusted: bytes that are UTF-8 throughout are decoded as they stand, and
/// the text made of any others is the one named [`utf8_lossy`].
#[verifier::external_body]
pub(crate) fn decode_lossy(bytes: &Vec<u8>) -> (text: String)
    ensures
        text@ == (if valid_utf8(bytes@) {
            decode_utf8(bytes@)
        } else {
            utf8_lossy(bytes@)
        }),
{
    String::from_utf8_lossy(bytes).into_owned()
}

} // verus!
