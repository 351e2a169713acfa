//! Whole reversals: what a caller is led through.
//!
//! A [`World`] fixes what a caller who answers truthfully will observe. From
//! it and the input path the course of a reversal follows, step by step; the
//! theorems below say what that course is in each of the cases a reversal
//! can fall under. The last ones bind any caller, truthful or not.

use vstd::prelude::*;
use vstd::utf8::{encode_utf8, encode_utf8_decode_utf8, encode_utf8_valid_utf8};
use crate::error::VideoErrorView;
use crate::paths::{output_path, path_extension, spec_is_mp4};
use crate::process::{lossy_text, probe_invocation, transform_invocation, SubprocessResultView};
use crate::session::{
    opening, probing, spawned, step, transform_verdict, transforming, ReplyView, SessionView,
};

verus! {

/// What there is to observe while one reversal runs.
pub struct World {
    /// Whether the input path names an existing filesystem entry.
    pub exists: bool,
    /// What comes of running the availability probe.
    pub probe: Result<SubprocessResultView, std::io::Error>,
    /// What comes of running the transformation.
    pub transform: Result<SubprocessResultView, std::io::Error>,
}

/// The truthful reply to what `session` asks for. To a finished session, which
/// asks for nothing, any reply will do.
pub open spec fn answer(world: World, session: SessionView) -> ReplyView {
    match session {
        SessionView::CheckInput { .. } => ReplyView::Exists(world.exists),
        SessionView::Probe { .. } => ReplyView::Ran(world.probe),
        SessionView::Transform { .. } => ReplyView::Ran(world.transform),
        SessionView::Finished(_) => ReplyView::Exists(world.exists),
    }
}

/// Where the reversal of `input` stands after `steps` truthful replies.
pub open spec fn reached(input: Seq<char>, world: World, steps: nat) -> SessionView
    decreases steps,
{
    if steps == 0 {
        opening(input)
    } else {
        let before = reached(input, world, (steps - 1) as nat);
        step(before, answer(world, before))
    }
}

/// The input passes both checks made of it.
pub open spec fn input_accepted(input: Seq<char>, world: World) -> bool {
    world.exists && spec_is_mp4(path_extension(input))
}

/// A finished reversal stays as it is, whatever is replied.
pub proof fn finished_is_final(result: Result<Seq<char>, VideoErrorView>, reply: ReplyView)
    ensures
        step(SessionView::Finished(result), reply) == SessionView::Finished(result),
{
}

/// Once a reversal has finished, further truthful replies leave it where it is.
pub proof fn finished_stays(input: Seq<char>, world: World, at: nat, steps: nat)
    requires
        reached(input, world, at) is Finished,
        at <= steps,
    ensures
        reached(input, world, steps) == reached(input, world, at),
    decreases steps,
{
    if at < steps {
        finished_stays(input, world, at, (steps - 1) as nat);
    }
}

/// A path that does not exist is turned down on the first reply, and no
/// process is ever asked for.
pub proof fn missing_input_is_rejected(input: Seq<char>, world: World, steps: nat)
    requires
        !world.exists,
    ensures
        spawned(reached(input, world, steps)) is None,
        steps >= 1 ==> reached(input, world, steps) == SessionView::Finished(
            Err(VideoErrorView::InvalidInput("Input file does not exist"@)),
        ),
{
    assert(reached(input, world, 0) == opening(input));
    assert(reached(input, world, 1) == step(opening(input), answer(world, opening(input))));
    if steps >= 1 {
        finished_stays(input, world, 1, steps);
    }
}

/// A path whose extension is not exactly `mp4` is turned down on the first
/// reply, whether it exists or not, and no process is ever asked for.
pub proof fn wrong_extension_is_rejected(input: Seq<char>, world: World, steps: nat)
    requires
        !spec_is_mp4(path_extension(input)),
    ensures
        spawned(reached(input, world, steps)) is None,
        steps >= 1 ==> reached(input, world, steps) == SessionView::Finished(
            Err(
                VideoErrorView::InvalidInput(
                    if world.exists {
                        "Input file must be an MP4"@
                    } else {
                        "Input file does not exist"@
                    },
                ),
            ),
        ),
{
    assert(reached(input, world, 0) == opening(input));
    assert(reached(input, world, 1) == step(opening(input), answer(world, opening(input))));
    if steps >= 1 {
        finished_stays(input, world, 1, steps);
    }
}

/// When the probe cannot be started, the reversal ends on the second reply
/// with `FFmpegNotFound`; the probe is the only process asked for, and the
/// transformation never is.
pub proof fn unavailable_tool_ends_reversal(input: Seq<char>, world: World, steps: nat)
    requires
        input_accepted(input, world),
        world.probe is Err,
    ensures
        reached(input, world, 1) == probing(input),
        steps >= 2 ==> reached(input, world, steps) == SessionView::Finished(
            Err(VideoErrorView::FFmpegNotFound),
        ),
        !(reached(input, world, steps) is Transform),
        spawned(reached(input, world, steps)) is Some <==> steps == 1,
{
    assert(reached(input, world, 0) == opening(input));
    assert(reached(input, world, 1) == step(opening(input), answer(world, opening(input))));
    assert(reached(input, world, 2) == step(probing(input), answer(world, probing(input))));
    if steps >= 2 {
        finished_stays(input, world, 2, steps);
    }
}

/// The course of a reversal whose input is accepted and whose probe starts:
/// first the probe is asked for, then the transformation of the input into
/// the derived output path, and the third reply ends it with the verdict on
/// the transformation. No other process is asked for.
pub proof fn available_tool_runs_transformation(input: Seq<char>, world: World, steps: nat)
    requires
        input_accepted(input, world),
        world.probe is Ok,
    ensures
        reached(input, world, 0) == opening(input),
        reached(input, world, 1) == probing(input),
        reached(input, world, 2) == transforming(input),
        spawned(reached(input, world, 1)) == Some(probe_invocation()),
        spawned(reached(input, world, 2)) == Some(
            transform_invocation(input, output_path(input)),
        ),
        steps >= 3 ==> reached(input, world, steps) == SessionView::Finished(
            transform_verdict(output_path(input), world.transform),
        ),
        spawned(reached(input, world, steps)) is Some <==> steps == 1 || steps == 2,
{
    assert(reached(input, world, 0) == opening(input));
    assert(reached(input, world, 1) == step(opening(input), answer(world, opening(input))));
    assert(reached(input, world, 2) == step(probing(input), answer(world, probing(input))));
    assert(reached(input, world, 3) == step(
        transforming(input),
        answer(world, transforming(input)),
    ));
    if steps >= 3 {
        finished_stays(input, world, 3, steps);
    }
}

/// When the transformation cannot be started, the reversal ends with the
/// failure that the operating system reported.
pub proof fn unstartable_transformation_is_reported(
    input: Seq<char>,
    world: World,
    cause: std::io::Error,
    steps: nat,
)
    requires
        input_accepted(input, world),
        world.probe is Ok,
        world.transform == Err::<SubprocessResultView, std::io::Error>(cause),
        steps >= 3,
    ensures
        reached(input, world, steps) == SessionView::Finished(
            Err(VideoErrorView::IoError(cause)),
        ),
{
    available_tool_runs_transformation(input, world, steps);
}

/// When the transformation exits with a failure status, the reversal ends
/// with `ProcessingError`, holding what the transformation wrote to its
/// standard error stream, read as text.
pub proof fn failed_transformation_is_reported(
    input: Seq<char>,
    world: World,
    finished: SubprocessResultView,
    steps: nat,
)
    requires
        input_accepted(input, world),
        world.probe is Ok,
        world.transform == Ok::<SubprocessResultView, std::io::Error>(finished),
        !finished.success,
        steps >= 3,
    ensures
        reached(input, world, steps) == SessionView::Finished(
            Err(VideoErrorView::ProcessingError(lossy_text(finished.stderr))),
        ),
{
    available_tool_runs_transformation(input, world, steps);
}

/// A diagnostic that the transformation wrote as UTF-8 is reported letter for
/// letter.
pub proof fn diagnostic_is_reported_verbatim(
    input: Seq<char>,
    world: World,
    finished: SubprocessResultView,
    diagnostic: Seq<char>,
    steps: nat,
)
    requires
        input_accepted(input, world),
        world.probe is Ok,
        world.transform == Ok::<SubprocessResultView, std::io::Error>(finished),
        !finished.success,
        finished.stderr == encode_utf8(diagnostic),
        steps >= 3,
    ensures
        reached(input, world, steps) == SessionView::Finished(
            Err(VideoErrorView::ProcessingError(diagnostic)),
        ),
{
    failed_transformation_is_reported(input, world, finished, steps);
    encode_utf8_valid_utf8(diagnostic);
    encode_utf8_decode_utf8(diagnostic);
}

/// When the probe starts and the transformation exits with success, the
/// reversal ends with the derived output path, after exactly two processes
/// were asked for: the probe, then the transformation.
pub proof fn successful_reversal_yields_output(
    input: Seq<char>,
    world: World,
    finished: SubprocessResultView,
    steps: nat,
)
    requires
        input_accepted(input, world),
        world.probe is Ok,
        world.transform == Ok::<SubprocessResultView, std::io::Error>(finished),
        finished.success,
    ensures
        steps >= 3 ==> reached(input, world, steps) == SessionView::Finished(
            Ok(output_path(input)),
        ),
        spawned(reached(input, world, steps)) == (if steps == 1 {
            Some(probe_invocation())
        } else if steps == 2 {
            Some(transform_invocation(input, output_path(input)))
        } else {
            None
        }),
{
    available_tool_runs_transformation(input, world, steps);
}

/// Where `session` stands after the given replies, taken in order. Nothing is
/// supposed of the replies: they need not be truthful, nor answer what was
/// asked.
pub open spec fn after(session: SessionView, replies: Seq<ReplyView>) -> SessionView
    decreases replies.len(),
{
    if replies.len() == 0 {
        session
    } else {
        step(after(session, replies.drop_last()), replies.last())
    }
}

/// Some reply tells of a process that was started.
pub open spec fn started(replies: Seq<ReplyView>) -> bool {
    exists|i: int| 0 <= i < replies.len() && #[trigger] replies[i] is Ran && replies[i]->Ran_0 is Ok
}

/// Whatever a caller replies, a reversal of `input` that has not finished
/// stands at one of three points: before the existence check; before the
/// probe, the input having been reported as existing and its extension being
/// `mp4`; or before the transformation of `input` into its derived output
/// path, a process having been reported as started besides.
pub proof fn any_caller_keeps_course(input: Seq<char>, replies: Seq<ReplyView>)
    ensures
        ({
            let session = after(opening(input), replies);
            let accepted = spec_is_mp4(path_extension(input)) && replies.contains(
                ReplyView::Exists(true),
            );
            ||| session == opening(input)
            ||| session == probing(input) && accepted
            ||| session == transforming(input) && accepted && started(replies)
            ||| session is Finished
        }),
    decreases replies.len(),
{
    if replies.len() > 0 {
        let earlier = replies.drop_last();
        any_caller_keeps_course(input, earlier);
        assert forall|reply: ReplyView| earlier.contains(reply) implies replies.contains(
            reply,
        ) by {
            let i = choose|i: int| 0 <= i < earlier.len() && earlier[i] == reply;
            assert(replies[i] == reply);
        }
        if started(earlier) {
            let i = choose|i: int|
                0 <= i < earlier.len() && #[trigger] earlier[i] is Ran && earlier[i]->Ran_0 is Ok;
            assert(replies[i] is Ran && replies[i]->Ran_0 is Ok);
        }
        assert(replies[replies.len() - 1] == replies.last());
    }
}

/// Whatever a caller replies, a process is asked for only after the input was
/// reported as existing, and only for an input whose extension is `mp4`; and
/// it is the probe or the transformation of this input, never anything else.
pub proof fn process_needs_accepted_input(input: Seq<char>, replies: Seq<ReplyView>)
    requires
        spawned(after(opening(input), replies)) is Some,
    ensures
        spec_is_mp4(path_extension(input)),
        replies.contains(ReplyView::Exists(true)),
        spawned(after(opening(input), replies)) == Some(probe_invocation()) || spawned(
            after(opening(input), replies),
        ) == Some(transform_invocation(input, output_path(input))),
{
    any_caller_keeps_course(input, replies);
}

/// Whatever a caller replies, the transformation is asked for only after a
/// process was reported as started.
pub proof fn transformation_needs_started_probe(input: Seq<char>, replies: Seq<ReplyView>)
    requires
        after(opening(input), replies) is Transform,
    ensures
        started(replies),
{
    any_caller_keeps_course(input, replies);
}

} // verus!
