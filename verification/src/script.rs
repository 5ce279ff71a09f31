//! The loop itself, run over a scripted stream of frame outcomes.
//!
//! Each iteration of the real loop renders one frame and then polls once for
//! input. Seen from the loop, one iteration therefore has exactly one of
//! three outcomes: the draw failed, the draw succeeded and the poll failed,
//! or the draw succeeded and the poll returned at most one event. `FrameInput`
//! names these outcomes, and `run_script` is the loop's whole decision logic
//! run over a finite stream of them: it renders (consumes one `FrameInput`)
//! per iteration, stops on the exit event, and surfaces the first failure
//! without retrying. The unverified binary replays exactly this logic frame
//! by frame against the live terminal.

use vstd::prelude::*;

use crate::event::InputEvent;
use crate::machine::poll_is_exit;

verus! {

/// What one iteration's outside work came to: the draw failed, the draw
/// succeeded and the poll failed, or both succeeded and the poll produced at
/// most one event.
#[derive(Clone, Copy, Debug, PartialEq, Eq, Structural)]
pub enum FrameInput {
    RenderFailed,
    PollFailed,
    Polled(Option<InputEvent>),
}

/// The two fatal failures a run can surface: the draw failed, or reading
/// input failed. Neither is retried.
#[derive(Clone, Copy, Debug, PartialEq, Eq, Structural)]
pub enum RunError {
    Render,
    Input,
}

/// How a run ended: the exit event was observed (a clean quit), a render or
/// input failure was surfaced, or the stream of frame outcomes ended while
/// the loop was still running (an external cancellation).
#[derive(Clone, Copy, Debug, PartialEq, Eq, Structural)]
pub enum RunResult {
    Stopped,
    Failed(RunError),
    Cancelled,
}

/// What a whole run did: how many frames it rendered (counting a frame whose
/// draw failed), and how it ended.
#[derive(Clone, Copy, Debug, PartialEq, Eq, Structural)]
pub struct RunReport {
    pub renders: usize,
    pub result: RunResult,
}

/// A frame outcome on which the loop continues: the draw and the poll both
/// succeeded and no exit event arrived.
pub open spec fn frame_continues(f: FrameInput, quit: char) -> bool {
    f matches FrameInput::Polled(p) && !poll_is_exit(p, quit)
}

/// A frame outcome on which the loop stops cleanly: the exit event arrived.
pub open spec fn frame_stops(f: FrameInput, quit: char) -> bool {
    f matches FrameInput::Polled(p) && poll_is_exit(p, quit)
}

/// How many frames the loop renders on a given stream: one per iteration, up
/// to and including the frame on which it stops or fails, or the whole
/// stream if no frame stops it.
pub open spec fn renders_spec(frames: Seq<FrameInput>, quit: char) -> int
    decreases frames.len(),
{
    if frames.len() == 0 {
        0
    } else if frame_continues(frames[0], quit) {
        1 + renders_spec(frames.drop_first(), quit)
    } else {
        1
    }
}

/// How a run over a given stream ends: the first non-continuing frame
/// decides, and a stream of only continuing frames ends in `Cancelled`.
pub open spec fn result_spec(frames: Seq<FrameInput>, quit: char) -> RunResult
    decreases frames.len(),
{
    if frames.len() == 0 {
        RunResult::Cancelled
    } else {
        match frames[0] {
            FrameInput::RenderFailed => RunResult::Failed(RunError::Render),
            FrameInput::PollFailed => RunResult::Failed(RunError::Input),
            FrameInput::Polled(p) => if poll_is_exit(p, quit) {
                RunResult::Stopped
            } else {
                result_spec(frames.drop_first(), quit)
            },
        }
    }
}

/// Runs the loop over a scripted stream of frame outcomes: render, poll,
/// decide, once per `FrameInput`, exactly as the live loop does against the
/// terminal.
pub fn run_script(frames: &Vec<FrameInput>, quit: char) -> (r: RunReport)
    ensures
        r.renders as int == renders_spec(frames@, quit),
        r.result == result_spec(frames@, quit),
{
    let n = frames.len();
    let mut i: usize = 0;
    proof {
        assert(frames@.skip(0) =~= frames@);
    }
    while i < n
        invariant
            i <= n,
            n == frames@.len(),
            renders_spec(frames@, quit) == i + renders_spec(frames@.skip(i as int), quit),
            result_spec(frames@, quit) == result_spec(frames@.skip(i as int), quit),
        decreases n - i,
    {
        let ghost s = frames@;
        let ghost rest = s.skip(i as int);
        proof {
            assert(rest[0] == s[i as int]);
            assert(rest.drop_first() =~= s.skip(i as int + 1));
        }
        match &frames[i] {
            FrameInput::RenderFailed => {
                return RunReport { renders: i + 1, result: RunResult::Failed(RunError::Render) };
            },
            FrameInput::PollFailed => {
                return RunReport { renders: i + 1, result: RunResult::Failed(RunError::Input) };
            },
            FrameInput::Polled(p) => {
                if let Some(e) = p {
                    if crate::event::is_exit_event(e, quit) {
                        return RunReport { renders: i + 1, result: RunResult::Stopped };
                    }
                }
            },
        }
        i = i + 1;
    }
    RunReport { renders: i, result: RunResult::Cancelled }
}

/// Over any stream of only non-exit events (every draw and poll succeeding),
/// the loop renders every frame and never stops: it ends still running, in
/// `Cancelled`, never in `Stopped`.
pub proof fn lemma_non_exit_runs_whole_stream(frames: Seq<FrameInput>, quit: char)
    requires
        forall|i: int| 0 <= i < frames.len() ==> frame_continues(#[trigger] frames[i], quit),
    ensures
        renders_spec(frames, quit) == frames.len(),
        result_spec(frames, quit) is Cancelled,
    decreases frames.len(),
{
    if frames.len() > 0 {
        lemma_non_exit_runs_whole_stream(frames.drop_first(), quit);
    }
}

/// The first exit event stops the run at exactly its own frame: with no
/// earlier exit or failure, the run ends `Stopped` after rendering `k + 1`
/// frames and touches nothing that follows.
pub proof fn lemma_exit_stops_run(frames: Seq<FrameInput>, quit: char, k: int)
    requires
        0 <= k < frames.len(),
        forall|i: int| 0 <= i < k ==> frame_continues(#[trigger] frames[i], quit),
        frame_stops(frames[k], quit),
    ensures
        renders_spec(frames, quit) == k + 1,
        result_spec(frames, quit) is Stopped,
    decreases k,
{
    if k > 0 {
        lemma_exit_stops_run(frames.drop_first(), quit, k - 1);
    }
}

/// A failed draw is fatal at exactly its own frame: with no earlier exit or
/// failure, the run surfaces the render error after `k + 1` render calls.
pub proof fn lemma_render_failure_is_fatal(frames: Seq<FrameInput>, quit: char, k: int)
    requires
        0 <= k < frames.len(),
        forall|i: int| 0 <= i < k ==> frame_continues(#[trigger] frames[i], quit),
        frames[k] is RenderFailed,
    ensures
        renders_spec(frames, quit) == k + 1,
        result_spec(frames, quit) == RunResult::Failed(RunError::Render),
    decreases k,
{
    if k > 0 {
        lemma_render_failure_is_fatal(frames.drop_first(), quit, k - 1);
    }
}

/// A failed poll is fatal at exactly its own frame: with no earlier exit or
/// failure, the run surfaces the input error after `k + 1` render calls.
pub proof fn lemma_input_failure_is_fatal(frames: Seq<FrameInput>, quit: char, k: int)
    requires
        0 <= k < frames.len(),
        forall|i: int| 0 <= i < k ==> frame_continues(#[trigger] frames[i], quit),
        frames[k] is PollFailed,
    ensures
        renders_spec(frames, quit) == k + 1,
        result_spec(frames, quit) == RunResult::Failed(RunError::Input),
    decreases k,
{
    if k > 0 {
        lemma_input_failure_is_fatal(frames.drop_first(), quit, k - 1);
    }
}

} // verus!
