//! The acquire/run/release lifecycle around one run of the loop.
//!
//! The terminal is acquired once, the loop runs, and the terminal is
//! released exactly once on every exit path — clean quit, surfaced failure,
//! or cancellation. If acquisition fails, the loop is never entered and
//! nothing is released. A failure of the release itself is reported beside
//! the run's own outcome, never in place of it.

use vstd::prelude::*;

use crate::script::FrameInput;
use crate::script::RunReport;
use crate::script::RunResult;
use crate::script::renders_spec;
use crate::script::result_spec;
use crate::script::run_script;

verus! {

/// The poll timeout of one iteration, in milliseconds (about sixty frames a
/// second).
pub const POLL_INTERVAL_MS: u64 = 16;

/// The key whose press ends the loop in every shipped view.
pub const DEFAULT_QUIT_KEY: char = 'q';

/// How a whole session ended. Acquisition failing aborts before any
/// rendering; otherwise the run's own result and the release's outcome are
/// both carried, so neither failure masks the other.
#[derive(Clone, Copy, Debug, PartialEq, Eq, Structural)]
pub enum SessionResult {
    InitFailed,
    Completed { run: RunResult, restore_failed: bool },
}

/// What one session did: whether the loop was entered, how many frames it
/// rendered, how often the terminal was released, and how it all ended.
#[derive(Clone, Copy, Debug, PartialEq, Eq, Structural)]
pub struct SessionReport {
    pub run_entered: bool,
    pub renders: usize,
    pub releases: usize,
    pub result: SessionResult,
}

/// The one session outcome that exits cleanly: the loop was entered, stopped
/// on the exit event, and the terminal was restored.
pub open spec fn is_clean_exit(r: SessionResult) -> bool {
    r matches SessionResult::Completed { run, restore_failed }
        && run is Stopped && !restore_failed
}

/// Drives one whole session over scripted outside outcomes: whether
/// acquisition succeeded, what each frame's draw and poll came to, and
/// whether the release succeeded.
///
/// The contract carries the lifecycle guarantees: the loop is entered if and
/// only if acquisition succeeded; the terminal is released exactly once per
/// entered run, whatever the run's outcome, and never when acquisition
/// failed; and a release failure is reported beside the run's result, not in
/// its place.
pub fn session(
    acquire_ok: bool,
    frames: &Vec<FrameInput>,
    restore_ok: bool,
    quit: char,
) -> (r: SessionReport)
    ensures
        r.run_entered == acquire_ok,
        r.releases == (if acquire_ok { 1usize } else { 0usize }),
        !acquire_ok ==> r.result is InitFailed && r.renders == 0,
        acquire_ok ==> r.renders as int == renders_spec(frames@, quit),
        acquire_ok ==> r.result == (SessionResult::Completed {
            run: result_spec(frames@, quit),
            restore_failed: !restore_ok,
        }),
{
    if !acquire_ok {
        return SessionReport {
            run_entered: false,
            renders: 0,
            releases: 0,
            result: SessionResult::InitFailed,
        };
    }
    let run: RunReport = run_script(frames, quit);
    SessionReport {
        run_entered: true,
        renders: run.renders,
        releases: 1,
        result: SessionResult::Completed { run: run.result, restore_failed: !restore_ok },
    }
}

/// The process exit code for a session: zero exactly on a clean quit, and
/// one on any surfaced failure — acquisition, render, input, cancellation,
/// or restore.
pub fn exit_code(r: &SessionResult) -> (c: i32)
    ensures
        c == (if is_clean_exit(*r) { 0i32 } else { 1i32 }),
{
    match r {
        SessionResult::Completed { run: RunResult::Stopped, restore_failed: false } => 0,
        _ => 1,
    }
}

} // verus!
