//! The loop's two-state machine.
//!
//! The loop is `Running` from the moment the terminal is acquired and becomes
//! `Stopped` exactly when a polled event satisfies the exit predicate.
//! `Stopped` is terminal. Each iteration renders one frame and then polls
//! once, so the state advances once per poll outcome: `None` for a poll that
//! timed out with no event, `Some(e)` for a polled event `e`.

use vstd::prelude::*;

use crate::event::InputEvent;
use crate::event::is_exit_event;
use crate::event::is_exit_spec;

verus! {

/// The two states of the loop: still rendering and polling, or done.
#[derive(Clone, Copy, Debug, PartialEq, Eq, Structural)]
pub enum LoopState {
    Running,
    Stopped,
}

/// Whether one poll outcome carries the exit event.
pub open spec fn poll_is_exit(p: Option<InputEvent>, quit: char) -> bool {
    p matches Some(e) && is_exit_spec(e, quit)
}

/// How the state advances on one poll outcome: `Stopped` stays `Stopped`,
/// and `Running` becomes `Stopped` exactly on the exit event.
pub open spec fn step_spec(s: LoopState, p: Option<InputEvent>, quit: char) -> LoopState {
    match s {
        LoopState::Stopped => LoopState::Stopped,
        LoopState::Running => if poll_is_exit(p, quit) {
            LoopState::Stopped
        } else {
            LoopState::Running
        },
    }
}

/// The state after starting in `Running` and taking one step per poll
/// outcome, in order.
pub open spec fn state_after(polls: Seq<Option<InputEvent>>, quit: char) -> LoopState
    decreases polls.len(),
{
    if polls.len() == 0 {
        LoopState::Running
    } else {
        step_spec(state_after(polls.drop_last(), quit), polls.last(), quit)
    }
}

/// Advances the loop state by one poll outcome.
pub fn step(s: LoopState, p: &Option<InputEvent>, quit: char) -> (next: LoopState)
    ensures
        next == step_spec(s, *p, quit),
{
    match s {
        LoopState::Stopped => LoopState::Stopped,
        LoopState::Running => match p {
            Some(e) => if is_exit_event(e, quit) {
                LoopState::Stopped
            } else {
                LoopState::Running
            },
            None => LoopState::Running,
        },
    }
}

/// `Stopped` is terminal: no later poll outcome leaves it.
pub proof fn lemma_stopped_is_terminal(p: Option<InputEvent>, quit: char)
    ensures
        step_spec(LoopState::Stopped, p, quit) is Stopped,
{
}

/// Over any sequence of poll outcomes none of which carries the exit event,
/// the loop remains `Running`: it never stops without the designated exit
/// event.
pub proof fn lemma_non_exit_keeps_running(polls: Seq<Option<InputEvent>>, quit: char)
    requires
        forall|i: int| 0 <= i < polls.len() ==> !poll_is_exit(#[trigger] polls[i], quit),
    ensures
        state_after(polls, quit) is Running,
    decreases polls.len(),
{
    if polls.len() > 0 {
        lemma_non_exit_keeps_running(polls.drop_last(), quit);
    }
}

/// One exit event, with none before it, moves `Running` to `Stopped` at
/// exactly that step: the state is still `Running` after the first `k` poll
/// outcomes and `Stopped` right after the exit event.
pub proof fn lemma_first_exit_stops(polls: Seq<Option<InputEvent>>, quit: char, k: int)
    requires
        0 <= k < polls.len(),
        forall|i: int| 0 <= i < k ==> !poll_is_exit(#[trigger] polls[i], quit),
        poll_is_exit(polls[k], quit),
    ensures
        state_after(polls.take(k), quit) is Running,
        state_after(polls.take(k + 1), quit) is Stopped,
{
    lemma_non_exit_keeps_running(polls.take(k), quit);
    assert(polls.take(k + 1).drop_last() =~= polls.take(k));
    assert(polls.take(k + 1).last() == polls[k]);
}

} // verus!
