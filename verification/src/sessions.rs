//! Ending the sessions that run under the old configuration.
//!
//! A session holds the configuration it was started with, so a switch ends
//! every running session. The supervisor that runs the sessions is not part
//! of this library: this module decides what to ask of it next, and its
//! caller asks.
use vstd::prelude::*;

verus! {

/// A running session, as the supervisor reports it.
#[derive(Debug, Clone, PartialEq, Eq)]
pub struct SessionInfo {
    pub id: i64,
    pub pid: u32,
    pub kind: String,
}

/// How the request to stop a session ended.
#[derive(Debug, Clone, PartialEq, Eq)]
pub enum StopOutcome {
    /// The supervisor reports the session as stopped.
    Stopped,
    /// The supervisor reports that it did not stop the session.
    NotStopped,
    /// The request failed; the text says why.
    Failed(String),
}

impl StopOutcome {
    pub open spec fn is_stopped(self) -> bool {
        self is Stopped
    }
}

/// What to ask of the supervisor next.
#[derive(Debug, Clone, Copy, PartialEq, Eq, Structural)]
pub enum SweepAction {
    /// Ask the session at `index` to stop.
    Stop { index: usize, id: i64 },
    /// Stop the session at `index` by force, by its process id.
    ForceStop { index: usize, id: i64, pid: u32 },
    /// Every session has had its turn.
    Finished,
}

/// The turn of the session at `index`: a request to stop it, or the end of
/// the sweep behind the last session.
pub open spec fn spec_turn(sessions: Seq<SessionInfo>, index: int) -> SweepAction {
    if 0 <= index < sessions.len() {
        SweepAction::Stop { index: index as usize, id: sessions[index].id }
    } else {
        SweepAction::Finished
    }
}

/// What follows the request to stop the session at `index`: the next
/// session's turn where the session stopped, else a forced stop of the same
/// session.
pub open spec fn spec_after_stop(sessions: Seq<SessionInfo>, index: int, outcome: StopOutcome) -> SweepAction {
    if outcome.is_stopped() || !(0 <= index < sessions.len()) {
        spec_turn(sessions, index + 1)
    } else {
        SweepAction::ForceStop {
            index: index as usize,
            id: sessions[index].id,
            pid: sessions[index].pid,
        }
    }
}

fn turn(sessions: &Vec<SessionInfo>, index: usize) -> (r: SweepAction)
    ensures
        r == spec_turn(sessions@, index as int),
{
    if index < sessions.len() {
        SweepAction::Stop { index, id: sessions[index].id }
    } else {
        SweepAction::Finished
    }
}

/// The first thing to ask: the first session's turn.
pub fn begin_sweep(sessions: &Vec<SessionInfo>) -> (r: SweepAction)
    ensures
        r == spec_turn(sessions@, 0),
{
    turn(sessions, 0)
}

/// What to ask after the request to stop the session at `index` ended
/// with `outcome`.
pub fn after_stop(sessions: &Vec<SessionInfo>, index: usize, outcome: &StopOutcome) -> (r: SweepAction)
    ensures
        r == spec_after_stop(sessions@, index as int, *outcome),
{
    if index >= sessions.len() {
        return SweepAction::Finished;
    }
    match outcome {
        StopOutcome::Stopped => turn(sessions, index + 1),
        _ => SweepAction::ForceStop { index, id: sessions[index].id, pid: sessions[index].pid },
    }
}

/// What to ask after the forced stop of the session at `index`: the next
/// session's turn, whether the forced stop succeeded or not.
pub fn after_force_stop(sessions: &Vec<SessionInfo>, index: usize, succeeded: bool) -> (r: SweepAction)
    ensures
        r == spec_turn(sessions@, index + 1),
{
    if index >= sessions.len() {
        return SweepAction::Finished;
    }
    turn(sessions, index + 1)
}

/// What to ask after an action ended, `stop` and `forced` being how its
/// request ended. `Finished` is followed by `Finished`.
pub open spec fn spec_next(sessions: Seq<SessionInfo>, action: SweepAction, stop: StopOutcome, forced: bool) -> SweepAction {
    match action {
        SweepAction::Stop { index, id } => spec_after_stop(sessions, index as int, stop),
        SweepAction::ForceStop { index, id, pid } => spec_turn(sessions, index + 1),
        SweepAction::Finished => SweepAction::Finished,
    }
}

/// The session that an action is about, the number of sessions for
/// `Finished`.
pub open spec fn spec_position(sessions: Seq<SessionInfo>, action: SweepAction) -> int {
    match action {
        SweepAction::Stop { index, id } => index as int,
        SweepAction::ForceStop { index, id, pid } => index as int,
        SweepAction::Finished => sessions.len() as int,
    }
}

/// The sweep goes forward whatever the supervisor answers: a request to stop
/// is followed by the forced stop of the same session or by the next
/// session's turn, and a forced stop is followed by the next session's turn.
/// No outcome ends the sweep before the last session has had its turn.
pub proof fn law_sweep_goes_on(sessions: Seq<SessionInfo>, action: SweepAction, stop: StopOutcome, forced: bool)
    requires
        0 <= spec_position(sessions, action) < sessions.len(),
    ensures
        ({
            let next = spec_next(sessions, action, stop, forced);
            let at = spec_position(sessions, action);
            &&& action is Stop && !stop.is_stopped() ==> next is ForceStop && spec_position(sessions, next)
                == at
            &&& action is Stop && stop.is_stopped() ==> next == spec_turn(sessions, at + 1)
            &&& action is ForceStop ==> next == spec_turn(sessions, at + 1)
            &&& next is Finished ==> at == sessions.len() - 1
        }),
{
}

/// The action of a sweep after `steps` steps, `stop` and `forced` being what
/// the supervisor answers for the session at a place.
pub open spec fn spec_run(
    sessions: Seq<SessionInfo>,
    stop: spec_fn(int) -> StopOutcome,
    forced: spec_fn(int) -> bool,
    steps: nat,
) -> SweepAction
    decreases steps,
{
    if steps == 0 {
        spec_turn(sessions, 0)
    } else {
        let before = spec_run(sessions, stop, forced, (steps - 1) as nat);
        let at = spec_position(sessions, before);
        spec_next(sessions, before, stop(at), forced(at))
    }
}

/// Whatever the supervisor answers, the turn of the session at `k` comes,
/// after at most two steps for every session before it; behind the last
/// session the sweep is finished.
pub proof fn law_sweep_reaches(
    sessions: Seq<SessionInfo>,
    stop: spec_fn(int) -> StopOutcome,
    forced: spec_fn(int) -> bool,
    k: nat,
) -> (steps: nat)
    requires
        k <= sessions.len(),
        sessions.len() <= usize::MAX,
    ensures
        steps <= 2 * k,
        spec_run(sessions, stop, forced, steps) == spec_turn(sessions, k as int),
    decreases k,
{
    if k == 0 {
        0
    } else {
        let n = law_sweep_reaches(sessions, stop, forced, (k - 1) as nat);
        let action = spec_run(sessions, stop, forced, n);
        assert(action == spec_turn(sessions, k - 1));
        let after = spec_run(sessions, stop, forced, n + 1);
        assert(after == spec_next(sessions, action, stop(k - 1), forced(k - 1)));
        if stop(k - 1).is_stopped() {
            n + 1
        } else {
            assert(spec_position(sessions, after) == k - 1);
            assert(spec_run(sessions, stop, forced, n + 2) == spec_next(
                sessions,
                after,
                stop(k - 1),
                forced(k - 1),
            ));
            n + 2
        }
    }
}

} // verus!
