//! The singleton lock: a Unix socket in the runtime directory. Two daemons
//! would fight over the backlight, so a second instance must not start.
use vstd::prelude::*;
use vstd::string::*;
use crate::dirs::str_opt_view;

verus! {

/// How a bind of the lock socket ended.
#[derive(Debug, Clone, Copy, PartialEq, Eq)]
pub enum BindResult {
    Bound,
    /// The socket file exists already.
    AddrInUse,
    Failed,
}

/// What came back from the last operation.
#[derive(Debug, Clone, Copy, PartialEq, Eq)]
pub enum LockEvent {
    Bind(BindResult),
    /// Whether a connection to the existing socket succeeded.
    Connect(bool),
}

/// How taking the lock ended.
#[derive(Debug, Clone, Copy, PartialEq, Eq)]
pub enum LockOutcome {
    /// The lock is held: keep the listener for the whole run.
    Held,
    /// No lock could be had: run without one.
    Unlocked,
    /// A live instance answers: exit.
    AlreadyRunning,
}

/// What to do next.
#[derive(Debug, Clone, Copy, PartialEq, Eq)]
pub enum LockAction {
    Bind,
    /// Connect to the existing socket to see whether anyone listens.
    Connect,
    /// Remove the stale socket file and bind once more.
    RemoveAndBind,
    Finish(LockOutcome),
}

/// Where taking the lock stands.
#[derive(Debug, Clone, Copy, PartialEq, Eq)]
pub enum LockStage {
    /// Waiting for the first bind.
    FirstBind,
    /// The socket exists; waiting for the connection attempt.
    Probe,
    /// The stale socket was removed; waiting for the second bind.
    Rebind,
    Done(LockOutcome),
}

/// The operation that a stage waits for.
pub open spec fn awaited(stage: LockStage) -> LockAction {
    match stage {
        LockStage::FirstBind => LockAction::Bind,
        LockStage::Probe => LockAction::Connect,
        LockStage::Rebind => LockAction::Bind,
        LockStage::Done(o) => LockAction::Finish(o),
    }
}

/// Whether an event answers the operation that the stage waits for.
pub open spec fn fits(stage: LockStage, e: LockEvent) -> bool {
    match stage {
        LockStage::FirstBind => e is Bind,
        LockStage::Probe => e is Connect,
        LockStage::Rebind => e is Bind,
        LockStage::Done(_) => false,
    }
}

/// One step: a bind that succeeds holds the lock; the first bind that finds
/// the socket in use probes it; a live instance means exit; a stale socket
/// is removed and bound once more; any other failure runs without a lock.
/// An event that does not answer the awaited operation changes nothing.
pub open spec fn lock_step_spec(stage: LockStage, e: LockEvent) -> LockStage {
    match (stage, e) {
        (LockStage::FirstBind, LockEvent::Bind(BindResult::Bound)) => LockStage::Done(
            LockOutcome::Held,
        ),
        (LockStage::FirstBind, LockEvent::Bind(BindResult::AddrInUse)) => LockStage::Probe,
        (LockStage::FirstBind, LockEvent::Bind(BindResult::Failed)) => LockStage::Done(
            LockOutcome::Unlocked,
        ),
        (LockStage::Probe, LockEvent::Connect(true)) => LockStage::Done(
            LockOutcome::AlreadyRunning,
        ),
        (LockStage::Probe, LockEvent::Connect(false)) => LockStage::Rebind,
        (LockStage::Rebind, LockEvent::Bind(BindResult::Bound)) => LockStage::Done(
            LockOutcome::Held,
        ),
        (LockStage::Rebind, LockEvent::Bind(_)) => LockStage::Done(LockOutcome::Unlocked),
        _ => stage,
    }
}

/// Whether a step removes the stale socket: it does when it enters `Rebind`.
pub open spec fn removes(stage: LockStage, next: LockStage) -> bool {
    next == LockStage::Rebind && stage != LockStage::Rebind
}

/// The action a step asks for: removing the stale socket (then binding)
/// when it enters `Rebind`, else the operation the new stage waits for.
pub open spec fn step_action(stage: LockStage, next: LockStage) -> LockAction {
    if removes(stage, next) {
        LockAction::RemoveAndBind
    } else {
        awaited(next)
    }
}

/// The next stage, and the action it asks for.
pub fn lock_step(stage: LockStage, e: LockEvent) -> (r: (LockStage, LockAction))
    ensures
        r.0 == lock_step_spec(stage, e),
        r.1 == step_action(stage, r.0),
{
    let next = match (stage, e) {
        (LockStage::FirstBind, LockEvent::Bind(BindResult::Bound)) => LockStage::Done(
            LockOutcome::Held,
        ),
        (LockStage::FirstBind, LockEvent::Bind(BindResult::AddrInUse)) => LockStage::Probe,
        (LockStage::FirstBind, LockEvent::Bind(BindResult::Failed)) => LockStage::Done(
            LockOutcome::Unlocked,
        ),
        (LockStage::Probe, LockEvent::Connect(true)) => LockStage::Done(
            LockOutcome::AlreadyRunning,
        ),
        (LockStage::Probe, LockEvent::Connect(false)) => LockStage::Rebind,
        (LockStage::Rebind, LockEvent::Bind(BindResult::Bound)) => LockStage::Done(
            LockOutcome::Held,
        ),
        (LockStage::Rebind, LockEvent::Bind(_)) => LockStage::Done(LockOutcome::Unlocked),
        _ => stage,
    };
    let action = match (stage, next) {
        (LockStage::Probe, LockStage::Rebind) => LockAction::RemoveAndBind,
        (_, LockStage::FirstBind) => LockAction::Bind,
        (_, LockStage::Probe) => LockAction::Connect,
        (_, LockStage::Rebind) => LockAction::Bind,
        (_, LockStage::Done(o)) => LockAction::Finish(o),
    };
    (next, action)
}

/// Where taking the lock starts: with a bind of the socket in the runtime
/// directory; without a runtime directory, at once with no lock.
pub open spec fn lock_start_spec(dir: Option<Seq<char>>) -> (LockStage, LockAction, Option<Seq<char>>) {
    match dir {
        Some(d) => (LockStage::FirstBind, LockAction::Bind, Some(d + "/ambientd.lock"@)),
        None => (
            LockStage::Done(LockOutcome::Unlocked),
            LockAction::Finish(LockOutcome::Unlocked),
            None,
        ),
    }
}

/// The first stage and action of taking the lock, and the socket's path
/// (none when there is no runtime directory).
pub fn lock_start(dir: Option<&str>) -> (r: (LockStage, LockAction, Option<String>))
    ensures
        (r.0, r.1, match r.2 {
            Some(p) => Some(p@),
            None => None,
        }) == lock_start_spec(str_opt_view(dir)),
        r.1 == awaited(r.0),
{
    match dir {
        Some(d) => (LockStage::FirstBind, LockAction::Bind, Some(lock_path(d))),
        None => (
            LockStage::Done(LockOutcome::Unlocked),
            LockAction::Finish(LockOutcome::Unlocked),
            None,
        ),
    }
}

/// Whether a bind's failure is reported: a first bind that fails for any
/// reason but the socket being in use, and any failed second bind.
pub open spec fn reports_bind_error_spec(stage: LockStage, e: LockEvent) -> bool {
    match (stage, e) {
        (LockStage::FirstBind, LockEvent::Bind(BindResult::Failed)) => true,
        (LockStage::Rebind, LockEvent::Bind(BindResult::AddrInUse)) => true,
        (LockStage::Rebind, LockEvent::Bind(BindResult::Failed)) => true,
        _ => false,
    }
}

/// Whether the failure that event `e` brings at `stage` is to be reported.
pub fn report_bind_error(stage: LockStage, e: LockEvent) -> (r: bool)
    ensures
        r == reports_bind_error_spec(stage, e),
        // What is reported leads to running without a lock.
        r ==> lock_step_spec(stage, e) == LockStage::Done(LockOutcome::Unlocked),
{
    match (stage, e) {
        (LockStage::FirstBind, LockEvent::Bind(BindResult::Failed)) => true,
        (LockStage::Rebind, LockEvent::Bind(BindResult::AddrInUse)) => true,
        (LockStage::Rebind, LockEvent::Bind(BindResult::Failed)) => true,
        _ => false,
    }
}

/// How many steps a stage is, at most, from the end.
pub open spec fn steps_left(stage: LockStage) -> nat {
    match stage {
        LockStage::FirstBind => 3,
        LockStage::Probe => 2,
        LockStage::Rebind => 1,
        LockStage::Done(_) => 0,
    }
}

/// Each answered operation brings the end one step closer, so taking the
/// lock ends after at most three operations; and no step goes back.
pub proof fn lemma_lock_progress(stage: LockStage, e: LockEvent)
    ensures
        fits(stage, e) ==> steps_left(lock_step_spec(stage, e)) < steps_left(stage),
        steps_left(lock_step_spec(stage, e)) <= steps_left(stage),
{
}

/// A stale socket is removed only after a connection attempt found nobody
/// listening, and a live instance is reported only after a connection
/// succeeded.
pub proof fn lemma_lock_decisions(stage: LockStage, e: LockEvent)
    ensures
        removes(stage, lock_step_spec(stage, e)) ==> stage == LockStage::Probe && e
            == LockEvent::Connect(false),
        lock_step_spec(stage, e) == LockStage::Done(LockOutcome::AlreadyRunning) && stage
            != lock_step_spec(stage, e) ==> e == LockEvent::Connect(true),
{
}

/// The number of removals of the stale socket in a run of events.
pub open spec fn removals(stage: LockStage, es: Seq<LockEvent>) -> nat
    decreases es.len(),
{
    if es.len() == 0 {
        0
    } else {
        let next = lock_step_spec(stage, es[0]);
        (if removes(stage, next) {
            1nat
        } else {
            0nat
        }) + removals(next, es.drop_first())
    }
}

/// Whatever events come, a run removes the stale socket at most once: it
/// retries the bind once, never more.
pub proof fn lemma_at_most_one_removal(stage: LockStage, es: Seq<LockEvent>)
    ensures
        removals(stage, es) <= (if steps_left(stage) >= 2 {
            1nat
        } else {
            0nat
        }),
    decreases es.len(),
{
    if es.len() > 0 {
        let next = lock_step_spec(stage, es[0]);
        lemma_at_most_one_removal(next, es.drop_first());
    }
}

/// The lock socket's path in the runtime directory.
pub fn lock_path(dir: &str) -> (r: String)
    ensures
        r@ == dir@ + "/ambientd.lock"@,
{
    String::from_str(dir).concat("/ambientd.lock")
}

} // verus!
