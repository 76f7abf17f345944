//! The watch loop, as a state machine. The long-running daemon body
//! blocks on filesystem change notifications and, for each one, runs the
//! push-then-pull transfer pair to completion before blocking again. The
//! loop that performs the blocking receive and the subprocess invocations
//! lives outside; it feeds every event into [`watch_step`] and carries
//! out the command the step hands back, reporting the invocation's
//! completion as the next event. Notifications that arrive while a
//! transfer pair is in flight are queued, never processed concurrently.

use vstd::prelude::*;
use crate::engine::{push_args_spec, pull_args_spec};
use crate::sync::SyncHandle;

verus! {

/// What the daemon is doing between two events.
#[derive(PartialEq, Eq, Structural, Clone, Copy, Debug)]
pub enum Phase {
    /// Blocked, waiting for a change notification.
    Waiting,
    /// A push invocation is in flight.
    Pushing,
    /// A pull invocation is in flight.
    Pulling,
}

/// The state of the watch loop: the current phase and how many queued
/// notifications still await their own push+pull pair.
#[derive(PartialEq, Eq, Structural, Clone, Copy, Debug)]
pub struct WatchState {
    pub phase: Phase,
    pub pending: u64,
}

/// One event delivered to the loop.
#[derive(PartialEq, Eq, Structural, Clone, Copy, Debug)]
pub enum WatchEvent {
    /// A filesystem change notification arrived.
    Notification,
    /// The in-flight push invocation finished; the payload tells whether
    /// the external tool exited with status zero.
    PushFinished(bool),
    /// The in-flight pull invocation finished.
    PullFinished(bool),
    /// The notification subsystem reported a delivery error: logged by
    /// the caller, never fatal.
    WatchError,
}

/// The kind of command a step emits.
#[derive(PartialEq, Eq, Structural, Clone, Copy, Debug)]
pub enum CmdKind {
    PushCmd,
    PullCmd,
    NoCmd,
}

/// Completion events only ever report the invocation that is in flight.
pub open spec fn event_fits(s: WatchState, e: WatchEvent) -> bool {
    match e {
        WatchEvent::PushFinished(_) => s.phase is Pushing,
        WatchEvent::PullFinished(_) => s.phase is Pulling,
        _ => true,
    }
}

/// While the loop waits, no notification is left queued: each one is
/// drained into a push as soon as the previous pair completes.
pub open spec fn state_inv(s: WatchState) -> bool {
    s.phase is Waiting ==> s.pending == 0
}

/// One more queued notification; the count stops at its ceiling rather
/// than wrap.
pub open spec fn bump(p: u64) -> u64 {
    if p < u64::MAX {
        (p + 1) as u64
    } else {
        p
    }
}

/// The state after one event.
pub open spec fn watch_next(s: WatchState, e: WatchEvent) -> WatchState {
    match e {
        WatchEvent::Notification => if s.phase is Waiting {
            WatchState { phase: Phase::Pushing, pending: s.pending }
        } else {
            WatchState { phase: s.phase, pending: bump(s.pending) }
        },
        WatchEvent::PushFinished(ok) => if ok {
            WatchState { phase: Phase::Pulling, pending: s.pending }
        } else if s.pending > 0 {
            WatchState { phase: Phase::Pushing, pending: (s.pending - 1) as u64 }
        } else {
            WatchState { phase: Phase::Waiting, pending: 0 }
        },
        WatchEvent::PullFinished(_) => if s.pending > 0 {
            WatchState { phase: Phase::Pushing, pending: (s.pending - 1) as u64 }
        } else {
            WatchState { phase: Phase::Waiting, pending: 0 }
        },
        WatchEvent::WatchError => s,
    }
}

/// The command one event triggers.
pub open spec fn watch_emit(s: WatchState, e: WatchEvent) -> CmdKind {
    match e {
        WatchEvent::Notification => if s.phase is Waiting {
            CmdKind::PushCmd
        } else {
            CmdKind::NoCmd
        },
        WatchEvent::PushFinished(ok) => if ok {
            CmdKind::PullCmd
        } else if s.pending > 0 {
            CmdKind::PushCmd
        } else {
            CmdKind::NoCmd
        },
        WatchEvent::PullFinished(_) => if s.pending > 0 {
            CmdKind::PushCmd
        } else {
            CmdKind::NoCmd
        },
        WatchEvent::WatchError => CmdKind::NoCmd,
    }
}

impl WatchState {
    /// The state the daemon enters the loop in.
    pub fn initial() -> (s: Self)
        ensures
            s == (WatchState { phase: Phase::Waiting, pending: 0 }),
            state_inv(s),
    {
        WatchState { phase: Phase::Waiting, pending: 0 }
    }
}

/// Advances the loop by one event. The returned command line, if any, is
/// the push or pull invocation the caller must run to completion before
/// delivering the next completion event.
pub fn watch_step<'a>(s: WatchState, handle: &SyncHandle<'a>, e: WatchEvent) -> (r: (
    WatchState,
    Option<Vec<String>>,
))
    requires
        event_fits(s, e),
    ensures
        r.0 == watch_next(s, e),
        watch_emit(s, e) is PushCmd ==> (r.1 matches Some(args) && args.deep_view()
            == push_args_spec(handle@)),
        watch_emit(s, e) is PullCmd ==> (r.1 matches Some(args) && args.deep_view()
            == pull_args_spec(handle@)),
        watch_emit(s, e) is NoCmd ==> r.1 is None,
{
    match e {
        WatchEvent::Notification => {
            if matches!(s.phase, Phase::Waiting) {
                (WatchState { phase: Phase::Pushing, pending: s.pending }, Some(
                    handle.push_args(),
                ))
            } else {
                let next = if s.pending < u64::MAX {
                    s.pending + 1
                } else {
                    s.pending
                };
                (WatchState { phase: s.phase, pending: next }, None)
            }
        },
        WatchEvent::PushFinished(ok) => {
            if ok {
                (WatchState { phase: Phase::Pulling, pending: s.pending }, Some(
                    handle.pull_args(),
                ))
            } else if s.pending > 0 {
                (WatchState { phase: Phase::Pushing, pending: s.pending - 1 }, Some(
                    handle.push_args(),
                ))
            } else {
                (WatchState { phase: Phase::Waiting, pending: 0 }, None)
            }
        },
        WatchEvent::PullFinished(_) => {
            if s.pending > 0 {
                (WatchState { phase: Phase::Pushing, pending: s.pending - 1 }, Some(
                    handle.push_args(),
                ))
            } else {
                (WatchState { phase: Phase::Waiting, pending: 0 }, None)
            }
        },
        WatchEvent::WatchError => (s, None),
    }
}

/// Transfers are serialized: a push or pull is launched only from the
/// waiting state or at the instant the in-flight invocation completes,
/// and a notification that arrives mid-transfer launches nothing — it is
/// queued and the state's phase stands. The loop invariant is preserved
/// by every step.
pub proof fn lemma_no_overlap(s: WatchState, e: WatchEvent)
    requires
        event_fits(s, e),
        state_inv(s),
    ensures
        watch_emit(s, e) != CmdKind::NoCmd ==> (s.phase is Waiting || e is PushFinished
            || e is PullFinished),
        (!(s.phase is Waiting) && e is Notification) ==> watch_emit(s, e) == CmdKind::NoCmd
            && watch_next(s, e).phase == s.phase && watch_next(s, e).pending == bump(s.pending),
        state_inv(watch_next(s, e)),
{
}

/// Pushes and pulls are paired: a pull is launched exactly when the
/// in-flight push completes with status zero, never after a failed push
/// and never while a pull is already in flight; a successful push moves
/// the loop into the pulling phase, from which no second pull can be
/// launched without another push completing first.
pub proof fn lemma_push_pull_pairing(s: WatchState, e: WatchEvent)
    requires
        event_fits(s, e),
    ensures
        watch_emit(s, e) is PullCmd <==> (s.phase is Pushing && e == WatchEvent::PushFinished(
            true,
        )),
        e == WatchEvent::PushFinished(false) ==> !(watch_emit(s, e) is PullCmd),
        (s.phase is Pushing && e == WatchEvent::PushFinished(true)) ==> watch_next(s, e).phase
            is Pulling,
        s.phase is Pulling ==> !(watch_emit(s, e) is PullCmd),
{
}

} // verus!
