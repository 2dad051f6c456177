//! The interrupt-driven shutdown routine.
//!
//! The signal callback only reports an interrupt; this routine decides what
//! follows: remove every docked bar once, then exit with status 0, whether or
//! not the removal succeeded.
use vstd::prelude::*;

verus! {

/// Exit status of a process stopped by an interrupt.
pub const EXIT_INTERRUPTED: i32 = 0;

/// Where shutdown stands.
#[derive(Clone, Copy, Debug, PartialEq, Eq, Structural)]
pub enum Shutdown {
    /// No interrupt yet.
    Armed,
    /// Bar removal was requested; waiting for it to finish.
    Removing,
    /// Exit was requested.
    Exited,
}

/// What happened.
#[derive(Clone, Copy, Debug, PartialEq, Eq, Structural)]
pub enum ShutdownEvent {
    /// An interrupt signal arrived.
    Interrupt,
    /// Bar removal finished; the flag tells whether it succeeded.
    RemovalFinished(bool),
}

/// What the caller must do next.
#[derive(Clone, Copy, Debug, PartialEq, Eq, Structural)]
pub enum ShutdownAction {
    /// Remove every docked bar from the shell.
    RemoveBars,
    /// Log a farewell and terminate the process with this status.
    Exit { code: i32 },
    /// Nothing to do.
    Nothing,
}

/// The transition table of the shutdown routine. The outcome of the removal
/// does not matter: shutdown proceeds either way.
pub open spec fn shutdown_next(s: Shutdown, e: ShutdownEvent) -> (Shutdown, ShutdownAction) {
    match (s, e) {
        (Shutdown::Armed, ShutdownEvent::Interrupt) => (Shutdown::Removing, ShutdownAction::RemoveBars),
        (Shutdown::Removing, ShutdownEvent::RemovalFinished(_)) => (
            Shutdown::Exited,
            ShutdownAction::Exit { code: EXIT_INTERRUPTED },
        ),
        (s, _) => (s, ShutdownAction::Nothing),
    }
}

impl Shutdown {
    /// Advances the routine by one event.
    pub fn step(self, e: ShutdownEvent) -> (r: (Shutdown, ShutdownAction))
        ensures
            r == shutdown_next(self, e),
    {
        match (self, e) {
            (Shutdown::Armed, ShutdownEvent::Interrupt) => (Shutdown::Removing, ShutdownAction::RemoveBars),
            (Shutdown::Removing, ShutdownEvent::RemovalFinished(_)) => (
                Shutdown::Exited,
                ShutdownAction::Exit { code: EXIT_INTERRUPTED },
            ),
            (s, _) => (s, ShutdownAction::Nothing),
        }
    }
}

/// The state reached and the actions issued when the events are fed in order.
pub open spec fn shutdown_run(s: Shutdown, evs: Seq<ShutdownEvent>) -> (Shutdown, Seq<ShutdownAction>)
    decreases evs.len(),
{
    if evs.len() == 0 {
        (s, Seq::empty())
    } else {
        let (s1, a) = shutdown_next(s, evs[0]);
        let (s2, acts) = shutdown_run(s1, evs.drop_first());
        (s2, seq![a] + acts)
    }
}

proof fn lemma_exited_is_quiet(evs: Seq<ShutdownEvent>)
    ensures
        shutdown_run(Shutdown::Exited, evs).0 == Shutdown::Exited,
        shutdown_run(Shutdown::Exited, evs).1.len() == evs.len(),
        forall|i: int|
            0 <= i < evs.len() ==> #[trigger] shutdown_run(Shutdown::Exited, evs).1[i] == ShutdownAction::Nothing,
    decreases evs.len(),
{
    if evs.len() > 0 {
        lemma_exited_is_quiet(evs.drop_first());
    }
}

/// Whatever the events, bar removal is requested at most once.
pub proof fn lemma_removal_at_most_once(s: Shutdown, evs: Seq<ShutdownEvent>)
    ensures
        forall|i: int, j: int|
            0 <= i < shutdown_run(s, evs).1.len() && 0 <= j < shutdown_run(s, evs).1.len()
                && #[trigger] shutdown_run(s, evs).1[i] == ShutdownAction::RemoveBars
                && #[trigger] shutdown_run(s, evs).1[j] == ShutdownAction::RemoveBars ==> i == j,
    decreases evs.len(),
{
    if evs.len() > 0 {
        let (s1, a) = shutdown_next(s, evs[0]);
        let rest = evs.drop_first();
        let acts = shutdown_run(s, evs).1;
        let tail = shutdown_run(s1, rest).1;
        assert(acts =~= seq![a] + tail);
        lemma_removal_at_most_once(s1, rest);
        if a == ShutdownAction::RemoveBars {
            assert forall|k: int| 0 <= k < tail.len() implies #[trigger] tail[k] != ShutdownAction::RemoveBars by {
                lemma_never_removes_again(s1, rest);
            }
        }
        assert forall|i: int, j: int|
            0 <= i < acts.len() && 0 <= j < acts.len() && #[trigger] acts[i] == ShutdownAction::RemoveBars
                && #[trigger] acts[j] == ShutdownAction::RemoveBars implies i == j by {
            if i > 0 {
                assert(acts[i] == tail[i - 1]);
            }
            if j > 0 {
                assert(acts[j] == tail[j - 1]);
            }
        }
    }
}

proof fn lemma_never_removes_again(s: Shutdown, evs: Seq<ShutdownEvent>)
    requires
        s != Shutdown::Armed,
    ensures
        forall|k: int|
            0 <= k < shutdown_run(s, evs).1.len() ==> #[trigger] shutdown_run(s, evs).1[k]
                != ShutdownAction::RemoveBars,
    decreases evs.len(),
{
    if evs.len() > 0 {
        let (s1, a) = shutdown_next(s, evs[0]);
        lemma_never_removes_again(s1, evs.drop_first());
    }
}

/// An interrupt leads to exactly one bar removal, and then, whether removal
/// succeeded or failed, to exit with status 0; nothing is done after that.
pub proof fn lemma_interrupt_removes_once_then_exits(removed: bool, evs: Seq<ShutdownEvent>)
    ensures
        ({
            let (end, acts) = shutdown_run(
                Shutdown::Armed,
                seq![ShutdownEvent::Interrupt, ShutdownEvent::RemovalFinished(removed)] + evs,
            );
            &&& end == Shutdown::Exited
            &&& acts.len() == evs.len() + 2
            &&& acts[0] == ShutdownAction::RemoveBars
            &&& acts[1] == (ShutdownAction::Exit { code: 0 })
            &&& forall|i: int| 2 <= i < acts.len() ==> #[trigger] acts[i] == ShutdownAction::Nothing
        }),
{
    let e1 = ShutdownEvent::Interrupt;
    let e2 = ShutdownEvent::RemovalFinished(removed);
    let all = seq![e1, e2] + evs;
    assert(all.drop_first() =~= seq![e2] + evs);
    assert((seq![e2] + evs).drop_first() =~= evs);
    lemma_exited_is_quiet(evs);
    let acts = shutdown_run(Shutdown::Armed, all).1;
    let mid = shutdown_run(Shutdown::Removing, seq![e2] + evs).1;
    let tail = shutdown_run(Shutdown::Exited, evs).1;
    assert(mid == seq![ShutdownAction::Exit { code: 0 }] + tail);
    assert(acts == seq![ShutdownAction::RemoveBars] + mid);
    assert(acts =~= seq![ShutdownAction::RemoveBars, ShutdownAction::Exit { code: 0 }] + tail);
}

} // verus!
