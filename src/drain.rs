//! Graceful shutdown: a one-way drain signal, and the supervision of each
//! in-flight task that observes it.

use vstd::prelude::*;

verus! {

/// The process-wide drain state: running until drained, then draining for
/// good.
#[derive(Clone, Copy, Debug, PartialEq, Eq, Structural)]
pub struct DrainSignal {
    pub draining: bool,
}

/// The drain transition: the signal afterwards, and whether this call made
/// the transition.
pub open spec fn drain_step(s: DrainSignal) -> (DrainSignal, bool) {
    (DrainSignal { draining: true }, !s.draining)
}

impl DrainSignal {
    pub fn new() -> (r: DrainSignal)
        ensures
            !r.draining,
    {
        DrainSignal { draining: false }
    }

    pub fn is_draining(&self) -> (r: bool)
        ensures
            r == self.draining,
    {
        self.draining
    }

    /// Starts draining. Returns whether this call made the transition; a
    /// signal that is already draining is left as it is.
    pub fn drain(&mut self) -> (r: bool)
        ensures
            (*final(self), r) == drain_step(*old(self)),
    {
        let fired = !self.draining;
        self.draining = true;
        fired
    }
}

/// What happens to a supervised task.
#[derive(Clone, Copy, Debug, PartialEq, Eq, Structural)]
pub enum WatchEvent {
    /// The drain signal was broadcast.
    Drain,
    /// The task ran to its natural completion.
    Complete,
}

/// What the supervisor does in answer.
#[derive(Clone, Copy, Debug, PartialEq, Eq, Structural)]
pub enum WatchAction {
    /// Run the task's on-drain callback (e.g. a graceful shutdown), then
    /// keep waiting for the task to complete.
    RunOnDrain,
    /// Report the task's completion.
    ReportDone,
    Nothing,
}

/// The supervision of one task: whether its on-drain callback has run, and
/// whether it has completed.
#[derive(Clone, Copy, Debug, PartialEq, Eq, Structural)]
pub struct Watch {
    pub signaled: bool,
    pub completed: bool,
}

/// One step of a supervised task. The callback runs on the first drain
/// that reaches a task still running; completion is reported once.
pub open spec fn watch_next(w: Watch, ev: WatchEvent) -> (Watch, WatchAction) {
    match ev {
        WatchEvent::Drain => if !w.signaled && !w.completed {
            (Watch { signaled: true, ..w }, WatchAction::RunOnDrain)
        } else {
            (w, WatchAction::Nothing)
        },
        WatchEvent::Complete => if !w.completed {
            (Watch { completed: true, ..w }, WatchAction::ReportDone)
        } else {
            (w, WatchAction::Nothing)
        },
    }
}

/// How many times action `a` is taken over the events `evs`, from `w`.
pub open spec fn times(w: Watch, evs: Seq<WatchEvent>, a: WatchAction) -> nat
    decreases evs.len(),
{
    if evs.len() == 0 {
        0
    } else {
        let (w2, b) = watch_next(w, evs[0]);
        (if b == a {
            1nat
        } else {
            0nat
        }) + times(w2, evs.drop_first(), a)
    }
}

impl Watch {
    /// The supervision of a task that has just started.
    pub fn new() -> (r: Watch)
        ensures
            !r.signaled,
            !r.completed,
    {
        Watch { signaled: false, completed: false }
    }

    /// Handles an event for the supervised task.
    pub fn on_event(&mut self, ev: WatchEvent) -> (r: WatchAction)
        ensures
            (*final(self), r) == watch_next(*old(self), ev),
    {
        match ev {
            WatchEvent::Drain => {
                if !self.signaled && !self.completed {
                    self.signaled = true;
                    WatchAction::RunOnDrain
                } else {
                    WatchAction::Nothing
                }
            },
            WatchEvent::Complete => {
                if !self.completed {
                    self.completed = true;
                    WatchAction::ReportDone
                } else {
                    WatchAction::Nothing
                }
            },
        }
    }
}

/// Draining a second time changes nothing and makes no transition.
pub proof fn lemma_drain_idempotent(s: DrainSignal)
    ensures
        drain_step(drain_step(s).0) == (drain_step(s).0, false),
{
}

/// Whatever events reach a supervised task, its on-drain callback runs at
/// most once, and never once the task has completed; its completion is
/// reported at most once, and exactly once when it completes at all.
pub proof fn lemma_watch_fires_once(w: Watch, evs: Seq<WatchEvent>)
    ensures
        times(w, evs, WatchAction::RunOnDrain) <= (if w.signaled || w.completed {
            0nat
        } else {
            1nat
        }),
        times(w, evs, WatchAction::ReportDone) <= (if w.completed {
            0nat
        } else {
            1nat
        }),
        !w.completed && evs.contains(WatchEvent::Complete) ==> times(
            w,
            evs,
            WatchAction::ReportDone,
        ) == 1,
    decreases evs.len(),
{
    if evs.len() > 0 {
        let (w2, b) = watch_next(w, evs[0]);
        lemma_watch_fires_once(w2, evs.drop_first());
        if !w.completed && evs.contains(WatchEvent::Complete) && evs[0] != WatchEvent::Complete {
            let k = choose|k: int| 0 <= k < evs.len() && evs[k] == WatchEvent::Complete;
            assert(evs.drop_first()[k - 1] == WatchEvent::Complete);
        }
    }
}

} // verus!
