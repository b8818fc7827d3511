//! The life of the pipeline as its controller sees it: starting, running,
//! shutting down, stopped.
//!
//! The controller spawns the run-loop and the tasks around it, and reports
//! here what happened. What it is told in return is all it has to do.

use vstd::prelude::*;

verus! {

/// Where the pipeline is in its life.
#[derive(Clone, Copy, Debug, PartialEq, Eq, Structural)]
pub enum Phase {
    /// The parts are being built; no task runs yet.
    Starting,
    /// The run-loop and the tasks around it run.
    Running,
    /// The run-loop has ended; the other tasks are being stopped and joined.
    ShuttingDown,
    /// Every task has ended. Nothing follows.
    Stopped,
}

/// What the controller reports.
#[derive(Clone, Copy, Debug, PartialEq, Eq, Structural)]
pub enum LifecycleEvent {
    /// Every part was built and the run-loop spawned, with this many tasks
    /// beside it.
    Started { children: usize },
    /// A part could not be built.
    StartFailed,
    /// The run-loop has ended.
    RunLoopExited,
    /// One of the tasks beside the run-loop has ended and was joined.
    ChildJoined,
}

/// What the controller does next.
#[derive(Clone, Copy, Debug, PartialEq, Eq, Structural)]
pub enum Directive {
    /// Nothing yet: wait for what happens next.
    Wait,
    /// Raise the stop signal of every task beside the run-loop, then join
    /// them.
    CancelChildren,
    /// Return: the pipeline has stopped.
    Return,
}

/// The state of the controller: the phase, and how many tasks beside the
/// run-loop have not been joined yet.
#[derive(Clone, Copy, Debug, PartialEq, Eq, Structural)]
pub struct Lifecycle {
    pub phase: Phase,
    pub children: usize,
}

/// The place of a phase in the order in which phases follow each other.
pub open spec fn rank(phase: Phase) -> nat {
    match phase {
        Phase::Starting => 0,
        Phase::Running => 1,
        Phase::ShuttingDown => 2,
        Phase::Stopped => 3,
    }
}

impl Lifecycle {
    /// Whether the count of tasks fits the phase: tasks exist only while the
    /// pipeline runs or shuts down, and while it shuts down at least one is
    /// left to join.
    pub open spec fn wf(self) -> bool {
        match self.phase {
            Phase::Starting => self.children == 0,
            Phase::Running => true,
            Phase::ShuttingDown => self.children > 0,
            Phase::Stopped => self.children == 0,
        }
    }

    /// The state that follows `event`, and what the controller is told.
    ///
    /// An event that does not belong to the phase changes nothing.
    pub open spec fn after(self, event: LifecycleEvent) -> (Lifecycle, Directive) {
        match (self.phase, event) {
            (Phase::Starting, LifecycleEvent::Started { children }) => (
                Lifecycle { phase: Phase::Running, children },
                Directive::Wait,
            ),
            (Phase::Starting, LifecycleEvent::StartFailed) => (
                Lifecycle { phase: Phase::Stopped, children: 0 },
                Directive::Return,
            ),
            (Phase::Running, LifecycleEvent::RunLoopExited) => if self.children == 0 {
                (Lifecycle { phase: Phase::Stopped, children: 0 }, Directive::Return)
            } else {
                (Lifecycle { phase: Phase::ShuttingDown, ..self }, Directive::CancelChildren)
            },
            (Phase::ShuttingDown, LifecycleEvent::ChildJoined) => if self.children <= 1 {
                (Lifecycle { phase: Phase::Stopped, children: 0 }, Directive::Return)
            } else {
                (
                    Lifecycle { children: (self.children - 1) as usize, ..self },
                    Directive::Wait,
                )
            },
            (Phase::Stopped, _) => (self, Directive::Return),
            _ => (self, Directive::Wait),
        }
    }

    /// The state after `joins` tasks were joined one after another.
    pub open spec fn after_joins(self, joins: nat) -> Lifecycle
        decreases joins,
    {
        if joins == 0 {
            self
        } else {
            self.after(LifecycleEvent::ChildJoined).0.after_joins((joins - 1) as nat)
        }
    }

    /// The pipeline before anything was built.
    pub fn new() -> (lifecycle: Self)
        ensures
            lifecycle == (Lifecycle { phase: Phase::Starting, children: 0 }),
            lifecycle.wf(),
    {
        Lifecycle { phase: Phase::Starting, children: 0 }
    }

    /// Takes what the controller reports and tells it what to do next.
    pub fn on_event(&mut self, event: LifecycleEvent) -> (directive: Directive)
        ensures
            (*final(self), directive) == old(self).after(event),
            old(self).wf() ==> final(self).wf(),
    {
        match (self.phase, event) {
            (Phase::Starting, LifecycleEvent::Started { children }) => {
                self.phase = Phase::Running;
                self.children = children;
                Directive::Wait
            },
            (Phase::Starting, LifecycleEvent::StartFailed) => {
                self.phase = Phase::Stopped;
                self.children = 0;
                Directive::Return
            },
            (Phase::Running, LifecycleEvent::RunLoopExited) => {
                if self.children == 0 {
                    self.phase = Phase::Stopped;
                    Directive::Return
                } else {
                    self.phase = Phase::ShuttingDown;
                    Directive::CancelChildren
                }
            },
            (Phase::ShuttingDown, LifecycleEvent::ChildJoined) => {
                if self.children <= 1 {
                    self.phase = Phase::Stopped;
                    self.children = 0;
                    Directive::Return
                } else {
                    self.children = self.children - 1;
                    Directive::Wait
                }
            },
            (Phase::Stopped, _) => Directive::Return,
            _ => Directive::Wait,
        }
    }

    /// Whether the pipeline has stopped.
    pub fn is_stopped(&self) -> (stopped: bool)
        ensures
            stopped == (self.phase == Phase::Stopped),
    {
        match self.phase {
            Phase::Stopped => true,
            _ => false,
        }
    }
}

/// No event moves the pipeline back to an earlier phase, and none breaks the
/// fit between the phase and the count of tasks.
pub proof fn lemma_phases_only_advance(state: Lifecycle, event: LifecycleEvent)
    ensures
        rank(state.phase) <= rank(state.after(event).0.phase),
        state.wf() ==> state.after(event).0.wf(),
{
}

/// A stopped pipeline stays stopped: whatever the controller says, nothing
/// changes and the controller is told to return.
pub proof fn lemma_stopped_is_final(state: Lifecycle, event: LifecycleEvent)
    requires
        state.phase == Phase::Stopped,
    ensures
        state.after(event) == (state, Directive::Return),
{
}

/// The controller is told to return exactly when the pipeline is stopped
/// after the event, and to stop the tasks exactly when the shutdown begins.
pub proof fn lemma_directive_tells_the_phase(state: Lifecycle, event: LifecycleEvent)
    ensures
        state.after(event).1 == Directive::Return <==> state.after(event).0.phase == Phase::Stopped,
        state.after(event).1 == Directive::CancelChildren <==> state.phase == Phase::Running
            && state.after(event).0.phase == Phase::ShuttingDown,
{
}

/// A shutdown ends: once every task that is left was joined, the pipeline is
/// stopped, and not before.
pub proof fn lemma_shutdown_completes(state: Lifecycle, joins: nat)
    requires
        state.phase == Phase::ShuttingDown,
        state.wf(),
        joins <= state.children,
    ensures
        joins == state.children ==> state.after_joins(joins) == (Lifecycle {
            phase: Phase::Stopped,
            children: 0,
        }),
        joins < state.children ==> state.after_joins(joins) == (Lifecycle {
            phase: Phase::ShuttingDown,
            children: (state.children - joins) as usize,
        }),
    decreases joins,
{
    if joins > 0 {
        let next = state.after(LifecycleEvent::ChildJoined).0;
        if state.children > 1 {
            lemma_shutdown_completes(next, (joins - 1) as nat);
        } else {
            assert(next.after_joins(0) == next);
        }
    }
}

/// When the run-loop of a running pipeline ends, the pipeline stops at once
/// where no task is left beside it, and otherwise after each of them was
/// joined.
pub proof fn lemma_run_loop_exit_leads_to_stop(state: Lifecycle)
    requires
        state.phase == Phase::Running,
    ensures
        state.after(LifecycleEvent::RunLoopExited).0.after_joins(state.children as nat).phase
            == Phase::Stopped,
{
    let next = state.after(LifecycleEvent::RunLoopExited).0;
    if state.children > 0 {
        lemma_shutdown_completes(next, state.children as nat);
    } else {
        assert(next.after_joins(0) == next);
    }
}

} // verus!
