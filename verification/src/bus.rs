//! The fan-out of chat messages to their subscribers, seen from a loop that
//! waits on one subscription and on a stop signal.
//!
//! A subscriber's buffer is bounded. A subscriber that falls behind loses its
//! oldest unread messages and is told how many; nothing in the pipeline depends
//! on seeing every message.

use vstd::prelude::*;

verus! {

/// How many unread messages a subscription holds before the oldest are
/// dropped.
pub const BUS_CAPACITY: usize = 100;

/// What a wait on a subscription ends with.
#[derive(Debug)]
pub enum Received<T> {
    /// The next message, in the order of publication.
    Message(T),
    /// This many of the oldest unread messages were dropped.
    Lagged(u64),
    /// Every publisher is gone: nothing more will arrive.
    Closed,
}

/// What a loop does after a wait.
#[derive(Debug)]
pub enum LoopStep<T> {
    /// Work on this message, then wait again.
    Handle(T),
    /// Wait again.
    Continue,
    /// Leave the loop.
    Exit,
}

/// The step that follows a wait: `cancelled` tells whether the stop signal was
/// seen raised when the wait ended, `received` what the subscription gave, if
/// it gave anything.
pub open spec fn step_after<T>(cancelled: bool, received: Option<Received<T>>) -> LoopStep<T> {
    if cancelled {
        LoopStep::Exit
    } else {
        match received {
            Some(Received::Message(message)) => LoopStep::Handle(message),
            Some(Received::Lagged(_)) => LoopStep::Continue,
            Some(Received::Closed) => LoopStep::Exit,
            None => LoopStep::Continue,
        }
    }
}

/// Decides what a loop does after a wait on its subscription and its stop
/// signal.
///
/// A raised stop signal ends the loop, also when a message came in with it:
/// that message is not worked on. Dropped messages are passed over in silence.
/// A closed subscription ends the loop.
pub fn wake<T>(cancelled: bool, received: Option<Received<T>>) -> (step: LoopStep<T>)
    ensures
        step == step_after(cancelled, received),
{
    if cancelled {
        LoopStep::Exit
    } else {
        match received {
            Some(Received::Message(message)) => LoopStep::Handle(message),
            Some(Received::Lagged(_)) => LoopStep::Continue,
            Some(Received::Closed) => LoopStep::Exit,
            None => LoopStep::Continue,
        }
    }
}

/// Once the stop signal is raised no message is worked on, whatever the
/// subscription gave.
pub proof fn lemma_cancellation_wins<T>(received: Option<Received<T>>)
    ensures
        step_after(true, received) == LoopStep::<T>::Exit,
{
}

} // verus!
