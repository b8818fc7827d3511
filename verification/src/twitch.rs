//! Chat messages as they come in from the chat network, and what the
//! ingestion loop makes of each line the network sends.

use crate::bus::{wake, LoopStep, Received};
use vstd::prelude::*;

verus! {

#[derive(Debug)]
pub enum TwitchIRCError {
    Unknown,
}

/// One chat message: who wrote it, and what.
#[derive(Clone, Debug)]
pub struct TwitchIRCMessage {
    pub username: String,
    pub message: String,
}

/// A line from the chat network, as far as the pipeline reads it.
#[derive(Debug)]
pub enum ServerLine {
    /// Somebody wrote `text` into the channel.
    Privmsg { sender: String, text: String },
    /// Anything else: joins, pings, notices.
    Other,
}

/// The decisions of the ingestion loop.
pub struct TwitchIRCSpawner;

impl TwitchIRCSpawner {
    /// What the ingestion loop does with what its wait gave.
    pub open spec fn ingested(cancelled: bool, received: Option<Received<ServerLine>>) -> LoopStep<
        TwitchIRCMessage,
    > {
        match crate::bus::step_after(cancelled, received) {
            LoopStep::Handle(ServerLine::Privmsg { sender, text }) => LoopStep::Handle(
                TwitchIRCMessage { username: sender, message: text },
            ),
            LoopStep::Handle(ServerLine::Other) => LoopStep::Continue,
            LoopStep::Continue => LoopStep::Continue,
            LoopStep::Exit => LoopStep::Exit,
        }
    }

    /// Decides what the ingestion loop does after a wait on the network and on
    /// its stop signal. A chat message is published under its sender's name
    /// with its text unchanged; any other line is passed over. The loop ends
    /// when the stop signal is raised or the network is gone.
    pub fn ingest(cancelled: bool, received: Option<Received<ServerLine>>) -> (step: LoopStep<
        TwitchIRCMessage,
    >)
        ensures
            step == Self::ingested(cancelled, received),
    {
        match wake(cancelled, received) {
            LoopStep::Handle(ServerLine::Privmsg { sender, text }) => LoopStep::Handle(
                TwitchIRCMessage { username: sender, message: text },
            ),
            LoopStep::Handle(ServerLine::Other) => LoopStep::Continue,
            LoopStep::Continue => LoopStep::Continue,
            LoopStep::Exit => LoopStep::Exit,
        }
    }
}

} // verus!
