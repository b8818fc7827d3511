//! What the run-loop does with one chat message: through the reaction gate,
//! into a turn with the model, and out to the sinks.
//!
//! A message that fails at any point is dropped. The loop goes on with the
//! next.

use crate::ai::{Ai, AiError, ModelRequest, ModelRequestView, Reply};
use crate::gate::{normalized, ReactionGate};
use crate::json::encoded;
use crate::sink::{views, Delivery, SinkFanout};
use crate::text::mentions;
use crate::twitch::TwitchIRCMessage;
use vstd::prelude::*;

verus! {

/// What became of a message at the reaction gate and at the start of its
/// turn.
#[derive(Debug)]
pub enum Opening {
    /// The reaction gate did not let it pass. Nothing is asked.
    Skipped,
    /// A turn has begun: send this to the model.
    Ask(ModelRequest),
    /// No turn could begin. The message is dropped.
    Dropped(AiError),
}

/// What became of a turn.
#[derive(Debug)]
pub enum Closing {
    /// The reaction goes out in these deliveries.
    Deliver(Vec<Delivery>),
    /// The turn gave no reaction. The message is dropped.
    Dropped(AiError),
}

/// Brings `message` through the reaction gate and begins its turn, with the
/// draw already made.
///
/// A message that does not pass leaves the model untouched. One that passes is
/// sent as its normalized text.
pub fn open_sampled(
    gate: &ReactionGate,
    ai: &mut Ai,
    message: TwitchIRCMessage,
    sampled: bool,
) -> (opening: Opening)
    ensures
        !gate.passes(message.message@, sampled) ==> opening is Skipped && final(ai)@ == old(ai)@,
        gate.passes(message.message@, sampled) ==> !(opening is Skipped) && begins(
            old(ai),
            final(ai),
            normalized(message.username@, message.message@),
            opening,
        ),
{
    match gate.decide_sampled(message, sampled) {
        None => Opening::Skipped,
        Some(request) => begin(ai, request.normalized_text.as_str()),
    }
}

impl Opening {
    /// What the model's side of the opening came to: the request, or why
    /// there is none. A message that was skipped never got that far.
    pub open spec fn outcome(self) -> Option<Result<ModelRequestView, AiError>> {
        match self {
            Opening::Skipped => None,
            Opening::Ask(request) => Some(Ok(request@)),
            Opening::Dropped(e) => Some(Err(e)),
        }
    }
}

/// Whether `opening` is what [`Ai::send`] makes of `text` in the state `before`,
/// and `after` the state it leaves.
pub open spec fn begins(before: &Ai, after: &Ai, text: Seq<char>, opening: Opening) -> bool {
    &&& opening.outcome() matches Some(outcome)
    &&& if before@.in_flight {
        after@ == before@ && outcome == Err::<ModelRequestView, AiError>(AiError::Busy)
    } else {
        match encoded(before@.memories) {
            Some(json) => (after@, outcome) == before@.begun(text, Ok(json)),
            None => after@ == before@ && outcome matches Err(AiError::SerialisationError(_)),
        }
    }
}

/// Begins the turn for `text`.
fn begin(ai: &mut Ai, text: &str) -> (opening: Opening)
    ensures
        !(opening is Skipped),
        begins(old(ai), final(ai), text@, opening),
{
    match ai.send(text) {
        Ok(request) => Opening::Ask(request),
        Err(e) => Opening::Dropped(e),
    }
}

/// Brings `message` through the reaction gate and, where it passes, begins
/// its turn.
///
/// A message that mentions the trigger is never skipped, nor is any message
/// where the chance of a reaction is one. Where that chance is zero, a message
/// that does not mention the trigger is skipped. A message that is skipped
/// leaves the model untouched.
pub fn open(gate: &ReactionGate, ai: &mut Ai, message: TwitchIRCMessage) -> (opening: Opening)
    ensures
        mentions(message.message@, gate.trigger()) ==> !(opening is Skipped),
        gate.chance().0 == gate.chance().1 ==> !(opening is Skipped),
        gate.chance().0 == 0 && !mentions(message.message@, gate.trigger()) ==> opening
            is Skipped,
        opening is Skipped ==> final(ai)@ == old(ai)@,
        !(opening is Skipped) ==> begins(
            old(ai),
            final(ai),
            normalized(message.username@, message.message@),
            opening,
        ),
{
    match gate.decide(message) {
        None => Opening::Skipped,
        Some(request) => begin(ai, request.normalized_text.as_str()),
    }
}

/// Ends the turn with what came back from the model and fans the reaction
/// out.
///
/// A turn that gave a reaction is delivered to every sink. A turn that failed
/// delivers nothing and leaves the memory as it was.
pub fn close(ai: &mut Ai, sinks: &SinkFanout, reply: Reply) -> (closing: Closing)
    ensures
        final(ai)@ == old(ai)@.received(reply@).0,
        match old(ai)@.received(reply@).1 {
            Ok(reaction) => closing matches Closing::Deliver(deliveries) && views(deliveries@)
                == sinks.fanned_out(reaction.displayable),
            Err(e) => closing matches Closing::Dropped(f) && f == e,
        },
{
    match ai.receive(reply) {
        Ok(reaction) => Closing::Deliver(sinks.deliver(&reaction)),
        Err(e) => Closing::Dropped(e),
    }
}

} // verus!
