//! The reaction gate: which chat messages are handed to the model.
//!
//! A message that mentions the trigger always is. Of the others a share is
//! drawn at random, so that a busy chat is sampled and not answered line by
//! line.

use crate::text::{contains_ignore_case, lemma_holding_is_mentioning, mentions, occurs};
use crate::twitch::TwitchIRCMessage;
use vstd::prelude::*;

verus! {

/// A message that passed the reaction gate, with the text that the model is
/// given for it.
#[derive(Debug)]
pub struct ReactionRequest {
    pub raw_message: TwitchIRCMessage,
    pub normalized_text: String,
}

/// The text that the model is given for a message: the name, a colon, a space,
/// the message.
pub open spec fn normalized(username: Seq<char>, message: Seq<char>) -> Seq<char> {
    username + seq![':', ' '] + message
}

/// The policy of the reaction gate: the trigger, and the chance `numerator` in
/// `denominator` with which a message without the trigger passes.
pub struct ReactionGate {
    trigger: String,
    numerator: u32,
    denominator: u32,
}

/// Calls `rand::random_ratio`, which draws `true` with the chance `numerator`
/// in `denominator`.
///
/// Believed, not proved: a chance of one always gives `true`, a chance of zero
/// always `false`. Outside the bounds required here the call panics.
#[verifier::external_body]
fn sample(numerator: u32, denominator: u32) -> (hit: bool)
    requires
        0 < denominator,
        numerator <= denominator,
    ensures
        numerator == denominator ==> hit,
        numerator == 0 ==> !hit,
{
    rand::random_ratio(numerator, denominator)
}

impl ReactionGate {
    #[verifier::type_invariant]
    spec fn chance_is_a_share(self) -> bool {
        0 < self.denominator && self.numerator <= self.denominator
    }

    /// The trigger.
    pub closed spec fn trigger(&self) -> Seq<char> {
        self.trigger@
    }

    /// The chance with which a message without the trigger passes, as a pair
    /// of numerator and denominator.
    pub closed spec fn chance(&self) -> (nat, nat) {
        (self.numerator as nat, self.denominator as nat)
    }

    /// Whether this gate lets `message` pass when the draw came out as
    /// `sampled`.
    pub open spec fn passes(&self, message: Seq<char>, sampled: bool) -> bool {
        mentions(message, self.trigger()) || sampled
    }

    /// A gate with the given trigger and chance, if `numerator` in
    /// `denominator` is a chance: a share of a whole that is not zero.
    pub fn new(trigger: String, numerator: u32, denominator: u32) -> (gate: Option<Self>)
        ensures
            gate is Some <==> 0 < denominator && numerator <= denominator,
            gate matches Some(g) ==> g.trigger() == trigger@ && g.chance() == (
                numerator as nat,
                denominator as nat,
            ),
    {
        if 0 < denominator && numerator <= denominator {
            Some(ReactionGate { trigger, numerator, denominator })
        } else {
            None
        }
    }

    /// The text that the model is given for `message`.
    pub fn normalize(message: &TwitchIRCMessage) -> (text: String)
        ensures
            text@ == normalized(message.username@, message.message@),
    {
        proof {
            reveal_strlit(": ");
        }
        let mut text = String::from_str(message.username.as_str());
        text.append(": ");
        text.append(message.message.as_str());
        assert(": "@ == seq![':', ' ']);
        text
    }

    /// Decides on `message` with the draw already made: `sampled` tells
    /// whether it came out in favour of a reaction.
    ///
    /// A request carries the message as it came and its normalized text.
    pub fn decide_sampled(&self, message: TwitchIRCMessage, sampled: bool) -> (request: Option<
        ReactionRequest,
    >)
        ensures
            request is Some <==> self.passes(message.message@, sampled),
            request matches Some(r) ==> r.raw_message == message && r.normalized_text@
                == normalized(message.username@, message.message@),
    {
        if sampled || contains_ignore_case(message.message.as_str(), self.trigger.as_str()) {
            let normalized_text = Self::normalize(&message);
            Some(ReactionRequest { raw_message: message, normalized_text })
        } else {
            None
        }
    }

    /// Decides whether `message` gets a reaction.
    ///
    /// A message that holds the trigger always passes, in whatever case the
    /// letters of either are written. Any other message passes with the
    /// chance of this gate: always where that chance is one, never where it
    /// is zero.
    pub fn decide(&self, message: TwitchIRCMessage) -> (request: Option<ReactionRequest>)
        ensures
            occurs(message.message@, self.trigger()) ==> request is Some,
            mentions(message.message@, self.trigger()) ==> request is Some,
            self.chance().0 == self.chance().1 ==> request is Some,
            self.chance().0 == 0 && !mentions(message.message@, self.trigger()) ==> request is None,
            request matches Some(r) ==> r.raw_message == message && r.normalized_text@
                == normalized(message.username@, message.message@),
    {
        proof {
            use_type_invariant(self);
            if occurs(message.message@, self.trigger()) {
                lemma_holding_is_mentioning(message.message@, self.trigger());
            }
        }
        let sampled = sample(self.numerator, self.denominator);
        self.decide_sampled(message, sampled)
    }
}

impl Default for ReactionGate {
    /// The reaction gate with the trigger `kiki` and the chance one in two.
    fn default() -> (gate: Self)
        ensures
            gate.trigger() == seq!['k', 'i', 'k', 'i'],
            gate.chance() == (1nat, 2nat),
    {
        proof {
            reveal_strlit("kiki");
        }
        let trigger = String::from_str("kiki");
        assert(trigger@ == seq!['k', 'i', 'k', 'i']);
        ReactionGate { trigger, numerator: 1, denominator: 2 }
    }
}

} // verus!
