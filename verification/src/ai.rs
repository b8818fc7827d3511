//! Turns with the language model, one at a time.
//!
//! A turn reads the memory when it begins and replaces it when it ends, so no
//! second turn may begin in between. [`Ai`] keeps the memory and the state of
//! the turn. The call over the network is made by the caller: [`Ai::send`]
//! says what to ask, [`Ai::receive`] takes what came back.

use crate::json::{encode, encoded};
use crate::memory::{newest, Memories, MAX_MEMORIES};
use crate::rating::{clamp_rating, clamped};
use crate::text::{
    after_last, after_last_marker, decimal, substitute, substituted, to_decimal, trim, trimmed,
};
use vstd::prelude::*;

verus! {

#[verifier::external_type_specification]
#[verifier::external_body]
pub struct ExOpenAiError(openai::OpenAiError);

/// The model that is asked.
pub const MODEL_NAME: &'static str = "Qwen3-1.7B-Q_0";

/// The slot of the prompt that the memory goes into, as JSON.
pub const MEMORY_SLOT: &'static str = "{{memories}}";

/// What ends the part of an answer in which the model thinks aloud.
pub const THINK_END: &'static str = "</think>";

/// The sampling temperature, in hundredths.
pub const TEMPERATURE_PERCENT: u32 = 80;

/// The share of the probability mass that is sampled from, in hundredths.
pub const TOP_P_PERCENT: u32 = 95;

/// How long a call to a remote backend may take, in seconds, before it counts
/// as failed.
pub const REMOTE_TIMEOUT_SECONDS: u64 = 30;

/// Why a turn gave no reaction.
#[derive(Debug)]
pub enum AiError {
    /// The model returned no message, or one without content.
    NoMessage,
    /// The call to the model failed.
    CompletionError(openai::OpenAiError),
    /// The answer is not the JSON object that was asked for.
    DeserialisationError(serde_json::Error),
    /// The memory could not be written into the prompt.
    SerialisationError(serde_json::Error),
    Unknown,
    /// The model did not answer within [`REMOTE_TIMEOUT_SECONDS`].
    TimedOut,
    /// A turn was to begin while another was in flight.
    Busy,
    /// An answer was handed in while no turn was in flight.
    NotInFlight,
}

/// What the model answered, once read from its JSON.
#[derive(Debug)]
pub struct AiResponse {
    pub kamoji: String,
    pub emoji: String,
    pub memories: Memories,
    pub rating: i64,
}

/// A finished reaction. Only `displayable` ever leaves the pipeline.
#[derive(Debug)]
pub struct ReactionResult {
    pub displayable: String,
    pub rating: i64,
    pub updated_memory: Memories,
}

/// Who speaks in a turn of the conversation.
#[derive(Clone, Copy, Debug, PartialEq, Eq, Structural)]
pub enum Role {
    System,
    User,
}

/// One turn of the conversation that the model is given.
#[derive(Debug)]
pub struct ChatTurn {
    pub role: Role,
    pub content: String,
}

/// What the model is asked.
#[derive(Debug)]
pub struct ModelRequest {
    pub model: String,
    pub messages: Vec<ChatTurn>,
    pub temperature_percent: u32,
    pub top_p_percent: u32,
}

/// What came back from a call to the model.
#[derive(Debug)]
pub enum Reply {
    /// Nothing usable: the call failed or the answer was empty.
    Failed(AiError),
    /// An answer that is not the JSON object that was asked for.
    Malformed(serde_json::Error),
    /// An answer, read.
    Parsed(AiResponse),
}

/// The turns of a conversation as pairs of speaker and text.
pub open spec fn turns(messages: Seq<ChatTurn>) -> Seq<(Role, Seq<char>)> {
    Seq::new(messages.len(), |i: int| (messages[i].role, messages[i].content@))
}

/// The address of a model served over plain HTTP at `host` and `port`.
pub open spec fn endpoint_of(host: Seq<char>, port: u16) -> Seq<char> {
    seq!['h', 't', 't', 'p', ':', '/', '/'] + host + seq![':'] + decimal(port as nat)
}

/// The text of an answer without its surroundings: white space at either end
/// is dropped, then everything up to the end of the last stretch of thinking
/// aloud.
pub open spec fn answer_of(content: Seq<char>) -> Seq<char> {
    after_last(trimmed(content), THINK_END@)
}

/// What is shown of an answer: the kaomoji, a space, the emoji.
pub open spec fn displayable_of(kamoji: Seq<char>, emoji: Seq<char>) -> Seq<char> {
    kamoji + seq![' '] + emoji
}

/// What an [`Ai`] stands for in contracts.
pub struct AiView {
    pub endpoint: Seq<char>,
    pub prompt: Seq<char>,
    pub memories: Seq<Seq<char>>,
    pub in_flight: bool,
}

/// What a [`ModelRequest`] stands for in contracts.
pub struct ModelRequestView {
    pub model: Seq<char>,
    pub messages: Seq<(Role, Seq<char>)>,
    pub temperature_percent: nat,
    pub top_p_percent: nat,
}

/// What a [`Reply`] stands for in contracts. Errors are carried as they came.
pub enum ReplyView {
    Failed(AiError),
    Malformed(serde_json::Error),
    Parsed { kamoji: Seq<char>, emoji: Seq<char>, memories: Seq<Seq<char>>, rating: int },
}

/// What a [`ReactionResult`] stands for in contracts.
pub struct ReactionView {
    pub displayable: Seq<char>,
    pub rating: int,
    pub updated_memory: Seq<Seq<char>>,
}

impl View for ModelRequest {
    type V = ModelRequestView;

    open spec fn view(&self) -> ModelRequestView {
        ModelRequestView {
            model: self.model@,
            messages: turns(self.messages@),
            temperature_percent: self.temperature_percent as nat,
            top_p_percent: self.top_p_percent as nat,
        }
    }
}

impl View for Reply {
    type V = ReplyView;

    open spec fn view(&self) -> ReplyView {
        match *self {
            Reply::Failed(e) => ReplyView::Failed(e),
            Reply::Malformed(e) => ReplyView::Malformed(e),
            Reply::Parsed(response) => ReplyView::Parsed {
                kamoji: response.kamoji@,
                emoji: response.emoji@,
                memories: response.memories@,
                rating: response.rating as int,
            },
        }
    }
}

impl View for ReactionResult {
    type V = ReactionView;

    open spec fn view(&self) -> ReactionView {
        ReactionView {
            displayable: self.displayable@,
            rating: self.rating as int,
            updated_memory: self.updated_memory@,
        }
    }
}

/// The outcome of a step as contracts see it.
pub open spec fn viewed<T: View>(result: Result<T, AiError>) -> Result<T::V, AiError> {
    match result {
        Ok(value) => Ok(value@),
        Err(e) => Err(e),
    }
}

/// The request that asks the model for one reaction: the system prompt, then
/// the text to react to.
pub open spec fn request_for(system_prompt: Seq<char>, user_turn: Seq<char>) -> ModelRequestView {
    ModelRequestView {
        model: MODEL_NAME@,
        messages: seq![(Role::System, system_prompt), (Role::User, user_turn)],
        temperature_percent: TEMPERATURE_PERCENT as nat,
        top_p_percent: TOP_P_PERCENT as nat,
    }
}

impl AiView {
    /// The prompt of a turn that begins in this state, with `json` the memory
    /// as JSON.
    pub open spec fn prompt_with(self, json: Seq<char>) -> Seq<char> {
        substituted(self.prompt, MEMORY_SLOT@, json)
    }

    /// The state after a turn was to begin for `message`, and what the caller
    /// got, with `written` the outcome of writing the memory as JSON.
    ///
    /// While a turn is in flight no other begins. A memory that cannot be
    /// written begins none either. In both cases the state stays as it was.
    pub open spec fn begun(
        self,
        message: Seq<char>,
        written: Result<Seq<char>, serde_json::Error>,
    ) -> (AiView, Result<ModelRequestView, AiError>) {
        if self.in_flight {
            (self, Err(AiError::Busy))
        } else {
            match written {
                Err(e) => (self, Err(AiError::SerialisationError(e))),
                Ok(json) => (
                    AiView { in_flight: true, ..self },
                    Ok(request_for(self.prompt_with(json), message)),
                ),
            }
        }
    }

    /// The state after `reply` was handed in, and what the caller got.
    ///
    /// The turn in flight ends, whatever came back. Only an answer that was
    /// read replaces the memory, by the newest [`MAX_MEMORIES`] entries of the
    /// memory it carries. With no turn in flight nothing changes.
    pub open spec fn received(self, reply: ReplyView) -> (AiView, Result<ReactionView, AiError>) {
        if !self.in_flight {
            (self, Err(AiError::NotInFlight))
        } else {
            let idle = AiView { in_flight: false, ..self };
            match reply {
                ReplyView::Failed(e) => (idle, Err(e)),
                ReplyView::Malformed(e) => (idle, Err(AiError::DeserialisationError(e))),
                ReplyView::Parsed { kamoji, emoji, memories, rating } => {
                    let kept = newest(memories, MAX_MEMORIES as nat);
                    (
                        AiView { memories: kept, ..idle },
                        Ok(
                            ReactionView {
                                displayable: displayable_of(kamoji, emoji),
                                rating: clamped(rating),
                                updated_memory: kept,
                            },
                        ),
                    )
                },
            }
        }
    }

    /// The state after the turn in flight, if any, was given up.
    pub open spec fn abandoned(self) -> AiView {
        AiView { in_flight: false, ..self }
    }
}

/// The model, its prompt and its memory, and whether a turn is in flight.
pub struct Ai {
    endpoint: String,
    prompt: String,
    memories: Memories,
    in_flight: bool,
}

impl View for Ai {
    type V = AiView;

    closed spec fn view(&self) -> AiView {
        AiView {
            endpoint: self.endpoint@,
            prompt: self.prompt@,
            memories: self.memories@,
            in_flight: self.in_flight,
        }
    }
}

impl Ai {
    #[verifier::type_invariant]
    spec fn memory_is_bounded(self) -> bool {
        self.memories.wf()
    }

    /// An `Ai` for the model served at `host` and `port`, with the given
    /// prompt, an empty memory and no turn in flight.
    pub fn new(host: &str, port: u16, prompt: String) -> (ai: Self)
        ensures
            ai@ == (AiView {
                endpoint: endpoint_of(host@, port),
                prompt: prompt@,
                memories: Seq::empty(),
                in_flight: false,
            }),
    {
        proof {
            reveal_strlit("http://");
            reveal_strlit(":");
        }
        let mut endpoint = String::from_str("http://");
        assert(endpoint@ == seq!['h', 't', 't', 'p', ':', '/', '/']);
        endpoint.append(host);
        endpoint.append(":");
        assert(":"@ == seq![':']);
        endpoint.append(to_decimal(port).as_str());
        Ai { endpoint, prompt, memories: Memories::empty(), in_flight: false }
    }

    /// Starts from `memories` in place of the memory held so far, cut to the
    /// bound. A turn in flight is not disturbed: it ends as it would have.
    pub fn remember(&mut self, memories: Memories)
        ensures
            final(self)@ == (AiView {
                memories: newest(memories@, MAX_MEMORIES as nat),
                ..old(self)@
            }),
    {
        let ghost all = memories.0@;
        let kept = Memories::bounded(memories.0);
        assert(kept@ == newest(crate::text::texts(all), MAX_MEMORIES as nat));
        self.memories = kept;
    }

    /// The address at which the model is served.
    pub fn endpoint(&self) -> (endpoint: &String)
        ensures
            endpoint@ == self@.endpoint,
    {
        &self.endpoint
    }

    /// The memory as the last turn left it.
    pub fn memories(&self) -> (memories: &Memories)
        ensures
            memories@ == self@.memories,
            memories.wf(),
            memories@.len() <= MAX_MEMORIES,
    {
        proof {
            use_type_invariant(self);
        }
        &self.memories
    }

    /// Whether a turn is in flight.
    pub fn in_flight(&self) -> (busy: bool)
        ensures
            busy == self@.in_flight,
    {
        self.in_flight
    }

    /// The request for a conversation that opens with `prompt` as the word of
    /// the system and goes on with `history`.
    pub fn send_raw(prompt: String, history: Vec<ChatTurn>) -> (request: ModelRequest)
        ensures
            request@ == (ModelRequestView {
                model: MODEL_NAME@,
                messages: seq![(Role::System, prompt@)] + turns(history@),
                temperature_percent: TEMPERATURE_PERCENT as nat,
                top_p_percent: TOP_P_PERCENT as nat,
            }),
    {
        let mut history = history;
        let ghost rest = history@;
        let mut messages: Vec<ChatTurn> = Vec::new();
        messages.push(ChatTurn { role: Role::System, content: prompt });
        messages.append(&mut history);
        assert(turns(messages@) =~= seq![(Role::System, prompt@)] + turns(rest));
        ModelRequest {
            model: String::from_str(MODEL_NAME),
            messages,
            temperature_percent: TEMPERATURE_PERCENT,
            top_p_percent: TOP_P_PERCENT,
        }
    }

    /// Takes the outcome of the call to the model, with `choices` the content of
    /// each message it returned, and gives the text of its answer.
    ///
    /// The first message counts. Without one, or without content in it, there
    /// is no answer.
    pub fn answer(choices: Result<Vec<Option<String>>, openai::OpenAiError>) -> (text: Result<
        String,
        AiError,
    >)
        ensures
            match choices {
                Err(e) => text == Err::<String, AiError>(AiError::CompletionError(e)),
                Ok(contents) => if contents@.len() > 0 && contents@[0] is Some {
                    text matches Ok(t) && t@ == answer_of(contents@[0]->Some_0@)
                } else {
                    text == Err::<String, AiError>(AiError::NoMessage)
                },
            },
    {
        match choices {
            Err(e) => Err(AiError::CompletionError(e)),
            Ok(contents) => {
                if contents.len() == 0 {
                    return Err(AiError::NoMessage);
                }
                match &contents[0] {
                    None => Err(AiError::NoMessage),
                    Some(content) => {
                        let inner = trim(content.as_str());
                        Ok(after_last_marker(inner.as_str(), THINK_END))
                    },
                }
            },
        }
    }

    /// Begins a turn for `message`, with `written` the outcome of writing the
    /// memory as JSON, and gives the request to send to the model.
    pub fn send_written(
        &mut self,
        message: &str,
        written: Result<String, serde_json::Error>,
    ) -> (request: Result<ModelRequest, AiError>)
        ensures
            (final(self)@, viewed(request)) == old(self)@.begun(
                message@,
                match written {
                    Ok(json) => Ok(json@),
                    Err(e) => Err(e),
                },
            ),
    {
        proof {
            use_type_invariant(&*self);
        }
        if self.in_flight {
            return Err(AiError::Busy);
        }
        match written {
            Err(e) => Err(AiError::SerialisationError(e)),
            Ok(json) => {
                let prompt = substitute(self.prompt.as_str(), MEMORY_SLOT, json.as_str());
                let mut history: Vec<ChatTurn> = Vec::new();
                history.push(ChatTurn { role: Role::User, content: String::from_str(message) });
                let request = Self::send_raw(prompt, history);
                assert(request@.messages =~= seq![
                    (Role::System, old(self)@.prompt_with(json@)),
                    (Role::User, message@),
                ]);
                self.in_flight = true;
                Ok(request)
            },
        }
    }

    /// Begins a turn for `message` and gives the request to send to the model:
    /// the prompt with the memory, as a JSON array of strings, in its slot,
    /// and `message` as the word of the user.
    ///
    /// From here until [`Ai::receive`] or [`Ai::abandon`] the turn is in
    /// flight, and no other begins: a second `send` fails with
    /// [`AiError::Busy`] and changes nothing.
    pub fn send(&mut self, message: &str) -> (request: Result<ModelRequest, AiError>)
        ensures
            old(self)@.in_flight ==> final(self)@ == old(self)@ && viewed(request) == Err::<
                ModelRequestView,
                AiError,
            >(AiError::Busy),
            !old(self)@.in_flight ==> match encoded(old(self)@.memories) {
                Some(json) => (final(self)@, viewed(request)) == old(self)@.begun(
                    message@,
                    Ok(json),
                ),
                None => final(self)@ == old(self)@ && request matches Err(
                    AiError::SerialisationError(_),
                ),
            },
    {
        if self.in_flight {
            return Err(AiError::Busy);
        }
        let written = encode(&self.memories.0);
        self.send_written(message, written)
    }

    /// Ends the turn in flight with what came back from the model.
    ///
    /// A reply that was read gives the reaction: what is shown, the rating
    /// brought into its range, and the new memory, which replaces the old one
    /// whole. Where the model sent more entries than the memory holds, the
    /// newest stay. Any other reply gives its error and leaves the memory as
    /// it was.
    pub fn receive(&mut self, reply: Reply) -> (reaction: Result<ReactionResult, AiError>)
        ensures
            (final(self)@, viewed(reaction)) == old(self)@.received(reply@),
            final(self)@.memories.len() <= MAX_MEMORIES,
    {
        proof {
            use_type_invariant(&*self);
        }
        if !self.in_flight {
            return Err(AiError::NotInFlight);
        }
        self.in_flight = false;
        match reply {
            Reply::Failed(e) => Err(e),
            Reply::Malformed(e) => Err(AiError::DeserialisationError(e)),
            Reply::Parsed(response) => {
                proof {
                    reveal_strlit(" ");
                }
                let ghost sent = response.memories@;
                let kept = Memories::bounded(response.memories.0);
                assert(kept@ == newest(sent, MAX_MEMORIES as nat));
                let mut displayable = response.kamoji;
                displayable.append(" ");
                displayable.append(response.emoji.as_str());
                assert(" "@ == seq![' ']);
                self.memories = kept.duplicate();
                Ok(
                    ReactionResult {
                        displayable,
                        rating: clamp_rating(response.rating),
                        updated_memory: kept,
                    },
                )
            },
        }
    }

    /// Gives up the turn in flight, if there is one: the call was dropped and
    /// no reply will come. The memory stays as it was.
    pub fn abandon(&mut self)
        ensures
            final(self)@ == old(self)@.abandoned(),
    {
        proof {
            use_type_invariant(&*self);
        }
        self.in_flight = false;
    }
}

/// The memory never grows beyond its bound: whatever the model sends, and
/// however many entries it sends, at most [`MAX_MEMORIES`] are kept after a
/// turn that gave a reaction, and a memory within the bound stays within it
/// through any reply.
pub proof fn lemma_memory_stays_bounded(state: AiView, reply: ReplyView)
    ensures
        state.received(reply).1 is Ok ==> state.received(reply).0.memories.len() <= MAX_MEMORIES,
        state.memories.len() <= MAX_MEMORIES ==> state.received(reply).0.memories.len()
            <= MAX_MEMORIES,
{
}

/// A turn that gives no reaction leaves the memory as it was, and the next
/// turn can begin.
pub proof fn lemma_failed_turn_keeps_memory(state: AiView, reply: ReplyView)
    requires
        state.in_flight,
        !(reply is Parsed),
    ensures
        state.received(reply).1 is Err,
        state.received(reply).0 == (AiView { in_flight: false, ..state }),
{
}

/// While a turn is in flight no other begins, and nothing but the end of that
/// turn touches the memory.
pub proof fn lemma_one_turn_at_a_time(
    state: AiView,
    message: Seq<char>,
    written: Result<Seq<char>, serde_json::Error>,
)
    requires
        state.in_flight,
    ensures
        state.begun(message, written) == (state, Err::<ModelRequestView, AiError>(AiError::Busy)),
{
}

/// Turns follow each other: the memory that goes into the prompt of a turn is
/// the memory that the turn before it left, whole. A turn that begins does not
/// change the memory; a turn that ends with a reaction replaces it by the
/// newest entries of the answer; a turn that ends otherwise leaves it.
pub proof fn lemma_next_turn_reads_what_the_last_left(
    state: AiView,
    first: Seq<char>,
    first_json: Seq<char>,
    reply: ReplyView,
    second: Seq<char>,
    second_json: Seq<char>,
)
    requires
        !state.in_flight,
    ensures
        ({
            let started = state.begun(first, Ok(first_json)).0;
            let ended = started.received(reply).0;
            let next = ended.begun(second, Ok(second_json));
            &&& started.in_flight
            &&& started.memories == state.memories
            &&& !ended.in_flight
            &&& ended.memories == match reply {
                ReplyView::Parsed { memories, .. } => newest(memories, MAX_MEMORIES as nat),
                _ => state.memories,
            }
            &&& next.0.memories == ended.memories
            &&& next.1 == Ok::<ModelRequestView, AiError>(
                request_for(substituted(state.prompt, MEMORY_SLOT@, second_json), second),
            )
        }),
{
}

/// What can happen to an [`Ai`], as contracts see it.
pub enum AiEvent {
    /// [`Ai::send`] was called, and writing the memory as JSON came out as
    /// `written`.
    Send { message: Seq<char>, written: Result<Seq<char>, serde_json::Error> },
    /// [`Ai::receive`] was called.
    Receive(ReplyView),
    /// [`Ai::abandon`] was called.
    Abandon,
}

impl AiView {
    /// The state after `event`.
    pub open spec fn after(self, event: AiEvent) -> AiView {
        match event {
            AiEvent::Send { message, written } => self.begun(message, written).0,
            AiEvent::Receive(reply) => self.received(reply).0,
            AiEvent::Abandon => self.abandoned(),
        }
    }

    /// Whether `event` begins a turn in this state.
    pub open spec fn begins_turn(self, event: AiEvent) -> bool {
        event matches AiEvent::Send { message, written } && self.begun(message, written).1 is Ok
    }

    /// Whether `event` ends the turn that is in flight in this state.
    pub open spec fn ends_turn(self, event: AiEvent) -> bool {
        self.in_flight && !(event is Send)
    }

    /// The state after each of `events` in turn.
    pub open spec fn after_all(self, events: Seq<AiEvent>) -> AiView
        decreases events.len(),
    {
        if events.len() == 0 {
            self
        } else {
            self.after_all(events.drop_last()).after(events.last())
        }
    }

    /// How many turns begin in the course of `events`.
    pub open spec fn turns_begun(self, events: Seq<AiEvent>) -> nat
        decreases events.len(),
    {
        if events.len() == 0 {
            0
        } else {
            let before = self.after_all(events.drop_last());
            self.turns_begun(events.drop_last()) + if before.begins_turn(events.last()) {
                1nat
            } else {
                0nat
            }
        }
    }

    /// How many turns end in the course of `events`.
    pub open spec fn turns_ended(self, events: Seq<AiEvent>) -> nat
        decreases events.len(),
    {
        if events.len() == 0 {
            0
        } else {
            let before = self.after_all(events.drop_last());
            self.turns_ended(events.drop_last()) + if before.ends_turn(events.last()) {
                1nat
            } else {
                0nat
            }
        }
    }
}

/// Turns never overlap. Whatever is called in whatever order, starting with no
/// turn in flight: every turn that began has ended before the next begins, so
/// at most one turn is in flight at any time, and the memory is within its
/// bound throughout.
pub proof fn lemma_turns_never_overlap(state: AiView, events: Seq<AiEvent>)
    requires
        !state.in_flight,
        state.memories.len() <= MAX_MEMORIES,
    ensures
        state.turns_begun(events) == state.turns_ended(events) + if state.after_all(
            events,
        ).in_flight {
            1nat
        } else {
            0nat
        },
        state.after_all(events).memories.len() <= MAX_MEMORIES,
    decreases events.len(),
{
    if events.len() > 0 {
        lemma_turns_never_overlap(state, events.drop_last());
    }
}

/// The memory changes only where a turn ends with a reaction: any other call
/// leaves it as it was.
pub proof fn lemma_memory_changes_only_with_a_reaction(state: AiView, event: AiEvent)
    ensures
        state.after(event).memories != state.memories ==> state.in_flight && event is Receive
            && event->Receive_0 is Parsed,
{
}

} // verus!
