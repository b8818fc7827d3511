//! Core of a chat reaction pipeline: which chat messages deserve a reaction,
//! how a turn with the language model is prepared and folded back into a small
//! bounded memory, and where the finished reaction goes.
//!
//! Nothing here waits, reads or sends. The tasks, the network and the files
//! belong to the program around this library; it reports what happened and is
//! told what follows.

use crate::ai::{endpoint_of, Ai, AiView};
use crate::gate::ReactionGate;
use crate::lifecycle::{Lifecycle, Phase};
use crate::memory::MemoryBackend;
use crate::sink::SinkFanout;
use crate::webserver::CatWebServer;
use vstd::prelude::*;

pub mod ai;
pub mod bus;
pub mod gate;
pub mod json;
pub mod lifecycle;
pub mod memory;
pub mod obs;
pub mod rating;
pub mod run_loop;
pub mod sink;
pub mod text;
pub mod twitch;
pub mod webserver;

verus! {

/// Why the pipeline could not be built.
#[derive(Debug)]
pub enum PipelineError {
    General(String),
}

/// What a pipeline is built from.
pub struct Settings {
    /// The prompt, with a slot for the memory.
    pub prompt: String,
    /// The host of the model.
    pub local_ai_host: String,
    /// The port of the model.
    pub local_ai_port: u16,
    /// What a message has to mention to get a reaction for certain.
    pub trigger: String,
    /// The chance of a reaction to any other message: this many ...
    pub chance_numerator: u32,
    /// ... in this many.
    pub chance_denominator: u32,
    /// What the display page shows before the first reaction.
    pub default_cat_face: String,
    /// The source of the scene-control backend that shows the reactions, if
    /// there is one.
    pub obs_source_name: Option<String>,
    /// The file that the memory is kept in from one run to the next, if it
    /// is kept.
    pub memory_file: Option<String>,
}

/// The parts of a pipeline, built and not yet running.
pub struct Pipeline {
    pub ai: Ai,
    pub gate: ReactionGate,
    pub display: CatWebServer,
    pub sinks: SinkFanout,
    pub memory: Option<MemoryBackend>,
    pub lifecycle: Lifecycle,
}

impl Settings {
    /// Whether the chance is a share of a whole that is not zero.
    pub open spec fn chance_is_a_share(&self) -> bool {
        0 < self.chance_denominator && self.chance_numerator <= self.chance_denominator
    }
}

/// Builds the parts of a pipeline: the model with an empty memory and no turn
/// in flight, the reaction gate, the display page with its default face, the
/// sinks with the display page among them, the place of the memory on disk,
/// and the controller's state before anything has started.
///
/// Fails exactly where the chance of a reaction is no share of a whole.
pub fn make_pipeline(settings: Settings) -> (pipeline: Result<Pipeline, PipelineError>)
    ensures
        pipeline is Ok <==> settings.chance_is_a_share(),
        pipeline matches Ok(p) ==> {
            &&& p.ai@ == (AiView {
                endpoint: endpoint_of(settings.local_ai_host@, settings.local_ai_port),
                prompt: settings.prompt@,
                memories: Seq::empty(),
                in_flight: false,
            })
            &&& p.gate.trigger() == settings.trigger@
            &&& p.gate.chance() == (
                settings.chance_numerator as nat,
                settings.chance_denominator as nat,
            )
            &&& p.display.face() == settings.default_cat_face@
            &&& p.sinks.shows()
            &&& p.sinks.scene_source() == match settings.obs_source_name {
                Some(name) => Some(name@),
                None => None,
            }
            &&& match (p.memory, settings.memory_file) {
                (Some(backend), Some(filename)) => backend.filename() == filename@,
                (None, None) => true,
                _ => false,
            }
            &&& p.lifecycle == (Lifecycle { phase: Phase::Starting, children: 0 })
        },
{
    let gate = match ReactionGate::new(
        settings.trigger,
        settings.chance_numerator,
        settings.chance_denominator,
    ) {
        Some(gate) => gate,
        None => {
            return Err(
                PipelineError::General(String::from_str("the chance of a reaction is no share")),
            );
        },
    };
    let memory = match settings.memory_file {
        Some(filename) => Some(MemoryBackend::new(filename)),
        None => None,
    };
    Ok(
        Pipeline {
            ai: Ai::new(settings.local_ai_host.as_str(), settings.local_ai_port, settings.prompt),
            gate,
            display: CatWebServer::new(settings.default_cat_face.as_str()),
            sinks: SinkFanout::new(true, settings.obs_source_name),
            memory,
            lifecycle: Lifecycle::new(),
        },
    )
}

} // verus!
