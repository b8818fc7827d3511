use kikimaki::ai::{Ai, AiError, AiResponse, ReactionResult, Reply};
use kikimaki::gate::ReactionGate;
use kikimaki::lifecycle::{Lifecycle, Phase};
use kikimaki::memory::Memories;
use kikimaki::run_loop::{close, open, open_sampled, Closing, Opening};
use kikimaki::sink::{Delivery, SinkFanout};
use kikimaki::twitch::TwitchIRCMessage;
use kikimaki::{make_pipeline, PipelineError, Settings};

fn chat(username: &str, message: &str) -> TwitchIRCMessage {
    TwitchIRCMessage { username: username.to_string(), message: message.to_string() }
}

fn settings() -> Settings {
    Settings {
        prompt: "You are Kiki. {{memories}}".to_string(),
        local_ai_host: "localhost".to_string(),
        local_ai_port: 8543,
        trigger: "kiki".to_string(),
        chance_numerator: 1,
        chance_denominator: 2,
        default_cat_face: "(='.'=)".to_string(),
        obs_source_name: Some("kikichatter".to_string()),
        memory_file: Some("memories.json".to_string()),
    }
}

fn reaction(displayable: &str) -> ReactionResult {
    ReactionResult {
        displayable: displayable.to_string(),
        rating: 3,
        updated_memory: Memories(vec!["secret".to_string()]),
    }
}

fn answer(kamoji: &str, emoji: &str) -> Reply {
    Reply::Parsed(AiResponse {
        kamoji: kamoji.to_string(),
        emoji: emoji.to_string(),
        memories: Memories(vec!["alice greeted".to_string()]),
        rating: 7,
    })
}

#[test]
fn pipeline_is_built_from_its_settings() {
    let pipeline = make_pipeline(settings()).unwrap();
    assert_eq!(pipeline.ai.endpoint(), "http://localhost:8543");
    assert!(pipeline.ai.memories().0.is_empty());
    assert!(!pipeline.ai.in_flight());
    assert_eq!(pipeline.display.current_face(), "(='.'=)");
    assert_eq!(pipeline.memory.unwrap().path(), "memories.json");
    assert_eq!(pipeline.lifecycle, Lifecycle { phase: Phase::Starting, children: 0 });
    let deliveries = pipeline.sinks.deliver(&reaction("x"));
    assert_eq!(deliveries.len(), 2);
    assert!(pipeline.gate.decide_sampled(chat("a", "KIKI"), false).is_some());
    assert!(pipeline.gate.decide_sampled(chat("a", "plain"), false).is_none());
}

#[test]
fn pipeline_without_a_memory_file_keeps_none() {
    let pipeline = make_pipeline(Settings { memory_file: None, ..settings() }).unwrap();
    assert!(pipeline.memory.is_none());
}

#[test]
fn pipeline_refuses_a_chance_that_is_no_share() {
    let failed = make_pipeline(Settings { chance_denominator: 0, ..settings() });
    assert!(matches!(failed, Err(PipelineError::General(_))));
    let failed = make_pipeline(Settings { chance_numerator: 3, ..settings() });
    assert!(matches!(failed, Err(PipelineError::General(_))));
}

#[test]
fn sinks_get_only_what_is_shown() {
    let sinks = SinkFanout::new(true, Some("kikichatter".to_string()));
    let deliveries = sinks.deliver(&reaction("(^_^) \u{1F63A}"));
    assert_eq!(deliveries.len(), 2);
    match &deliveries[0] {
        Delivery::Display(text) => assert_eq!(text, "(^_^) \u{1F63A}"),
        other => panic!("{:?}", other),
    }
    match &deliveries[1] {
        Delivery::Scene(scene) => {
            assert_eq!(scene.source_name, "kikichatter");
            assert_eq!(scene.text, "(^_^) \u{1F63A}");
        }
        other => panic!("{:?}", other),
    }
}

#[test]
fn sinks_that_are_not_configured_get_nothing() {
    assert!(SinkFanout::new(false, None).deliver(&reaction("x")).is_empty());
    let only_display = SinkFanout::new(true, None).deliver(&reaction("x"));
    assert_eq!(only_display.len(), 1);
    assert!(matches!(&only_display[0], Delivery::Display(text) if text == "x"));
    let only_scene = SinkFanout::new(false, Some("s".to_string())).deliver(&reaction("x"));
    assert_eq!(only_scene.len(), 1);
    assert!(matches!(&only_scene[0], Delivery::Scene(scene) if scene.source_name == "s"));
}

#[test]
fn run_loop_brings_a_message_from_the_chat_to_the_sinks() {
    let gate = ReactionGate::new("kiki".to_string(), 0, 1).unwrap();
    let sinks = SinkFanout::new(true, Some("kikichatter".to_string()));
    let mut ai = Ai::new("localhost", 8543, "Memory: {{memories}}".to_string());

    let request = match open(&gate, &mut ai, chat("alice", "hello kiki")) {
        Opening::Ask(request) => request,
        other => panic!("{:?}", other),
    };
    assert_eq!(request.messages[0].content, "Memory: []");
    assert_eq!(request.messages[1].content, "alice: hello kiki");
    assert!(ai.in_flight());

    let deliveries = match close(&mut ai, &sinks, answer("(^_^)", "\u{1F63A}")) {
        Closing::Deliver(deliveries) => deliveries,
        other => panic!("{:?}", other),
    };
    assert_eq!(deliveries.len(), 2);
    assert!(matches!(&deliveries[0], Delivery::Display(text) if text == "(^_^) \u{1F63A}"));
    assert_eq!(ai.memories().0, vec!["alice greeted".to_string()]);
    assert!(!ai.in_flight());
}

#[test]
fn run_loop_skips_a_message_that_does_not_pass() {
    let gate = ReactionGate::new("kiki".to_string(), 0, 1).unwrap();
    let mut ai = Ai::new("localhost", 8543, "{{memories}}".to_string());
    assert!(matches!(open(&gate, &mut ai, chat("bob", "nothing")), Opening::Skipped));
    assert!(!ai.in_flight());
    assert!(matches!(open_sampled(&gate, &mut ai, chat("bob", "nothing"), false), Opening::Skipped));
    assert!(matches!(open_sampled(&gate, &mut ai, chat("bob", "nothing"), true), Opening::Ask(_)));
    assert!(ai.in_flight());
}

#[test]
fn run_loop_drops_a_message_while_a_turn_is_in_flight() {
    let gate = ReactionGate::new("kiki".to_string(), 1, 1).unwrap();
    let mut ai = Ai::new("localhost", 8543, "{{memories}}".to_string());
    assert!(matches!(open(&gate, &mut ai, chat("a", "one")), Opening::Ask(_)));
    assert!(matches!(open(&gate, &mut ai, chat("b", "two")), Opening::Dropped(AiError::Busy)));
    assert!(ai.in_flight());
}

#[test]
fn run_loop_goes_on_after_a_failed_turn() {
    let gate = ReactionGate::new("kiki".to_string(), 1, 1).unwrap();
    let sinks = SinkFanout::new(true, None);
    let mut ai = Ai::new("localhost", 8543, "{{memories}}".to_string());
    ai.remember(Memories(vec!["kept".to_string()]));

    assert!(matches!(open(&gate, &mut ai, chat("a", "one")), Opening::Ask(_)));
    let closing = close(&mut ai, &sinks, Reply::Failed(AiError::NoMessage));
    assert!(matches!(closing, Closing::Dropped(AiError::NoMessage)));
    assert_eq!(ai.memories().0, vec!["kept".to_string()]);

    let request = match open(&gate, &mut ai, chat("b", "two")) {
        Opening::Ask(request) => request,
        other => panic!("{:?}", other),
    };
    assert_eq!(request.messages[0].content, "[\"kept\"]");
    assert!(matches!(close(&mut ai, &sinks, answer("k", "e")), Closing::Deliver(_)));
}

#[test]
fn run_loop_close_without_a_turn_delivers_nothing() {
    let sinks = SinkFanout::new(true, None);
    let mut ai = Ai::new("localhost", 8543, "{{memories}}".to_string());
    let closing = close(&mut ai, &sinks, answer("k", "e"));
    assert!(matches!(closing, Closing::Dropped(AiError::NotInFlight)));
    assert!(ai.memories().0.is_empty());
}
