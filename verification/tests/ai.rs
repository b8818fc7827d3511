use kikimaki::ai::{
    Ai, AiError, AiResponse, ChatTurn, Reply, Role, MEMORY_SLOT, MODEL_NAME,
    REMOTE_TIMEOUT_SECONDS, TEMPERATURE_PERCENT, THINK_END, TOP_P_PERCENT,
};
use kikimaki::memory::Memories;

fn memories(texts: &[&str]) -> Memories {
    Memories(texts.iter().map(|t| t.to_string()).collect())
}

fn response(kamoji: &str, emoji: &str, remembered: &[&str], rating: i64) -> AiResponse {
    AiResponse {
        kamoji: kamoji.to_string(),
        emoji: emoji.to_string(),
        memories: memories(remembered),
        rating,
    }
}

fn unreachable_backend() -> openai::OpenAiError {
    openai::OpenAiError {
        message: "connection refused".to_string(),
        error_type: "reqwest".to_string(),
        param: None,
        code: None,
    }
}

fn broken_json() -> serde_json::Error {
    serde_json::from_str::<Vec<String>>("{").unwrap_err()
}

#[test]
fn ai_constants_are_as_documented() {
    assert_eq!(MODEL_NAME, "Qwen3-1.7B-Q_0");
    assert_eq!(MEMORY_SLOT, "{{memories}}");
    assert_eq!(THINK_END, "</think>");
    assert_eq!(TEMPERATURE_PERCENT, 80);
    assert_eq!(TOP_P_PERCENT, 95);
    assert_eq!(REMOTE_TIMEOUT_SECONDS, 30);
}

#[test]
fn ai_new_builds_the_endpoint_and_starts_empty() {
    let ai = Ai::new("localhost", 8543, "prompt".to_string());
    assert_eq!(ai.endpoint(), "http://localhost:8543");
    assert!(ai.memories().0.is_empty());
    assert!(!ai.in_flight());
    let ai = Ai::new("10.0.0.7", 0, String::new());
    assert_eq!(ai.endpoint(), "http://10.0.0.7:0");
    let ai = Ai::new("", 65535, String::new());
    assert_eq!(ai.endpoint(), "http://:65535");
}

#[test]
fn ai_send_raw_opens_with_the_system_prompt() {
    let history = vec![
        ChatTurn { role: Role::User, content: "alice: hi".to_string() },
        ChatTurn { role: Role::System, content: "note".to_string() },
    ];
    let request = Ai::send_raw("be a cat".to_string(), history);
    assert_eq!(request.model, "Qwen3-1.7B-Q_0");
    assert_eq!(request.temperature_percent, 80);
    assert_eq!(request.top_p_percent, 95);
    assert_eq!(request.messages.len(), 3);
    assert_eq!(request.messages[0].role, Role::System);
    assert_eq!(request.messages[0].content, "be a cat");
    assert_eq!(request.messages[1].role, Role::User);
    assert_eq!(request.messages[1].content, "alice: hi");
    assert_eq!(request.messages[2].role, Role::System);
    assert_eq!(request.messages[2].content, "note");
    let alone = Ai::send_raw("p".to_string(), Vec::new());
    assert_eq!(alone.messages.len(), 1);
}

#[test]
fn ai_send_puts_the_memory_into_the_prompt() {
    let mut ai = Ai::new("localhost", 8543, "You remember: {{memories}}.".to_string());
    let request = ai.send("alice: hello kiki").unwrap();
    assert_eq!(request.model, "Qwen3-1.7B-Q_0");
    assert_eq!(request.messages.len(), 2);
    assert_eq!(request.messages[0].role, Role::System);
    assert_eq!(request.messages[0].content, "You remember: [].");
    assert_eq!(request.messages[1].role, Role::User);
    assert_eq!(request.messages[1].content, "alice: hello kiki");
    assert!(ai.in_flight());
    ai.receive(Reply::Parsed(response("(^_^)", "x", &["likes \"fish\"", "b"], 1))).unwrap();
    let request = ai.send("bob: again").unwrap();
    assert_eq!(request.messages[0].content, "You remember: [\"likes \\\"fish\\\"\",\"b\"].");
    assert_eq!(request.messages[1].content, "bob: again");
}

#[test]
fn ai_send_written_uses_the_text_it_is_given() {
    let mut ai = Ai::new("h", 1, "{{memories}}|{{memories}}".to_string());
    let request = ai.send_written("m", Ok("[1]".to_string())).unwrap();
    assert_eq!(request.messages[0].content, "[1]|[1]");
    assert!(ai.in_flight());

    let mut ai = Ai::new("h", 1, "{{memories}}".to_string());
    let failed = ai.send_written("m", Err(broken_json()));
    assert!(matches!(failed, Err(AiError::SerialisationError(_))));
    assert!(!ai.in_flight());
}

#[test]
fn ai_second_send_while_in_flight_is_busy() {
    let mut ai = Ai::new("localhost", 8543, "{{memories}}".to_string());
    ai.send("first").unwrap();
    assert!(matches!(ai.send("second"), Err(AiError::Busy)));
    assert!(matches!(ai.send_written("third", Ok("[]".to_string())), Err(AiError::Busy)));
    assert!(ai.in_flight());
    assert!(ai.memories().0.is_empty());
    ai.receive(Reply::Parsed(response("k", "e", &["a"], 0))).unwrap();
    assert!(ai.send("second").is_ok());
}

#[test]
fn ai_receive_without_a_turn_changes_nothing() {
    let mut ai = Ai::new("localhost", 8543, "{{memories}}".to_string());
    let late = ai.receive(Reply::Parsed(response("k", "e", &["a"], 0)));
    assert!(matches!(late, Err(AiError::NotInFlight)));
    assert!(ai.memories().0.is_empty());
    assert!(!ai.in_flight());
}

#[test]
fn ai_receive_gives_the_reaction_and_replaces_the_memory() {
    let mut ai = Ai::new("localhost", 8543, "{{memories}}".to_string());
    ai.send("alice: hello kiki").unwrap();
    let reaction = ai
        .receive(Reply::Parsed(response("(='.'=)", "\u{1F63A}", &["alice said hello"], 12)))
        .unwrap();
    assert_eq!(reaction.displayable, "(='.'=) \u{1F63A}");
    assert_eq!(reaction.rating, 12);
    assert_eq!(reaction.updated_memory.0, vec!["alice said hello".to_string()]);
    assert_eq!(ai.memories().0, vec!["alice said hello".to_string()]);
    assert!(!ai.in_flight());

    ai.send("bob: bye").unwrap();
    ai.receive(Reply::Parsed(response("k", "e", &[], 0))).unwrap();
    assert!(ai.memories().0.is_empty());
}

#[test]
fn ai_rating_is_clamped_whatever_the_model_sends() {
    for (raw, expected) in [(9999, 50), (51, 50), (50, 50), (0, 0), (-500, -500), (-501, -500), (i64::MIN, -500), (i64::MAX, 50)] {
        let mut ai = Ai::new("localhost", 8543, "{{memories}}".to_string());
        ai.send("m").unwrap();
        let reaction = ai.receive(Reply::Parsed(response("k", "e", &[], raw))).unwrap();
        assert_eq!(reaction.rating, expected);
    }
}

#[test]
fn ai_memory_never_exceeds_the_bound() {
    for size in 0..30usize {
        let all: Vec<String> = (0..size).map(|i| format!("m{}", i)).collect();
        let mut ai = Ai::new("localhost", 8543, "{{memories}}".to_string());
        ai.send("m").unwrap();
        let reaction = ai
            .receive(Reply::Parsed(AiResponse {
                kamoji: "k".to_string(),
                emoji: "e".to_string(),
                memories: Memories(all.clone()),
                rating: 0,
            }))
            .unwrap();
        let kept = size.min(5);
        assert!(ai.memories().0.len() <= 5);
        assert_eq!(ai.memories().0, all[size - kept..].to_vec());
        assert_eq!(reaction.updated_memory.0, all[size - kept..].to_vec());
    }
}

#[test]
fn ai_unreachable_backend_leaves_the_memory_unchanged() {
    let mut ai = Ai::new("localhost", 8543, "{{memories}}".to_string());
    ai.send("first").unwrap();
    ai.receive(Reply::Parsed(response("k", "e", &["kept"], 0))).unwrap();

    ai.send("alice: hello kiki").unwrap();
    let answer = Ai::answer(Err(unreachable_backend()));
    let failed = match answer {
        Err(e) => ai.receive(Reply::Failed(e)),
        Ok(_) => panic!("an unreachable backend gives no answer"),
    };
    match failed {
        Err(AiError::CompletionError(e)) => assert_eq!(e.message, "connection refused"),
        other => panic!("{:?}", other),
    }
    assert_eq!(ai.memories().0, vec!["kept".to_string()]);
    assert!(!ai.in_flight());

    let next = ai.send("bob: still there?").unwrap();
    assert_eq!(next.messages[0].content, "[\"kept\"]");
}

#[test]
fn ai_malformed_answer_is_a_failure_of_its_own() {
    let mut ai = Ai::new("localhost", 8543, "{{memories}}".to_string());
    ai.remember(memories(&["kept"]));
    ai.send("m").unwrap();
    let failed = ai.receive(Reply::Malformed(broken_json()));
    assert!(matches!(failed, Err(AiError::DeserialisationError(_))));
    assert_eq!(ai.memories().0, vec!["kept".to_string()]);
    assert!(!ai.in_flight());
}

#[test]
fn ai_timeout_is_a_failed_turn() {
    let mut ai = Ai::new("localhost", 8543, "{{memories}}".to_string());
    ai.send("m").unwrap();
    assert!(matches!(ai.receive(Reply::Failed(AiError::TimedOut)), Err(AiError::TimedOut)));
    assert!(!ai.in_flight());
}

#[test]
fn ai_abandon_frees_the_turn() {
    let mut ai = Ai::new("localhost", 8543, "{{memories}}".to_string());
    ai.remember(memories(&["kept"]));
    ai.send("m").unwrap();
    ai.abandon();
    assert!(!ai.in_flight());
    assert_eq!(ai.memories().0, vec!["kept".to_string()]);
    assert!(ai.send("again").is_ok());
    ai.abandon();
    ai.abandon();
    assert!(!ai.in_flight());
}

#[test]
fn ai_remember_cuts_to_the_bound() {
    let mut ai = Ai::new("localhost", 8543, "{{memories}}".to_string());
    ai.remember(memories(&["1", "2", "3", "4", "5", "6", "7"]));
    assert_eq!(
        ai.memories().0,
        vec!["3".to_string(), "4".to_string(), "5".to_string(), "6".to_string(), "7".to_string()]
    );
}

#[test]
fn ai_answer_is_what_follows_the_thinking() {
    let text = Ai::answer(Ok(vec![Some(
        "  <think>the user greets me</think>\n{\"kamoji\":\"(^_^)\"}\n ".to_string(),
    )]))
    .unwrap();
    assert_eq!(text, "\n{\"kamoji\":\"(^_^)\"}");
    let text = Ai::answer(Ok(vec![Some("  plain answer ".to_string())])).unwrap();
    assert_eq!(text, "plain answer");
    let text = Ai::answer(Ok(vec![Some("a</think>b</think> c".to_string())])).unwrap();
    assert_eq!(text, " c");
    let text = Ai::answer(Ok(vec![Some(String::new())])).unwrap();
    assert_eq!(text, "");
}

#[test]
fn ai_answer_reads_the_first_message_only() {
    let text = Ai::answer(Ok(vec![Some("first".to_string()), Some("second".to_string())])).unwrap();
    assert_eq!(text, "first");
    let none = Ai::answer(Ok(vec![None, Some("second".to_string())]));
    assert!(matches!(none, Err(AiError::NoMessage)));
}

#[test]
fn ai_answer_without_a_message_is_no_message() {
    assert!(matches!(Ai::answer(Ok(Vec::new())), Err(AiError::NoMessage)));
    assert!(matches!(Ai::answer(Ok(vec![None])), Err(AiError::NoMessage)));
}

#[test]
fn ai_answer_reports_a_failed_call() {
    match Ai::answer(Err(unreachable_backend())) {
        Err(AiError::CompletionError(e)) => assert_eq!(e, unreachable_backend()),
        other => panic!("{:?}", other),
    }
}
