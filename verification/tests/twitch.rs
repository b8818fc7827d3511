use kikimaki::bus::{LoopStep, Received};
use kikimaki::twitch::{ServerLine, TwitchIRCSpawner};

#[test]
fn twitch_publishes_a_chat_message_under_its_sender() {
    let line = ServerLine::Privmsg { sender: "alice".to_string(), text: "hello kiki".to_string() };
    match TwitchIRCSpawner::ingest(false, Some(Received::Message(line))) {
        LoopStep::Handle(message) => {
            assert_eq!(message.username, "alice");
            assert_eq!(message.message, "hello kiki");
        }
        other => panic!("{:?}", other),
    }
}

#[test]
fn twitch_passes_over_other_lines() {
    let step = TwitchIRCSpawner::ingest(false, Some(Received::Message(ServerLine::Other)));
    assert!(matches!(step, LoopStep::Continue));
    let step = TwitchIRCSpawner::ingest(false, Some(Received::Lagged(1)));
    assert!(matches!(step, LoopStep::Continue));
    let step = TwitchIRCSpawner::ingest(false, None);
    assert!(matches!(step, LoopStep::Continue));
}

#[test]
fn twitch_stops_on_cancellation() {
    let line = ServerLine::Privmsg { sender: "alice".to_string(), text: "late".to_string() };
    let step = TwitchIRCSpawner::ingest(true, Some(Received::Message(line)));
    assert!(matches!(step, LoopStep::Exit));
    let step = TwitchIRCSpawner::ingest(true, None);
    assert!(matches!(step, LoopStep::Exit));
}

#[test]
fn twitch_stops_when_the_network_is_gone() {
    let step = TwitchIRCSpawner::ingest(false, Some(Received::Closed));
    assert!(matches!(step, LoopStep::Exit));
}
