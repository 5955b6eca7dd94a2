use mod_mail::candidates::Candidate;
use mod_mail::config::Config;
use mod_mail::machine::{Decision, CLARIFICATION, GREETING};
use mod_mail::session::{InboundMessage, Session, SessionStore, Stage};

const BOT: u64 = 999;

fn message(author: u64, ts: i64, text: &str) -> InboundMessage {
    InboundMessage {
        author_id: author,
        timestamp: ts,
        content: String::from(text),
        attachments: Vec::new(),
    }
}

fn candidate(name: &str, id: i64, role: &str) -> Candidate {
    Candidate {
        name: String::from(name),
        config: Config {
            server_id: id,
            moderator_role: Some(String::from(role)),
            category: None,
        },
    }
}

#[test]
fn no_shared_moderated_servers_stay_silent() {
    let mut s = Session::new(0);
    let d = s.process(message(1, 10, "help"), 10, true, BOT, Some(Vec::new()));
    assert!(matches!(d, Decision::Ignore));
    assert!(matches!(s.stage, Stage::Default));
    assert_eq!(s.last_activity, 10);
}

#[test]
fn single_shared_server_relays_immediately() {
    let mut s = Session::new(0);
    let cands = vec![candidate("Alpha", 42, "Mods")];
    let d = s.process(message(1, 10, "help me"), 10, true, BOT, Some(cands));
    match d {
        Decision::StartRelay { request } => {
            assert_eq!(request.guild_name, "Alpha");
            assert_eq!(request.config.server_id, 42);
            assert_eq!(request.message.content, "help me");
        }
        other => panic!("expected an immediate relay, got {:?}", other),
    }
    assert!(matches!(s.stage, Stage::Default));
}

#[test]
fn multiple_shared_servers_ask_for_choice() {
    let mut s = Session::new(0);
    let cands = vec![candidate("Alpha", 1, "Mods"), candidate("Beta", 2, "Mods")];
    let d = s.process(message(1, 10, "pick one"), 10, true, BOT, Some(cands));
    match d {
        Decision::Reply { messages, next } => {
            assert_eq!(messages.len(), 2);
            assert_eq!(messages[0], GREETING);
            assert_eq!(
                messages[1],
                ":thinking: **Choose a server**\n\nYou're in 2 servers with me, so I'm not sure which one you want to contact.\n\nPlease **send the name of the server as I've listed below** to let me know which one you want to contact.\n\nAlpha\nBeta"
            );
            match next {
                Some(Stage::ChoosingGuild { original, candidates }) => {
                    assert_eq!(original.content, "pick one");
                    assert_eq!(candidates.len(), 2);
                    assert_eq!(candidates[0].name, "Alpha");
                    assert_eq!(candidates[1].name, "Beta");
                }
                other => panic!("expected a choosing stage, got {:?}", other),
            }
        }
        other => panic!("expected the greeting and the list, got {:?}", other),
    }
}

fn choosing_session() -> Session {
    Session {
        last_activity: 100,
        stage: Stage::ChoosingGuild {
            original: message(1, 100, "original text"),
            candidates: vec![candidate("Alpha", 1, "Mods"), candidate("Beta", 2, "Mods")],
        },
    }
}

#[test]
fn exact_name_guess_relays_original_message() {
    let mut s = choosing_session();
    let d = s.process(message(1, 160, "ALPHA"), 160, true, BOT, None);
    match d {
        Decision::StartRelay { request } => {
            assert_eq!(request.guild_name, "Alpha");
            assert_eq!(request.message.content, "original text");
        }
        other => panic!("expected a relay to Alpha, got {:?}", other),
    }
    assert!(matches!(s.stage, Stage::ChoosingGuild { .. }));
}

#[test]
fn close_guess_selects_best_candidate() {
    // "alpa" vs "alpha": one edit over five characters, similarity 0.8
    let mut s = choosing_session();
    let d = s.process(message(1, 160, "alpa"), 160, true, BOT, None);
    match d {
        Decision::StartRelay { request } => assert_eq!(request.guild_name, "Alpha"),
        other => panic!("expected a relay to Alpha, got {:?}", other),
    }
}

#[test]
fn poor_guess_asks_for_clarification() {
    let mut s = choosing_session();
    let d = s.process(message(1, 160, "zzzzzz"), 160, true, BOT, None);
    match d {
        Decision::Reply { messages, next } => {
            assert_eq!(messages.len(), 1);
            assert_eq!(messages[0], CLARIFICATION);
            assert!(next.is_none());
        }
        other => panic!("expected the clarification request, got {:?}", other),
    }
    match &s.stage {
        Stage::ChoosingGuild { original, candidates } => {
            assert_eq!(original.content, "original text");
            assert_eq!(candidates.len(), 2);
        }
        other => panic!("stage should be unchanged, got {:?}", other),
    }
}

#[test]
fn idle_gap_resets_stage() {
    // 1801 seconds of silence: the choosing flow is forgotten and the
    // message is handled as if the stage were the default one.
    let mut s = choosing_session();
    let now = 100 + 1801;
    let msg = message(1, now, "hello again");
    assert!(s.needs_candidates(&msg, now, true, BOT));
    let d = s.process(msg, now, true, BOT, Some(Vec::new()));
    assert!(matches!(d, Decision::Ignore));
    assert!(matches!(s.stage, Stage::Default));
}

#[test]
fn gap_within_timeout_keeps_stage() {
    let mut s = choosing_session();
    let now = 100 + 1800;  // exactly the timeout is not over it
    let msg = message(1, now, "alpha");
    assert!(!s.needs_candidates(&msg, now, true, BOT));
    let d = s.process(msg, now, true, BOT, None);
    assert!(matches!(d, Decision::StartRelay { .. }));
}

#[test]
fn cooldown_active_sends_wait_notice() {
    let mut s = Session {
        last_activity: 1000,
        stage: Stage::Cooldown { until: 1125 },
    };
    let msg = message(1, 1000, "again");
    assert!(!s.needs_candidates(&msg, 1000, true, BOT));
    let d = s.process(msg, 1000, true, BOT, None);
    match d {
        Decision::Reply { messages, next } => {
            assert_eq!(messages.len(), 1);
            assert_eq!(
                messages[0],
                "You must wait until 2 minutes and 5 seconds to use Mod Mail again."
            );
            assert!(next.is_none());
        }
        other => panic!("expected the wait notice, got {:?}", other),
    }
    assert!(matches!(s.stage, Stage::Cooldown { until: 1125 }));
}

#[test]
fn cooldown_expired_falls_through_to_default() {
    let mut s = Session {
        last_activity: 1000,
        stage: Stage::Cooldown { until: 1100 },
    };
    let msg = message(1, 1100, "again");
    assert!(s.needs_candidates(&msg, 1100, true, BOT));
    let d = s.process(msg, 1100, true, BOT, Some(vec![candidate("Alpha", 1, "Mods")]));
    assert!(matches!(d, Decision::StartRelay { .. }));
}

#[test]
fn non_private_message_is_a_no_op() {
    let mut s = choosing_session();
    let msg = message(1, 160, "alpha");
    assert!(!s.needs_candidates(&msg, 160, false, BOT));
    let d = s.process(msg, 160, false, BOT, None);
    assert!(matches!(d, Decision::NoOp));
    assert_eq!(s.last_activity, 100);
    assert!(matches!(s.stage, Stage::ChoosingGuild { .. }));
}

#[test]
fn bot_own_message_is_a_no_op() {
    let mut s = Session::new(0);
    let msg = message(BOT, 10, "self talk");
    assert!(!s.needs_candidates(&msg, 10, true, BOT));
    let d = s.process(msg, 10, true, BOT, None);
    assert!(matches!(d, Decision::NoOp));
    assert_eq!(s.last_activity, 0);
}

#[test]
fn complete_relay_starts_ten_minute_cooldown() {
    let mut s = Session::new(0);
    s.complete_relay(5000);
    match s.stage {
        Stage::Cooldown { until } => assert_eq!(until, 5600),
        other => panic!("expected a cooldown, got {:?}", other),
    }
}

#[test]
fn store_creates_session_lazily() {
    let mut store = SessionStore::new();
    let s = store.take_or_create(7, 42);
    assert_eq!(s.last_activity, 42);
    assert!(matches!(s.stage, Stage::Default));
    let mut s = s;
    s.complete_relay(100);
    store.put(7, s);
    let again = store.take_or_create(7, 500);
    assert_eq!(again.last_activity, 42);
    assert!(matches!(again.stage, Stage::Cooldown { until: 700 }));
    let other = store.take_or_create(8, 9);
    assert_eq!(other.last_activity, 9);
}
