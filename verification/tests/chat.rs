use webchat::chat::{send_outcome, ChangeSignal, Chat, Effect, Msg, UserProfile};
use webchat::codec::{decode, decode_payload, ChatMessage, ProtocolEvent};
use webchat::error::ChatError;

fn names(list: &[&str]) -> Vec<String> {
    list.iter().map(|s| s.to_string()).collect()
}

fn line(from: &str, text: &str) -> ChatMessage {
    ChatMessage { from: from.to_string(), text: text.to_string() }
}

fn profile(name: &str) -> UserProfile {
    UserProfile {
        name: name.to_string(),
        avatar_url: format!("https://robohash.org/{}?set=set4&size=200x200", name),
    }
}

fn payload(from: &str, text: &str) -> String {
    format!(r#"{{"from":"{}","message":"{}"}}"#, from, text)
}

fn roster_names(chat: &Chat) -> Vec<String> {
    chat.users().iter().map(|u| u.name.clone()).collect()
}

#[test]
fn create_starts_empty_and_registers() {
    let (chat, frame) = Chat::create("alice");
    assert_eq!(frame, r#"{"messageType":"register","data":"alice"}"#);
    assert_eq!(chat.username(), "alice");
    assert!(chat.users().is_empty());
    assert!(chat.messages().is_empty());
    assert!(!chat.dark_mode());
    assert_eq!(decode(&frame), Ok(ProtocolEvent::Register("alice".to_string())));
}

#[test]
fn users_event_replaces_the_roster() {
    let (mut chat, _) = Chat::create("alice");
    assert_eq!(
        chat.apply_inbound(ProtocolEvent::Users(names(&["a", "b"]))),
        Ok(ChangeSignal::RosterChanged)
    );
    assert_eq!(roster_names(&chat), names(&["a", "b"]));
    assert_eq!(
        chat.apply_inbound(ProtocolEvent::Users(names(&["c"]))),
        Ok(ChangeSignal::RosterChanged)
    );
    assert_eq!(chat.users(), &vec![profile("c")]);
    assert_eq!(
        chat.apply_inbound(ProtocolEvent::Users(Vec::new())),
        Ok(ChangeSignal::RosterChanged)
    );
    assert!(chat.users().is_empty());
}

#[test]
fn users_event_keeps_the_servers_order() {
    let (mut chat, _) = Chat::create("alice");
    chat.apply_inbound(ProtocolEvent::Users(names(&["z", "a", "m"]))).unwrap();
    assert_eq!(chat.users(), &vec![profile("z"), profile("a"), profile("m")]);
}

#[test]
fn users_event_keeps_what_the_server_sent_twice() {
    let (mut chat, _) = Chat::create("alice");
    chat.apply_inbound(ProtocolEvent::Users(names(&["a", "a"]))).unwrap();
    assert_eq!(chat.users(), &vec![profile("a"), profile("a")]);
}

#[test]
fn users_event_leaves_the_log_alone() {
    let (mut chat, _) = Chat::create("alice");
    chat.apply_inbound(ProtocolEvent::Message(payload("bob", "hi"))).unwrap();
    chat.apply_inbound(ProtocolEvent::Users(names(&["bob"]))).unwrap();
    assert_eq!(chat.messages(), &vec![line("bob", "hi")]);
}

#[test]
fn every_profile_has_the_avatar_of_its_name() {
    let (mut chat, _) = Chat::create("alice");
    chat.apply_users(&names(&["alice", "bob", "", "a b"]));
    assert_eq!(chat.users().len(), 4);
    assert_eq!(chat.users()[0].avatar_url, "https://robohash.org/alice?set=set4&size=200x200");
    assert_eq!(chat.users()[1].avatar_url, "https://robohash.org/bob?set=set4&size=200x200");
    assert_eq!(chat.users()[2].avatar_url, "https://robohash.org/?set=set4&size=200x200");
    assert_eq!(chat.users()[3].avatar_url, "https://robohash.org/a b?set=set4&size=200x200");
}

#[test]
fn message_events_append_in_arrival_order() {
    let (mut chat, _) = Chat::create("alice");
    assert_eq!(
        chat.apply_inbound(ProtocolEvent::Message(payload("bob", "one"))),
        Ok(ChangeSignal::LogChanged)
    );
    assert_eq!(
        chat.apply_inbound(ProtocolEvent::Message(payload("carol", "two"))),
        Ok(ChangeSignal::LogChanged)
    );
    assert_eq!(chat.messages(), &vec![line("bob", "one"), line("carol", "two")]);
    assert!(chat.users().is_empty());
}

#[test]
fn malformed_payload_between_two_lines_leaves_no_trace() {
    let (mut chat, _) = Chat::create("alice");
    chat.apply_inbound(ProtocolEvent::Message(payload("bob", "one"))).unwrap();
    assert_eq!(
        chat.apply_inbound(ProtocolEvent::Message("{\"from\":\"bob\"".to_string())),
        Err(ChatError::MalformedPayload)
    );
    assert_eq!(chat.messages(), &vec![line("bob", "one")]);
    assert_eq!(
        chat.apply_inbound(ProtocolEvent::Message(r#"{"from":"bob"}"#.to_string())),
        Err(ChatError::MalformedPayload)
    );
    chat.apply_inbound(ProtocolEvent::Message(payload("carol", "two"))).unwrap();
    assert_eq!(chat.messages(), &vec![line("bob", "one"), line("carol", "two")]);
}

#[test]
fn equal_lines_are_kept_each() {
    let (mut chat, _) = Chat::create("alice");
    chat.apply_inbound(ProtocolEvent::Message(payload("bob", "hi"))).unwrap();
    chat.apply_inbound(ProtocolEvent::Message(payload("bob", "hi"))).unwrap();
    assert_eq!(chat.messages(), &vec![line("bob", "hi"), line("bob", "hi")]);
}

#[test]
fn apply_message_appends() {
    let (mut chat, _) = Chat::create("alice");
    chat.apply_message(line("bob", "one"));
    chat.apply_message(line("alice", "two"));
    assert_eq!(chat.messages(), &vec![line("bob", "one"), line("alice", "two")]);
}

#[test]
fn register_event_is_ignored() {
    let (mut chat, _) = Chat::create("alice");
    chat.apply_inbound(ProtocolEvent::Users(names(&["alice"]))).unwrap();
    chat.apply_inbound(ProtocolEvent::Message(payload("bob", "hi"))).unwrap();
    assert_eq!(
        chat.apply_inbound(ProtocolEvent::Register("mallory".to_string())),
        Ok(ChangeSignal::Unchanged)
    );
    assert_eq!(chat.username(), "alice");
    assert_eq!(chat.users(), &vec![profile("alice")]);
    assert_eq!(chat.messages(), &vec![line("bob", "hi")]);
}

#[test]
fn submit_message_makes_one_frame_and_no_local_echo() {
    let (mut chat, _) = Chat::create("alice");
    let frame = chat.submit_message("hi").unwrap();
    assert_eq!(
        frame,
        r#"{"messageType":"message","data":"{\"from\":\"alice\",\"message\":\"hi\"}"}"#
    );
    assert!(chat.messages().is_empty());
    assert!(chat.users().is_empty());
    let effect = chat.update(Msg::HandleMsg(frame));
    assert_eq!(effect, Effect { render: true, outbound: None, dropped: None });
    assert_eq!(chat.messages(), &vec![line("alice", "hi")]);
}

#[test]
fn submit_message_sends_the_text_as_typed() {
    let (chat, _) = Chat::create("al\"ice");
    let frame = chat.submit_message("  two  words\n").unwrap();
    match decode(&frame) {
        Ok(ProtocolEvent::Message(payload)) => {
            assert_eq!(decode_payload(&payload), Ok(line("al\"ice", "  two  words\n")))
        }
        other => panic!("{:?}", other),
    }
}

#[test]
fn submit_message_guards_against_blank_input() {
    let (mut chat, _) = Chat::create("alice");
    chat.apply_inbound(ProtocolEvent::Users(names(&["alice"]))).unwrap();
    for text in ["", "   ", "\t\n", "\u{a0}\u{2003}"] {
        assert_eq!(chat.submit_message(text), None, "{:?}", text);
        let effect = chat.update(Msg::SubmitMessage(text.to_string()));
        assert_eq!(effect, Effect { render: false, outbound: None, dropped: None });
    }
    assert!(chat.messages().is_empty());
    assert_eq!(chat.users(), &vec![profile("alice")]);
}

#[test]
fn update_submit_hands_back_the_frame() {
    let (mut chat, _) = Chat::create("alice");
    let effect = chat.update(Msg::SubmitMessage("hi".to_string()));
    assert_eq!(
        effect,
        Effect {
            render: false,
            outbound: Some(
                r#"{"messageType":"message","data":"{\"from\":\"alice\",\"message\":\"hi\"}"}"#
                    .to_string()
            ),
            dropped: None,
        }
    );
    assert!(chat.messages().is_empty());
}

#[test]
fn update_handles_inbound_frames() {
    let (mut chat, _) = Chat::create("alice");
    let effect = chat.update(Msg::HandleMsg(
        r#"{"messageType":"users","dataArray":["alice","bob"]}"#.to_string(),
    ));
    assert_eq!(effect, Effect { render: true, outbound: None, dropped: None });
    assert_eq!(roster_names(&chat), names(&["alice", "bob"]));
    let effect =
        chat.update(Msg::HandleMsg(r#"{"messageType":"register","data":"bob"}"#.to_string()));
    assert_eq!(effect, Effect { render: false, outbound: None, dropped: None });
    assert_eq!(roster_names(&chat), names(&["alice", "bob"]));
}

#[test]
fn update_drops_a_frame_of_unknown_kind() {
    let (mut chat, _) = Chat::create("alice");
    chat.apply_inbound(ProtocolEvent::Users(names(&["alice"]))).unwrap();
    chat.apply_message(line("bob", "hi"));
    let effect = chat.update(Msg::HandleMsg(r#"{"messageType":"ping"}"#.to_string()));
    assert_eq!(
        effect,
        Effect { render: false, outbound: None, dropped: Some(ChatError::UnknownMessageType) }
    );
    assert_eq!(chat.users(), &vec![profile("alice")]);
    assert_eq!(chat.messages(), &vec![line("bob", "hi")]);
}

#[test]
fn update_drops_a_malformed_frame_and_goes_on() {
    let (mut chat, _) = Chat::create("alice");
    let effect = chat.update(Msg::HandleMsg("not a frame".to_string()));
    assert_eq!(
        effect,
        Effect { render: false, outbound: None, dropped: Some(ChatError::MalformedFrame) }
    );
    let effect =
        chat.update(Msg::HandleMsg(r#"{"messageType":"message","data":"oops"}"#.to_string()));
    assert_eq!(
        effect,
        Effect { render: false, outbound: None, dropped: Some(ChatError::MalformedPayload) }
    );
    assert!(chat.messages().is_empty());
    let effect = chat.update(Msg::HandleMsg(
        r#"{"messageType":"message","data":"{\"from\":\"bob\",\"message\":\"hi\"}"}"#.to_string(),
    ));
    assert_eq!(effect, Effect { render: true, outbound: None, dropped: None });
    assert_eq!(chat.messages(), &vec![line("bob", "hi")]);
}

#[test]
fn update_toggles_the_theme() {
    let (mut chat, _) = Chat::create("alice");
    chat.apply_users(&names(&["alice"]));
    let effect = chat.update(Msg::ToggleDarkMode);
    assert_eq!(effect, Effect { render: true, outbound: None, dropped: None });
    assert!(chat.dark_mode());
    assert_eq!(chat.users(), &vec![profile("alice")]);
    chat.update(Msg::ToggleDarkMode);
    assert!(!chat.dark_mode());
}

#[test]
fn send_outcome_reports_a_rejected_frame() {
    assert_eq!(send_outcome(true), Ok(()));
    assert_eq!(send_outcome(false), Err(ChatError::SendFailure));
}

#[test]
fn session_from_start_to_first_line() {
    let (mut chat, outbound) = Chat::create("alice");
    assert_eq!(outbound, r#"{"messageType":"register","data":"alice"}"#);

    let effect = chat.update(Msg::HandleMsg(
        r#"{"messageType":"users","dataArray":["alice","bob"]}"#.to_string(),
    ));
    assert!(effect.render);
    assert_eq!(chat.users(), &vec![profile("alice"), profile("bob")]);
    assert!(chat.messages().is_empty());

    let effect = chat.update(Msg::HandleMsg(
        r#"{"messageType":"message","data":"{\"from\":\"bob\",\"message\":\"hi\"}"}"#.to_string(),
    ));
    assert!(effect.render);
    assert_eq!(chat.messages(), &vec![line("bob", "hi")]);
    assert_eq!(chat.users(), &vec![profile("alice"), profile("bob")]);
}

#[test]
fn is_own_compares_with_the_session_name() {
    let (chat, _) = Chat::create("alice");
    assert!(chat.is_own("alice"));
    assert!(!chat.is_own("Alice"));
    assert!(!chat.is_own("alice "));
    assert!(!chat.is_own(""));
}

#[test]
fn avatar_for_finds_who_is_online() {
    let (mut chat, _) = Chat::create("alice");
    assert_eq!(chat.avatar_for("bob"), None);
    chat.apply_users(&names(&["alice", "bob", "bob"]));
    assert_eq!(chat.avatar_for("bob"), Some("https://robohash.org/bob?set=set4&size=200x200"));
    assert_eq!(chat.avatar_for("alice"), Some("https://robohash.org/alice?set=set4&size=200x200"));
    assert_eq!(chat.avatar_for("carol"), None);
    assert_eq!(chat.avatar_for(""), None);
    chat.apply_users(&names(&["carol"]));
    assert_eq!(chat.avatar_for("bob"), None);
}

#[test]
fn a_run_of_events_leaves_the_latest_roster_and_every_line() {
    let (mut chat, _) = Chat::create("alice");
    let events = vec![
        ProtocolEvent::Message(payload("bob", "one")),
        ProtocolEvent::Users(names(&["alice", "bob"])),
        ProtocolEvent::Register("carol".to_string()),
        ProtocolEvent::Message("garbage".to_string()),
        ProtocolEvent::Message(payload("alice", "two")),
        ProtocolEvent::Users(names(&["bob", "carol", "alice"])),
        ProtocolEvent::Message(payload("carol", "three")),
    ];
    let mut signals = Vec::new();
    for event in events {
        signals.push(chat.apply_inbound(event));
    }
    assert_eq!(
        signals,
        vec![
            Ok(ChangeSignal::LogChanged),
            Ok(ChangeSignal::RosterChanged),
            Ok(ChangeSignal::Unchanged),
            Err(ChatError::MalformedPayload),
            Ok(ChangeSignal::LogChanged),
            Ok(ChangeSignal::RosterChanged),
            Ok(ChangeSignal::LogChanged),
        ]
    );
    assert_eq!(chat.users(), &vec![profile("bob"), profile("carol"), profile("alice")]);
    assert_eq!(
        chat.messages(),
        &vec![line("bob", "one"), line("alice", "two"), line("carol", "three")]
    );
    assert_eq!(chat.username(), "alice");
    assert!(!chat.dark_mode());
}
