use chat_relay::welcome_text;
use chat_relay::Action;
use chat_relay::Event;
use chat_relay::Message;
use chat_relay::Session;
use chat_relay::SessionState;

fn active_session(origin: &str) -> Session {
    let (mut session, _welcome) = Session::start(origin.to_string(), 0);
    let action = session.step(Event::SendOk);
    assert!(matches!(action, Action::Wait));
    assert_eq!(session.state, SessionState::Active);
    session
}

#[test]
fn welcome_text_value() {
    assert_eq!(welcome_text(), "Welcome to chat! Type a message");
}

#[test]
fn start_sends_welcome_then_activates() {
    let (mut session, welcome) = Session::start("127.0.0.1:4000".to_string(), 3);
    assert_eq!(session.state, SessionState::Welcoming);
    assert_eq!(session.origin, "127.0.0.1:4000");
    assert_eq!(session.subscription, 3);
    assert_eq!(welcome, "Welcome to chat! Type a message");

    let action = session.step(Event::SendOk);
    assert!(matches!(action, Action::Wait));
    assert_eq!(session.state, SessionState::Active);
}

#[test]
fn welcome_failure_is_terminal() {
    let (mut session, _welcome) = Session::start("a".to_string(), 0);
    let action = session.step(Event::SendFailed);
    assert!(matches!(action, Action::Cleanup));
    assert_eq!(session.state, SessionState::Closing);

    let action = session.step(Event::CleanupDone);
    assert!(matches!(action, Action::Wait));
    assert_eq!(session.state, SessionState::Closed);
}

#[test]
fn inbound_text_is_published_with_identity() {
    let mut session = active_session("127.0.0.1:5000");
    let action = session.step(Event::InboundText("hello".to_string()));
    match action {
        Action::Publish(m) => {
            assert_eq!(m.origin, "127.0.0.1:5000");
            assert_eq!(m.text, "hello");
        }
        _ => panic!("inbound text must be published"),
    }
    assert_eq!(session.state, SessionState::Active);
}

#[test]
fn inbound_binary_is_ignored() {
    let mut session = active_session("a");
    let action = session.step(Event::InboundBinary);
    assert!(matches!(action, Action::Wait));
    assert_eq!(session.state, SessionState::Active);
}

#[test]
fn delivered_message_is_rendered_for_the_client() {
    let mut session = active_session("b");
    let action = session.step(Event::Delivered(Message::new(
        "127.0.0.1:5000".to_string(),
        "hello".to_string(),
    )));
    match action {
        Action::SendText(line) => assert_eq!(line, "127.0.0.1:5000 : hello"),
        _ => panic!("a delivered message must be sent to the client"),
    }
    assert_eq!(session.state, SessionState::Active);
}

#[test]
fn render_prefixes_origin() {
    let m = Message::new("127.0.0.1:8080".to_string(), "hello".to_string());
    assert_eq!(m.render(), "127.0.0.1:8080 : hello");
}

#[test]
fn transport_close_ends_only_this_session() {
    let mut session = active_session("a");
    let action = session.step(Event::TransportClosed);
    assert!(matches!(action, Action::Cleanup));
    assert_eq!(session.state, SessionState::Closing);
    let action = session.step(Event::CleanupDone);
    assert!(matches!(action, Action::Wait));
    assert_eq!(session.state, SessionState::Closed);
}

#[test]
fn relay_send_failure_is_terminal() {
    let mut session = active_session("a");
    let action = session.step(Event::SendFailed);
    assert!(matches!(action, Action::Cleanup));
    assert_eq!(session.state, SessionState::Closing);
}

#[test]
fn hub_loss_is_terminal() {
    let mut session = active_session("a");
    let action = session.step(Event::HubGone);
    assert!(matches!(action, Action::Cleanup));
    assert_eq!(session.state, SessionState::Closing);
}

#[test]
fn closed_state_absorbs_events() {
    let mut session = active_session("a");
    session.step(Event::TransportClosed);
    session.step(Event::CleanupDone);
    assert_eq!(session.state, SessionState::Closed);

    let action = session.step(Event::InboundText("late".to_string()));
    assert!(matches!(action, Action::Wait));
    let action = session.step(Event::Delivered(Message::new("a".to_string(), "x".to_string())));
    assert!(matches!(action, Action::Wait));
    let action = session.step(Event::SendFailed);
    assert!(matches!(action, Action::Wait));
    assert_eq!(session.state, SessionState::Closed);
}
