use chat_relay::Hub;
use chat_relay::Message;

fn msg(origin: &str, text: &str) -> Message {
    Message::new(origin.to_string(), text.to_string())
}

#[test]
fn fanout_two_subscribers() {
    let mut hub = Hub::new(16);
    let a = hub.subscribe();
    let b = hub.subscribe();

    hub.publish(msg("alice", "hello"));

    let got_a = hub.pop_next(a).expect("a receives the message");
    assert_eq!(got_a.origin, "alice");
    assert_eq!(got_a.text, "hello");
    let got_b = hub.pop_next(b).expect("b receives the message");
    assert_eq!(got_b.origin, "alice");
    assert_eq!(got_b.text, "hello");

    assert!(hub.pop_next(a).is_none());
    assert!(hub.pop_next(b).is_none());
}

#[test]
fn publish_without_subscribers_has_no_effect() {
    let mut hub = Hub::new(16);
    hub.publish(msg("alice", "shouted into the void"));

    let late = hub.subscribe();
    assert!(hub.pop_next(late).is_none(), "no queuing for future subscribers");
}

#[test]
fn self_echo_is_delivered() {
    let mut hub = Hub::new(16);
    let me = hub.subscribe();

    hub.publish(msg("me", "my own words"));

    let echoed = hub.pop_next(me).expect("publisher receives its own message");
    assert_eq!(echoed.origin, "me");
    assert_eq!(echoed.text, "my own words");
}

#[test]
fn bounded_lag_keeps_most_recent_capacity() {
    let capacity: usize = 16;
    let mut hub = Hub::new(capacity);
    let lagger = hub.subscribe();

    for k in 0..capacity + 1 {
        hub.publish(msg("alice", &format!("m{}", k)));
    }

    for k in 1..capacity + 1 {
        let got = hub.pop_next(lagger).expect("one buffered message per slot");
        assert_eq!(got.text, format!("m{}", k), "oldest message was dropped first");
    }
    assert!(hub.pop_next(lagger).is_none(), "exactly capacity messages were kept");
}

#[test]
fn bounded_lag_capacity_one() {
    let mut hub = Hub::new(1);
    let lagger = hub.subscribe();

    hub.publish(msg("a", "first"));
    hub.publish(msg("a", "second"));

    let got = hub.pop_next(lagger).expect("the newest message is kept");
    assert_eq!(got.text, "second");
    assert!(hub.pop_next(lagger).is_none());
}

#[test]
fn isolation_of_other_sessions() {
    let mut hub = Hub::new(16);
    let closing = hub.subscribe();
    let survivor = hub.subscribe();

    hub.publish(msg("alice", "before"));
    hub.unsubscribe(closing);

    assert!(!hub.is_live(closing));
    assert!(hub.is_live(survivor));

    hub.publish(msg("alice", "after"));

    let first = hub.pop_next(survivor).expect("delivery from before the close");
    assert_eq!(first.text, "before");
    let second = hub.pop_next(survivor).expect("delivery after the close");
    assert_eq!(second.text, "after");
    assert!(hub.pop_next(closing).is_none(), "the closed subscription gets nothing");
}

#[test]
fn unsubscribe_is_idempotent() {
    let mut hub = Hub::new(16);
    let leaving = hub.subscribe();
    let staying = hub.subscribe();

    hub.unsubscribe(leaving);
    hub.unsubscribe(leaving);

    assert!(!hub.is_live(leaving));
    assert!(hub.is_live(staying));

    hub.publish(msg("alice", "still flowing"));
    let got = hub.pop_next(staying).expect("the other subscription still works");
    assert_eq!(got.text, "still flowing");
    assert!(hub.pop_next(leaving).is_none());
}

#[test]
fn unsubscribe_unknown_id_is_a_no_op() {
    let mut hub = Hub::new(16);
    let only = hub.subscribe();

    hub.unsubscribe(17);

    assert!(hub.is_live(only));
    hub.publish(msg("alice", "hi"));
    assert_eq!(hub.pop_next(only).expect("still delivered").text, "hi");
}

#[test]
fn capacity_is_kept() {
    let hub = Hub::new(16);
    assert_eq!(hub.capacity(), 16);
}
