use vstd::prelude::*;
use crate::message::Message;

verus! {

/// The phases of one connection's lifetime.
///
/// `Welcoming`: the fixed welcome text is in flight to the client.
/// `Active`: the session relays in both directions.
/// `Closing`: the session is releasing its subscription and transport.
/// `Closed`: terminal; all resources are released.
#[derive(Clone, Copy, PartialEq, Eq, Structural, Debug)]
pub enum SessionState {
    Welcoming,
    Active,
    Closing,
    Closed,
}

/// What the surrounding loop observed and hands to the state machine:
/// the outcome of a transport send, the next inbound transport message,
/// the next buffered broadcast message, loss of the hub, or completion
/// of the release step.
pub enum Event {
    /// A transport send (welcome or relayed text) completed.
    SendOk,
    /// A transport send failed; terminal for this session.
    SendFailed,
    /// The client sent a text message.
    InboundText(String),
    /// The client sent a non-text message; it is ignored.
    InboundBinary,
    /// The transport reported closed, or errored on receive.
    TransportClosed,
    /// The session's subscription yielded a buffered broadcast message.
    Delivered(Message),
    /// The subscription reported that the hub is gone.
    HubGone,
    /// The subscription was released and the transport closed.
    CleanupDone,
}

/// What the state machine asks the surrounding loop to do next.
pub enum Action {
    /// Publish this payload to the hub, tagged with this session's identity.
    Publish(Message),
    /// Send this line to the client over the transport.
    SendText(String),
    /// Release the subscription and close the transport, then report back
    /// with [`Event::CleanupDone`].
    Cleanup,
    /// Nothing to do; wait for the next event.
    Wait,
}

/// One connection's coordinator: its identity label, the subscription it
/// owns for its entire lifetime, and its current phase. Transport errors
/// are terminal for this session alone and never propagate to any other.
pub struct Session {
    pub state: SessionState,
    pub origin: String,
    pub subscription: usize,
}

/// The fixed text sent to every client exactly once, at session start.
pub fn welcome_text() -> (s: String)
    ensures
        s@ == "Welcome to chat! Type a message"@,
{
    String::from_str("Welcome to chat! Type a message")
}

impl Session {
    /// Starts a session for the connection labelled `origin` that owns
    /// `subscription`. Returns the session in its initial phase together
    /// with the one welcome line to send; the caller reports the send's
    /// outcome as the first event.
    pub fn start(origin: String, subscription: usize) -> (r: (Session, String))
        ensures
            r.0.state is Welcoming,
            r.0.origin@ == origin@,
            r.0.subscription == subscription,
            r.1@ == "Welcome to chat! Type a message"@,
    {
        let s = Session { state: SessionState::Welcoming, origin, subscription };
        (s, welcome_text())
    }

    /// Advances the state machine by one observed event and says what to do
    /// next. Every transport failure, transport close, or hub loss moves this
    /// session - and only this session - towards `Closed`; inbound text is
    /// published tagged with this session's identity; a delivered broadcast
    /// message is rendered for the client verbatim.
    pub fn step(&mut self, ev: Event) -> (a: Action)
        ensures
            final(self).origin == old(self).origin,
            final(self).subscription == old(self).subscription,
            match ev {
                Event::SendOk => {
                    &&& a is Wait
                    &&& final(self).state == (if old(self).state is Welcoming {
                        SessionState::Active
                    } else {
                        old(self).state
                    })
                },
                Event::SendFailed => {
                    if old(self).state is Welcoming || old(self).state is Active {
                        &&& final(self).state is Closing
                        &&& a is Cleanup
                    } else {
                        &&& final(self).state == old(self).state
                        &&& a is Wait
                    }
                },
                Event::InboundText(t) => {
                    if old(self).state is Active {
                        &&& final(self).state is Active
                        &&& (a matches Action::Publish(m) && m@.origin == old(self).origin@
                            && m@.text == t@)
                    } else {
                        &&& final(self).state == old(self).state
                        &&& a is Wait
                    }
                },
                Event::InboundBinary => {
                    &&& final(self).state == old(self).state
                    &&& a is Wait
                },
                Event::TransportClosed => {
                    if old(self).state is Welcoming || old(self).state is Active {
                        &&& final(self).state is Closing
                        &&& a is Cleanup
                    } else {
                        &&& final(self).state == old(self).state
                        &&& a is Wait
                    }
                },
                Event::Delivered(m) => {
                    if old(self).state is Active {
                        &&& final(self).state is Active
                        &&& (a matches Action::SendText(s) && s@ == m@.origin + " : "@ + m@.text)
                    } else {
                        &&& final(self).state == old(self).state
                        &&& a is Wait
                    }
                },
                Event::HubGone => {
                    if old(self).state is Welcoming || old(self).state is Active {
                        &&& final(self).state is Closing
                        &&& a is Cleanup
                    } else {
                        &&& final(self).state == old(self).state
                        &&& a is Wait
                    }
                },
                Event::CleanupDone => {
                    &&& a is Wait
                    &&& final(self).state == (if old(self).state is Closing {
                        SessionState::Closed
                    } else {
                        old(self).state
                    })
                },
            },
    {
        match ev {
            Event::SendOk => {
                if self.state == SessionState::Welcoming {
                    self.state = SessionState::Active;
                }
                Action::Wait
            },
            Event::SendFailed => self.close_on_failure(),
            Event::InboundText(t) => {
                if self.state == SessionState::Active {
                    Action::Publish(Message::new(self.origin.clone(), t))
                } else {
                    Action::Wait
                }
            },
            Event::InboundBinary => Action::Wait,
            Event::TransportClosed => self.close_on_failure(),
            Event::Delivered(m) => {
                if self.state == SessionState::Active {
                    Action::SendText(m.render())
                } else {
                    Action::Wait
                }
            },
            Event::HubGone => self.close_on_failure(),
            Event::CleanupDone => {
                if self.state == SessionState::Closing {
                    self.state = SessionState::Closed;
                }
                Action::Wait
            },
        }
    }

    /// Shared terminal transition: any transport or hub failure while the
    /// session is live moves it to `Closing` and asks for cleanup.
    fn close_on_failure(&mut self) -> (a: Action)
        ensures
            final(self).origin == old(self).origin,
            final(self).subscription == old(self).subscription,
            if old(self).state is Welcoming || old(self).state is Active {
                &&& final(self).state is Closing
                &&& a is Cleanup
            } else {
                &&& final(self).state == old(self).state
                &&& a is Wait
            },
    {
        if self.state == SessionState::Welcoming || self.state == SessionState::Active {
            self.state = SessionState::Closing;
            Action::Cleanup
        } else {
            Action::Wait
        }
    }
}

} // verus!
