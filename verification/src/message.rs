use vstd::prelude::*;

verus! {

/// The mathematical value of a [`Message`]: the two character sequences it
/// carries.
pub struct MessageView {
    pub origin: Seq<char>,
    pub text: Seq<char>,
}

/// One broadcast payload: an immutable text together with the origin label
/// (the publishing connection's identity) attached at publish time. The
/// origin is used only for display prefixing, never for routing.
pub struct Message {
    pub origin: String,
    pub text: String,
}

impl View for Message {
    type V = MessageView;

    open spec fn view(&self) -> MessageView {
        MessageView { origin: self.origin@, text: self.text@ }
    }
}

impl Message {
    /// Builds the payload published when `origin` sends `text`.
    pub fn new(origin: String, text: String) -> (m: Message)
        ensures
            m@.origin == origin@,
            m@.text == text@,
    {
        Message { origin, text }
    }

    /// An identical copy, for fanning one payload out to several queues.
    pub fn duplicate(&self) -> (m: Message)
        ensures
            m@ == self@,
    {
        Message { origin: self.origin.clone(), text: self.text.clone() }
    }

    /// The line sent to clients: the origin label, a separator, the text.
    pub fn render(&self) -> (s: String)
        ensures
            s@ == self@.origin + " : "@ + self@.text,
    {
        self.origin.clone().concat(" : ").concat(self.text.as_str())
    }
}

} // verus!
