//! One turn of the conversation: a role and a text.

use vstd::prelude::*;

verus! {

/// Who spoke a message: the seeded persona, the operator, or the model.
#[derive(Clone, Copy, Debug, PartialEq, Eq, Structural)]
pub enum Role {
    System,
    User,
    Assistant,
}

/// One turn of the transcript. Immutable once created: transcripts only
/// append new messages, they never edit past ones.
#[derive(Debug)]
pub struct Message {
    pub role: Role,
    pub content: String,
}

/// The mathematical value of a `Message`: its role and the sequence of
/// characters of its content.
pub ghost struct MessageView {
    pub role: Role,
    pub content: Seq<char>,
}

impl View for Message {
    type V = MessageView;

    open spec fn view(&self) -> MessageView {
        MessageView { role: self.role, content: self.content@ }
    }
}

impl Message {
    pub fn new(role: Role, content: &str) -> (m: Message)
        ensures
            m@ == (MessageView { role, content: content@ }),
    {
        Message { role, content: content.to_owned() }
    }
}

impl Clone for Message {
    fn clone(&self) -> (m: Message)
        ensures
            m@ == self@,
    {
        Message { role: self.role, content: self.content.clone() }
    }
}

/// The message value with the given role and content.
pub open spec fn spec_message(role: Role, content: Seq<char>) -> MessageView {
    MessageView { role, content }
}

/// The sequence of message values held by a sequence of messages.
pub open spec fn messages_view(ms: Seq<Message>) -> Seq<MessageView> {
    ms.map_values(|m: Message| m@)
}

} // verus!
