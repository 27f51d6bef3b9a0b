//! The shapes exchanged with the completion service: the request body
//! built per call, and the response it answers with. Both are ephemeral;
//! a response is consumed immediately after one exchange and discarded.

use vstd::prelude::*;

use crate::message::Message;
use crate::message::MessageView;
use crate::message::messages_view;

verus! {

/// The body of one completion request: the model identifier and the full
/// ordered message list at the moment of the call.
#[derive(Debug)]
pub struct RequestBody {
    pub model: String,
    pub messages: Vec<Message>,
}

impl RequestBody {
    /// The message values carried by this request, in order.
    pub open spec fn messages_seq(&self) -> Seq<MessageView> {
        messages_view(self.messages@)
    }
}

/// Usage accounting reported by the completion service for one exchange.
/// Only `total_tokens` is consumed locally; the split exists for schema
/// completeness.
#[derive(Clone, Copy, Debug)]
pub struct Usage {
    pub prompt_tokens: u32,
    pub total_tokens: u32,
    pub completion_tokens: u32,
}

/// One candidate reply within a completion response.
#[derive(Debug)]
pub struct Choice {
    pub index: i32,
    pub message: Message,
    pub finish_reason: String,
}

/// One deserialized completion response. Only `choices[0]` and
/// `usage.total_tokens` are consumed; the other fields echo the request or
/// exist for schema completeness.
#[derive(Debug)]
pub struct ChatResponse {
    pub id: String,
    pub object: String,
    pub created: i64,
    pub model: String,
    pub choices: Vec<Choice>,
    pub usage: Usage,
}

} // verus!
