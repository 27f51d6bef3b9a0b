//! The error taxonomy: configuration errors (empty credential, model with
//! no known endpoint) are unrecoverable at construction or resolution
//! time; completion errors are surfaced per turn and leave the agent
//! ready for another turn.

use vstd::prelude::*;

verus! {

/// A configuration error: the process cannot proceed as configured.
#[derive(Clone, Copy, Debug, PartialEq, Eq, Structural)]
pub enum ConfigError {
    /// The api key is empty; no credential, no session.
    EmptyApiKey,
    /// The model identifier matches no known endpoint.
    UnknownModel,
}

/// Why one completion turn failed. Every variant is surfaced to the
/// immediate caller; none is retried and none mutates the agent.
#[derive(Debug)]
pub enum CompletionError {
    /// The model identifier resolved to no endpoint; no call was attempted.
    InvalidModel,
    /// The network exchange itself failed (connection, DNS, TLS).
    Transport(String),
    /// The response body was not the expected shape.
    Decode(String),
    /// A structurally valid response carried an empty choices list: a
    /// protocol violation by the remote service.
    EmptyChoices,
}

impl CompletionError {
    /// A line of text for the operator, naming the failure.
    pub fn describe(&self) -> (r: String)
        ensures
            r@ == match *self {
                CompletionError::InvalidModel => "invalid model"@,
                CompletionError::Transport(ref m) => "transport error: "@ + m@,
                CompletionError::Decode(ref m) => "decode error: "@ + m@,
                CompletionError::EmptyChoices => "response carried no choices"@,
            },
    {
        match self {
            CompletionError::InvalidModel => String::from_str("invalid model"),
            CompletionError::Transport(m) => String::from_str("transport error: ").concat(m.as_str()),
            CompletionError::Decode(m) => String::from_str("decode error: ").concat(m.as_str()),
            CompletionError::EmptyChoices => String::from_str("response carried no choices"),
        }
    }
}

} // verus!
