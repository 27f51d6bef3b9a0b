//! A single-session conversational agent: a chat transcript, endpoint
//! resolution for the completion service, and the turn-taking state
//! machine that folds each reply back into the transcript.

pub mod agent;
pub mod errors;
pub mod message;
pub mod repl;
pub mod resolve;
pub mod transcript;
pub mod wire;

pub use agent::Agent;
pub use agent::TurnRequest;
pub use errors::CompletionError;
pub use errors::ConfigError;
pub use message::Message;
pub use message::MessageView;
pub use message::Role;
pub use repl::LoopAction;
pub use transcript::Transcript;
pub use wire::ChatResponse;
pub use wire::Choice;
pub use wire::RequestBody;
pub use wire::Usage;
