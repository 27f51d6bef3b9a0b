//! The agent: api key, model identifier, cumulative token counter, and
//! the owned transcript. One turn is a cycle: build the wire request for
//! the current state (`prepare_turn`), let the caller perform the single
//! blocking HTTP exchange, then fold the outcome back into the state
//! (`finish_turn`). The fold is all-or-nothing: a failed turn leaves the
//! transcript and the token counter exactly as they were.

use vstd::prelude::*;

use crate::errors::CompletionError;
use crate::errors::ConfigError;
use crate::message::Message;
use crate::message::MessageView;
use crate::message::Role;
use crate::message::spec_message;
use crate::resolve::is_prefix_of;
use crate::resolve::resolve;
use crate::resolve::spec_mistral_url;
use crate::resolve::spec_openai_url;
use crate::transcript::Transcript;
use crate::wire::ChatResponse;
use crate::wire::RequestBody;

verus! {

/// The model used when none is configured.
pub open spec fn spec_default_model() -> Seq<char> {
    "mistral-medium"@
}

/// The built-in persona used when construction is given no prompt text.
pub open spec fn spec_default_prompt() -> Seq<char> {
    "You are a helpful assistant. Please generate truthful, accurate, and honest responses while also keeping your answers succinct and to-the-point. Today's date is: %B %d, %Y"@
}

/// The system message that construction seeds the transcript with: the
/// given prompt text, or the built-in persona when the text is empty.
pub open spec fn spec_seed_prompt(prompt_text: Seq<char>) -> Seq<char> {
    if prompt_text.len() == 0 {
        spec_default_prompt()
    } else {
        prompt_text
    }
}

/// The value of the authorization header for a given api key.
pub open spec fn spec_bearer(api_key: Seq<char>) -> Seq<char> {
    "Bearer "@ + api_key
}

/// Everything one completion exchange needs: the resolved endpoint, the
/// authorization header value, and the request body.
#[derive(Debug)]
pub struct TurnRequest {
    pub url: String,
    pub auth: String,
    pub body: RequestBody,
}

/// The conversation-state container.
#[derive(Debug)]
pub struct Agent {
    token_count: u64,
    api_key: String,
    model: String,
    transcript: Transcript,
}

impl Agent {
    /// The api key, as a sequence of characters.
    pub closed spec fn spec_api_key(&self) -> Seq<char> {
        self.api_key@
    }

    /// The configured model identifier.
    pub closed spec fn spec_model(&self) -> Seq<char> {
        self.model@
    }

    /// The cumulative token usage reported by successful turns.
    pub closed spec fn spec_token_count(&self) -> u64 {
        self.token_count
    }

    /// The conversation history, in order.
    pub closed spec fn spec_transcript(&self) -> Seq<MessageView> {
        self.transcript@
    }

    /// The one structural invariant: an agent never exists without a
    /// credential.
    pub open spec fn well_formed(&self) -> bool {
        self.spec_api_key().len() > 0
    }

    /// Build an agent from a credential and a persona text. Construction
    /// is partial: an empty api key is a configuration error, the one
    /// unrecoverable precondition in the system. The transcript is seeded
    /// with a single system message carrying the prompt text, or the
    /// built-in persona when the text is empty; the model starts at the
    /// default and the token counter at zero.
    pub fn construct(api_key: &str, prompt_text: &str) -> (r: Result<Agent, ConfigError>)
        ensures
            r is Ok <==> api_key@.len() > 0,
            r is Err ==> r->Err_0 == ConfigError::EmptyApiKey,
            r is Ok ==> {
                let a = r->Ok_0;
                &&& a.well_formed()
                &&& a.spec_api_key() == api_key@
                &&& a.spec_model() == spec_default_model()
                &&& a.spec_token_count() == 0
                &&& a.spec_transcript() == seq![
                    spec_message(Role::System, spec_seed_prompt(prompt_text@)),
                ]
            },
    {
        if api_key.is_empty() {
            return Err(ConfigError::EmptyApiKey);
        }
        let transcript = if prompt_text.is_empty() {
            Transcript::seeded(
                "You are a helpful assistant. Please generate truthful, accurate, and honest responses while also keeping your answers succinct and to-the-point. Today's date is: %B %d, %Y",
            )
        } else {
            Transcript::seeded(prompt_text)
        };
        Ok(
            Agent {
                token_count: 0,
                api_key: api_key.to_owned(),
                model: String::from_str("mistral-medium"),
                transcript,
            },
        )
    }

    /// Replace the configured model identifier; nothing else changes.
    pub fn set_model(&mut self, model: &str)
        ensures
            final(self).spec_model() == model@,
            final(self).spec_api_key() == old(self).spec_api_key(),
            final(self).spec_token_count() == old(self).spec_token_count(),
            final(self).spec_transcript() == old(self).spec_transcript(),
    {
        self.model = model.to_owned();
    }

    /// Reset the conversation: the transcript becomes a single fresh
    /// system message carrying `prompt_text`, whatever it held before.
    /// This intentionally discards prior history.
    pub fn set_prompt(&mut self, prompt_text: &str)
        ensures
            final(self).spec_transcript() == seq![spec_message(Role::System, prompt_text@)],
            final(self).spec_api_key() == old(self).spec_api_key(),
            final(self).spec_model() == old(self).spec_model(),
            final(self).spec_token_count() == old(self).spec_token_count(),
    {
        self.transcript = Transcript::seeded(prompt_text);
    }

    /// Append one message at the end of the transcript; pure state
    /// mutation, always succeeds, nothing else changes.
    pub fn add_message(&mut self, role: Role, content: &str)
        ensures
            final(self).spec_transcript() == old(self).spec_transcript().push(
                spec_message(role, content@),
            ),
            final(self).spec_api_key() == old(self).spec_api_key(),
            final(self).spec_model() == old(self).spec_model(),
            final(self).spec_token_count() == old(self).spec_token_count(),
    {
        self.transcript.push(Message::new(role, content));
    }

    /// Add one successful exchange's reported usage to the cumulative
    /// counter. The counter only ever increases.
    pub fn update_token_count(&mut self, total_tokens: u32)
        requires
            old(self).spec_token_count() + total_tokens <= u64::MAX,
        ensures
            final(self).spec_token_count() == old(self).spec_token_count() + total_tokens,
            final(self).spec_api_key() == old(self).spec_api_key(),
            final(self).spec_model() == old(self).spec_model(),
            final(self).spec_transcript() == old(self).spec_transcript(),
    {
        self.token_count = self.token_count + total_tokens as u64;
    }

    /// The cumulative token usage so far.
    pub fn token_count(&self) -> (n: u64)
        ensures
            n == self.spec_token_count(),
    {
        self.token_count
    }

    /// The configured model identifier.
    pub fn model(&self) -> (m: &String)
        ensures
            m@ == self.spec_model(),
    {
        &self.model
    }

    /// The conversation history.
    pub fn transcript(&self) -> (t: &Transcript)
        ensures
            t@ == self.spec_transcript(),
    {
        &self.transcript
    }

    /// Build everything one exchange needs from the current state: the
    /// endpoint for the configured model, the bearer authorization value,
    /// and a request body carrying the model and the full transcript in
    /// order. A model with no known endpoint is reported as an error
    /// here, before any network work; no empty URL is ever handed on.
    pub fn prepare_turn(&self) -> (r: Result<TurnRequest, CompletionError>)
        requires
            self.well_formed(),
        ensures
            r is Ok <==> is_prefix_of("mistral"@, self.spec_model()) || is_prefix_of(
                "gpt"@,
                self.spec_model(),
            ),
            r is Err ==> r->Err_0 == CompletionError::InvalidModel,
            r is Ok ==> {
                let t = r->Ok_0;
                &&& is_prefix_of("mistral"@, self.spec_model()) ==> t.url@ == spec_mistral_url()
                &&& !is_prefix_of("mistral"@, self.spec_model()) ==> t.url@ == spec_openai_url()
                &&& t.auth@ == spec_bearer(self.spec_api_key())
                &&& t.body.model@ == self.spec_model()
                &&& t.body.messages_seq() == self.spec_transcript()
            },
    {
        let url = match resolve(self.model.as_str()) {
            Ok(url) => url,
            Err(_) => {
                return Err(CompletionError::InvalidModel);
            },
        };
        let mut auth = String::from_str("Bearer ");
        auth.append(self.api_key.as_str());
        let body = RequestBody { model: self.model.clone(), messages: self.transcript.to_vec() };
        Ok(TurnRequest { url, auth, body })
    }

    /// Fold the outcome of one exchange back into the state. On any
    /// failure — a transport or decode error carried in, or a response
    /// whose choices list is empty — the agent is left bit-for-bit as it
    /// was and the error is returned. On success the first choice's
    /// message is appended as the assistant's turn, the token counter
    /// grows by exactly the reported `total_tokens`, and that message is
    /// returned; nothing else changes.
    pub fn finish_turn(&mut self, outcome: Result<ChatResponse, CompletionError>) -> (r: Result<
        Message,
        CompletionError,
    >)
        requires
            outcome is Ok ==> old(self).spec_token_count() + outcome->Ok_0.usage.total_tokens
                <= u64::MAX,
        ensures
            outcome is Err ==> *final(self) == *old(self) && r is Err && r->Err_0
                == outcome->Err_0,
            outcome is Ok && outcome->Ok_0.choices@.len() == 0 ==> *final(self) == *old(self)
                && r is Err && r->Err_0 == CompletionError::EmptyChoices,
            outcome is Ok && outcome->Ok_0.choices@.len() > 0 ==> {
                let resp = outcome->Ok_0;
                &&& r is Ok
                &&& (r->Ok_0)@ == resp.choices@[0].message@
                &&& final(self).spec_transcript() == old(self).spec_transcript().push(
                    spec_message(Role::Assistant, resp.choices@[0].message.content@),
                )
                &&& final(self).spec_token_count() == old(self).spec_token_count()
                    + resp.usage.total_tokens
                &&& final(self).spec_api_key() == old(self).spec_api_key()
                &&& final(self).spec_model() == old(self).spec_model()
            },
    {
        match outcome {
            Err(e) => Err(e),
            Ok(resp) => {
                if resp.choices.len() == 0 {
                    Err(CompletionError::EmptyChoices)
                } else {
                    let role = resp.choices[0].message.role;
                    let content = resp.choices[0].message.content.clone();
                    self.update_token_count(resp.usage.total_tokens);
                    self.add_message(Role::Assistant, content.as_str());
                    Ok(Message { role, content })
                }
            },
        }
    }
}

} // verus!
