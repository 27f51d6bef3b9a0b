//! Endpoint resolution: map a model identifier to the completion service
//! URL, by prefix. Resolution is pure; an unrecognized prefix is a
//! configuration error, never an empty URL handed on to a network call.

use vstd::prelude::*;

use crate::errors::ConfigError;

verus! {

/// `p` is a prefix of `s`.
pub open spec fn is_prefix_of(p: Seq<char>, s: Seq<char>) -> bool {
    p.len() <= s.len() && s.subrange(0, p.len() as int) == p
}

/// The chat-completions endpoint for models served by Mistral.
pub open spec fn spec_mistral_url() -> Seq<char> {
    "https://api.mistral.ai/v1/chat/completions"@
}

/// The chat-completions endpoint for models served by OpenAI.
pub open spec fn spec_openai_url() -> Seq<char> {
    "https://api.openai.com/v1/chat/completions"@
}

/// Does `s` start with `p`?
pub fn starts_with(s: &str, p: &str) -> (r: bool)
    ensures
        r == is_prefix_of(p@, s@),
{
    let s_len = s.unicode_len();
    let p_len = p.unicode_len();
    if p_len > s_len {
        return false;
    }
    let mut i: usize = 0;
    while i < p_len
        invariant
            i <= p_len <= s_len,
            p_len == p@.len(),
            s_len == s@.len(),
            forall|j: int| 0 <= j < i ==> s@[j] == p@[j],
        decreases p_len - i,
    {
        if s.get_char(i) != p.get_char(i) {
            proof {
                assert(s@.subrange(0, p@.len() as int)[i as int] == s@[i as int]);
            }
            return false;
        }
        i += 1;
    }
    proof {
        assert(s@.subrange(0, p@.len() as int) =~= p@);
    }
    true
}

/// Map a model identifier to its completion endpoint. Any identifier
/// starting with `"mistral"` is served by Mistral; any starting with
/// `"gpt"` is served by OpenAI; no other prefix is recognized.
pub fn resolve(model: &str) -> (r: Result<String, ConfigError>)
    ensures
        is_prefix_of("mistral"@, model@) ==> r is Ok && (r->Ok_0)@ == spec_mistral_url(),
        !is_prefix_of("mistral"@, model@) && is_prefix_of("gpt"@, model@) ==> r is Ok
            && (r->Ok_0)@ == spec_openai_url(),
        !is_prefix_of("mistral"@, model@) && !is_prefix_of("gpt"@, model@) ==> r == Err::<
            String,
            ConfigError,
        >(ConfigError::UnknownModel),
        r is Ok <==> is_prefix_of("mistral"@, model@) || is_prefix_of("gpt"@, model@),
{
    if starts_with(model, "mistral") {
        Ok(String::from_str("https://api.mistral.ai/v1/chat/completions"))
    } else if starts_with(model, "gpt") {
        Ok(String::from_str("https://api.openai.com/v1/chat/completions"))
    } else {
        Err(ConfigError::UnknownModel)
    }
}

} // verus!
