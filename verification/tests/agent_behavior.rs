use ragent_smith::Agent;
use ragent_smith::ChatResponse;
use ragent_smith::Choice;
use ragent_smith::CompletionError;
use ragent_smith::ConfigError;
use ragent_smith::Message;
use ragent_smith::Role;
use ragent_smith::Usage;

fn reply_with(content: &str, total_tokens: u32) -> ChatResponse {
    ChatResponse {
        id: String::from("cmpl-1"),
        object: String::from("chat.completion"),
        created: 0,
        model: String::from("mistral-medium"),
        choices: vec![Choice {
            index: 0,
            message: Message::new(Role::Assistant, content),
            finish_reason: String::from("stop"),
        }],
        usage: Usage { prompt_tokens: 0, total_tokens, completion_tokens: 0 },
    }
}

fn empty_reply() -> ChatResponse {
    ChatResponse {
        id: String::from("cmpl-2"),
        object: String::from("chat.completion"),
        created: 0,
        model: String::from("mistral-medium"),
        choices: vec![],
        usage: Usage { prompt_tokens: 0, total_tokens: 11, completion_tokens: 0 },
    }
}

#[test]
fn construct_rejects_empty_key() {
    let r = Agent::construct("", "be terse");
    assert!(matches!(r, Err(ConfigError::EmptyApiKey)));
    let r = Agent::construct("", "");
    assert!(matches!(r, Err(ConfigError::EmptyApiKey)));
}

#[test]
fn construct_accepts_any_nonempty_key() {
    assert!(Agent::construct("k", "be terse").is_ok());
    assert!(Agent::construct(" ", "").is_ok());
    assert!(Agent::construct("a-much-longer-key-0123456789", "persona").is_ok());
}

#[test]
fn construct_seeds_system_prompt() {
    let a = Agent::construct("k", "be terse").unwrap();
    let t = a.transcript();
    assert_eq!(t.len(), 1);
    assert_eq!(t.get(0).role, Role::System);
    assert_eq!(t.get(0).content, "be terse");
    assert_eq!(a.token_count(), 0);
    assert_eq!(a.model().as_str(), "mistral-medium");
}

#[test]
fn construct_defaults_persona_when_prompt_empty() {
    let a = Agent::construct("k", "").unwrap();
    let t = a.transcript();
    assert_eq!(t.len(), 1);
    assert_eq!(t.get(0).role, Role::System);
    assert!(t.get(0).content.starts_with("You are a helpful assistant."));
}

#[test]
fn set_prompt_resets_to_single_system_message() {
    let mut a = Agent::construct("k", "first persona").unwrap();
    a.add_message(Role::User, "hi");
    a.add_message(Role::Assistant, "hello");
    assert_eq!(a.transcript().len(), 3);
    a.set_prompt("second persona");
    let t = a.transcript();
    assert_eq!(t.len(), 1);
    assert_eq!(t.get(0).role, Role::System);
    assert_eq!(t.get(0).content, "second persona");
}

#[test]
fn add_message_appends_in_call_order() {
    let mut a = Agent::construct("k", "p").unwrap();
    let before = a.transcript().len();
    a.add_message(Role::User, "one");
    a.add_message(Role::Assistant, "two");
    a.add_message(Role::User, "three");
    let t = a.transcript();
    assert_eq!(t.len(), before + 3);
    assert_eq!(t.get(before).content, "one");
    assert_eq!(t.get(before).role, Role::User);
    assert_eq!(t.get(before + 1).content, "two");
    assert_eq!(t.get(before + 1).role, Role::Assistant);
    assert_eq!(t.get(before + 2).content, "three");
    assert_eq!(t.get(before + 2).role, Role::User);
}

#[test]
fn update_token_count_accumulates() {
    let mut a = Agent::construct("k", "p").unwrap();
    a.update_token_count(3);
    a.update_token_count(4);
    assert_eq!(a.token_count(), 7);
}

#[test]
fn scenario_successful_turn() {
    let mut a = Agent::construct("k", "be terse").unwrap();
    a.add_message(Role::User, "hi");
    let r = a.finish_turn(Ok(reply_with("hello", 7)));
    let m = r.unwrap();
    assert_eq!(m.role, Role::Assistant);
    assert_eq!(m.content, "hello");
    let t = a.transcript();
    assert_eq!(t.len(), 3);
    assert_eq!(t.get(0).role, Role::System);
    assert_eq!(t.get(0).content, "be terse");
    assert_eq!(t.get(1).role, Role::User);
    assert_eq!(t.get(1).content, "hi");
    assert_eq!(t.get(2).role, Role::Assistant);
    assert_eq!(t.get(2).content, "hello");
    assert_eq!(a.token_count(), 7);
}

#[test]
fn scenario_empty_choices_changes_nothing() {
    let mut a = Agent::construct("k", "be terse").unwrap();
    a.add_message(Role::User, "hi");
    let len_before = a.transcript().len();
    let tokens_before = a.token_count();
    let r = a.finish_turn(Ok(empty_reply()));
    assert!(matches!(r, Err(CompletionError::EmptyChoices)));
    assert_eq!(a.transcript().len(), len_before);
    assert_eq!(a.token_count(), tokens_before);
    assert_eq!(a.transcript().get(1).content, "hi");
}

#[test]
fn failed_call_changes_nothing() {
    let mut a = Agent::construct("k", "p").unwrap();
    a.add_message(Role::User, "hi");
    let len_before = a.transcript().len();
    let tokens_before = a.token_count();
    let r = a.finish_turn(Err(CompletionError::Transport(String::from("connection refused"))));
    match r {
        Err(CompletionError::Transport(m)) => assert_eq!(m, "connection refused"),
        _ => panic!("expected the transport error back"),
    }
    assert_eq!(a.transcript().len(), len_before);
    assert_eq!(a.token_count(), tokens_before);
}

#[test]
fn turns_accumulate_tokens() {
    let mut a = Agent::construct("k", "p").unwrap();
    a.add_message(Role::User, "one");
    a.finish_turn(Ok(reply_with("first", 5))).unwrap();
    a.add_message(Role::User, "two");
    a.finish_turn(Ok(reply_with("second", 9))).unwrap();
    assert_eq!(a.token_count(), 14);
    assert_eq!(a.transcript().len(), 5);
}

#[test]
fn describe_names_each_failure() {
    assert_eq!(CompletionError::InvalidModel.describe(), "invalid model");
    assert_eq!(
        CompletionError::Transport(String::from("no route")).describe(),
        "transport error: no route"
    );
    assert_eq!(
        CompletionError::Decode(String::from("bad json")).describe(),
        "decode error: bad json"
    );
    assert_eq!(CompletionError::EmptyChoices.describe(), "response carried no choices");
}
