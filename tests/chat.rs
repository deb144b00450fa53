use ai_chat::adapter::{
    bearer, build_request, demo_reply, finish_completion, first_choice_content,
    is_success_status, plan_completion, AdapterError, Choice, CompletionResponse, Step, Turn,
};
use ai_chat::config::Config;
use ai_chat::handler::{
    degraded_message, finish_chat, reply_for, start_chat, transport_failed, ChatQuery, ChatStep,
};
use ai_chat::home::{fallback_page, home_page};

const DEGRADED: &str =
    "I'm currently experiencing some technical difficulties. Please try again later.";

fn live_config() -> Config {
    Config::resolve(Some("sk-test".to_string()), None)
}

fn answer(texts: &[&str]) -> CompletionResponse {
    CompletionResponse {
        choices: texts
            .iter()
            .map(|t| Choice {
                message: Turn { role: "assistant".to_string(), content: t.to_string() },
            })
            .collect(),
    }
}

fn respond(step: ChatStep) -> String {
    match step {
        ChatStep::Respond(r) => r.response,
        ChatStep::Call(_) => panic!("expected an immediate reply"),
    }
}

#[test]
fn resolve_applies_defaults() {
    let c = Config::resolve(None, None);
    assert_eq!(c.api_key, "your-api-key-here");
    assert_eq!(c.port, "8080");
    assert!(c.is_demo());
    assert_eq!(c.bind_address(), "0.0.0.0:8080");
}

#[test]
fn resolve_keeps_given_values() {
    let c = Config::resolve(Some("sk-abc".to_string()), Some("3000".to_string()));
    assert_eq!(c.api_key, "sk-abc");
    assert_eq!(c.port, "3000");
    assert!(!c.is_demo());
    assert_eq!(c.bind_address(), "0.0.0.0:3000");
}

#[test]
fn demo_config_is_demo() {
    let c = Config::demo();
    assert!(c.is_demo());
    assert_eq!(c.port, "8080");
}

#[test]
fn demo_scenario_hi() {
    let step = start_chat(&ChatQuery { message: Some("hi".to_string()) }, &Config::resolve(None, None));
    assert_eq!(
        respond(step),
        "I received your message: 'hi'. This is a demo response. To enable real AI responses, configure your OPENAI_API_KEY environment variable."
    );
}

#[test]
fn demo_scenario_missing_message() {
    let step = start_chat(&ChatQuery { message: None }, &Config::demo());
    let text = respond(step);
    assert!(text.contains("'Hello'"));
    assert_eq!(text, demo_reply("Hello"));
}

#[test]
fn missing_message_defaults_to_hello() {
    assert_eq!(ChatQuery { message: None }.message_or_default(), "Hello");
    assert_eq!(ChatQuery { message: Some("yo".to_string()) }.message_or_default(), "yo");
}

#[test]
fn demo_reply_echoes_message_verbatim() {
    for m in ["", "hi", "it's \"quoted\" 'text'", "héllo wörld ✓", "a\nb"] {
        let r = demo_reply(m);
        assert!(r.contains(m));
        assert!(r.starts_with("I received your message: '"));
    }
}

#[test]
fn demo_plan_makes_no_call() {
    match plan_completion("ping", &Config::demo()) {
        Step::Reply(r) => assert_eq!(r, demo_reply("ping")),
        Step::Call(_) => panic!("demo mode must not call the provider"),
    }
}

#[test]
fn live_plan_builds_the_call() {
    match plan_completion("ping", &live_config()) {
        Step::Call(call) => {
            assert_eq!(call.url, "https://api.openai.com/v1/chat/completions");
            assert_eq!(call.authorization, "Bearer sk-test");
            assert_eq!(call.body.model, "gpt-3.5-turbo");
            assert_eq!(call.body.max_tokens, 150);
            assert_eq!(call.body.messages.len(), 2);
            assert_eq!(call.body.messages[1].content, "ping");
        }
        Step::Reply(_) => panic!("live mode must call the provider"),
    }
}

#[test]
fn live_start_chat_returns_call() {
    let step = start_chat(&ChatQuery { message: None }, &live_config());
    match step {
        ChatStep::Call(call) => assert_eq!(call.body.messages[1].content, "Hello"),
        ChatStep::Respond(_) => panic!("live mode must call the provider"),
    }
}

#[test]
fn request_has_system_then_user_turn() {
    let req = build_request("what is 2+2?");
    assert_eq!(req.messages[0].role, "system");
    assert_eq!(req.messages[0].content, "You are a helpful AI assistant.");
    assert_eq!(req.messages[1].role, "user");
    assert_eq!(req.messages[1].content, "what is 2+2?");
}

#[test]
fn bearer_prefixes_key() {
    assert_eq!(bearer("k1"), "Bearer k1");
}

#[test]
fn success_statuses() {
    assert!(is_success_status(200));
    assert!(is_success_status(204));
    assert!(is_success_status(299));
    assert!(!is_success_status(199));
    assert!(!is_success_status(300));
    assert!(!is_success_status(429));
    assert!(!is_success_status(500));
}

#[test]
fn first_choice_is_returned_unmodified() {
    let resp = answer(&["  first reply \n", "second"]);
    assert_eq!(first_choice_content(&resp), Ok("  first reply \n".to_string()));
    assert_eq!(finish_completion(200, Some(&resp)), Ok("  first reply \n".to_string()));
}

#[test]
fn empty_choices_is_shape_failure() {
    let resp = answer(&[]);
    assert_eq!(first_choice_content(&resp), Err(AdapterError::Shape));
    assert_eq!(finish_completion(200, Some(&resp)), Err(AdapterError::Shape));
}

#[test]
fn non_success_status_is_status_failure() {
    let resp = answer(&["ignored"]);
    assert_eq!(finish_completion(429, Some(&resp)), Err(AdapterError::Status(429)));
    assert_eq!(finish_completion(500, None), Err(AdapterError::Status(500)));
}

#[test]
fn unreadable_body_is_transport_failure() {
    assert_eq!(finish_completion(200, None), Err(AdapterError::Transport));
}

#[test]
fn rate_limited_scenario_gives_degraded_reply() {
    assert_eq!(finish_chat(429, None).response, DEGRADED);
}

#[test]
fn every_failure_gives_degraded_reply() {
    assert_eq!(degraded_message(), DEGRADED);
    assert_eq!(reply_for(Err(AdapterError::Transport)).response, DEGRADED);
    assert_eq!(reply_for(Err(AdapterError::Status(503))).response, DEGRADED);
    assert_eq!(reply_for(Err(AdapterError::Shape)).response, DEGRADED);
    assert_eq!(finish_chat(200, Some(&answer(&[]))).response, DEGRADED);
    assert_eq!(transport_failed().response, DEGRADED);
}

#[test]
fn successful_live_reply_passes_through() {
    assert_eq!(reply_for(Ok("42".to_string())).response, "42");
    assert_eq!(finish_chat(201, Some(&answer(&["four"]))).response, "four");
}

#[test]
fn home_fallback_when_page_missing() {
    let page = home_page(None);
    assert!(page.contains("Welcome to AI Chat"));
    assert_eq!(page, fallback_page());
}

#[test]
fn home_serves_stored_page() {
    assert_eq!(home_page(Some("<p>hi</p>".to_string())), "<p>hi</p>");
}
