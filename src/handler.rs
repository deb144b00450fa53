//! The chat request handler: takes an inbound message, runs the adapter and
//! always answers with a reply, substituting a fixed message on failure.
use vstd::prelude::*;
use crate::config::Config;
use crate::adapter::{
    AdapterError, CompletionResponse, OutboundCall, Step, finish_completion, is_call_for,
    outcome_spec, outcome_view, plan_completion, reply_contents,
};

verus! {

/// The message assumed when a request carries none.
pub open spec fn default_message() -> Seq<char> {
    "Hello"@
}

/// The fixed reply shown whenever the adapter fails.
pub open spec fn degraded_text() -> Seq<char> {
    "I'm currently experiencing some technical difficulties. Please try again later."@
}

/// An inbound chat request; the message field is optional.
pub struct ChatQuery {
    pub message: Option<String>,
}

/// The normalized answer to the caller.
pub struct ChatReply {
    pub response: String,
}

/// What the handler does with a request: answer at once, or have the caller
/// make the provider call and hand its result to `finish_chat`.
pub enum ChatStep {
    Respond(ChatReply),
    Call(OutboundCall),
}

impl ChatQuery {
    /// The message the request stands for.
    pub open spec fn message_spec(&self) -> Seq<char> {
        match self.message {
            Some(m) => m@,
            None => default_message(),
        }
    }

    /// The request's message, or "Hello" where it carries none.
    pub fn message_or_default(&self) -> (r: String)
        ensures
            r@ == self.message_spec(),
    {
        match &self.message {
            Some(m) => m.clone(),
            None => String::from_str("Hello"),
        }
    }
}

/// The reply text for an adapter outcome.
pub open spec fn reply_text(outcome: Result<Seq<char>, AdapterError>) -> Seq<char> {
    match outcome {
        Ok(s) => s,
        Err(_) => degraded_text(),
    }
}

/// `s` is what the handler does with `message` under `config`.
pub open spec fn is_chat_step_for(s: &ChatStep, message: Seq<char>, config: &Config) -> bool {
    if config.is_demo_spec() {
        s matches ChatStep::Respond(r) && r.response@ == crate::adapter::demo_text(message)
    } else {
        s matches ChatStep::Call(call) && is_call_for(&call, message, config)
    }
}

/// The degraded-mode reply text.
pub fn degraded_message() -> (r: String)
    ensures
        r@ == degraded_text(),
{
    String::from_str(
        "I'm currently experiencing some technical difficulties. Please try again later.",
    )
}

/// Wraps an adapter outcome into the reply: the adapter's text on success,
/// the degraded-mode message on any failure.
pub fn reply_for(outcome: Result<String, AdapterError>) -> (r: ChatReply)
    ensures
        r.response@ == reply_text(outcome_view(outcome)),
{
    match outcome {
        Ok(s) => ChatReply { response: s },
        Err(_) => ChatReply { response: degraded_message() },
    }
}

/// Starts handling a request: in demo mode the reply is ready at once,
/// otherwise the provider call to make is returned.
pub fn start_chat(query: &ChatQuery, config: &Config) -> (s: ChatStep)
    ensures
        is_chat_step_for(&s, query.message_spec(), config),
{
    let message = query.message_or_default();
    match plan_completion(message.as_str(), config) {
        Step::Reply(r) => ChatStep::Respond(ChatReply { response: r }),
        Step::Call(call) => ChatStep::Call(call),
    }
}

/// Finishes a live request whose provider call answered with `status` and
/// whose body read as `body` (None where it could not be read).
pub fn finish_chat(status: u16, body: Option<&CompletionResponse>) -> (r: ChatReply)
    ensures
        r.response@ == reply_text(
            outcome_spec(
                status,
                match body {
                    Some(b) => Some(reply_contents(b)),
                    None => None,
                },
            ),
        ),
{
    reply_for(finish_completion(status, body))
}

/// Finishes a live request whose provider call could not be made or answered.
pub fn transport_failed() -> (r: ChatReply)
    ensures
        r.response@ == degraded_text(),
{
    reply_for(Err(AdapterError::Transport))
}

/// A request without a message is handled exactly as one carrying "Hello".
pub proof fn lemma_missing_message_is_hello(config: &Config, s: &ChatStep)
    requires
        is_chat_step_for(s, (ChatQuery { message: None }).message_spec(), config),
    ensures
        is_chat_step_for(s, default_message(), config),
{
}

/// Every adapter failure becomes the degraded-mode reply.
pub proof fn lemma_failure_is_degraded(outcome: Result<Seq<char>, AdapterError>)
    requires
        outcome is Err,
    ensures
        reply_text(outcome) == degraded_text(),
{
}

} // verus!
