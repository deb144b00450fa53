//! The provider adapter: builds the chat-completion request, and turns the
//! provider's answer into a reply string or an error.
use vstd::prelude::*;
use crate::config::{Config, demo_key};

verus! {

/// The model asked for every completion.
pub open spec fn model_name() -> Seq<char> {
    "gpt-3.5-turbo"@
}

/// The persona instruction sent as the system turn.
pub open spec fn persona() -> Seq<char> {
    "You are a helpful AI assistant."@
}

/// The provider's chat-completions endpoint.
pub open spec fn endpoint() -> Seq<char> {
    "https://api.openai.com/v1/chat/completions"@
}

/// Token budget of every completion.
pub const MAX_TOKENS: u32 = 150;

/// The reply synthesized in demo mode: it echoes the message verbatim.
pub open spec fn demo_text(message: Seq<char>) -> Seq<char> {
    "I received your message: '"@ + message
        + "'. This is a demo response. To enable real AI responses, configure your OPENAI_API_KEY environment variable."@
}

/// The value of the `Authorization` header for a credential.
pub open spec fn bearer_text(api_key: Seq<char>) -> Seq<char> {
    "Bearer "@ + api_key
}

/// `t` occurs in `s` as a contiguous run.
pub open spec fn contains(s: Seq<char>, t: Seq<char>) -> bool {
    exists|i: int| 0 <= i && i + t.len() <= s.len() && #[trigger] s.subrange(i, i + t.len()) == t
}

/// One turn of a conversation. `role` is one of "system", "user", "assistant".
pub struct Turn {
    pub role: String,
    pub content: String,
}

/// The outbound payload of a chat completion.
pub struct CompletionRequest {
    pub model: String,
    pub messages: Vec<Turn>,
    pub max_tokens: u32,
}

/// One alternative of the provider's answer.
pub struct Choice {
    pub message: Turn,
}

/// The provider's answer to a chat completion.
pub struct CompletionResponse {
    pub choices: Vec<Choice>,
}

/// Why a completion did not produce a reply.
#[derive(Debug, PartialEq, Eq, Structural)]
pub enum AdapterError {
    /// The provider could not be reached, or its body could not be read.
    Transport,
    /// The provider answered with this non-success HTTP status.
    Status(u16),
    /// The provider answered with success but without any choice.
    Shape,
}

/// The HTTP call that live mode makes: a POST of `body` as JSON to `url`.
pub struct OutboundCall {
    pub url: String,
    pub authorization: String,
    pub body: CompletionRequest,
}

/// What the adapter does with a message: answer at once, or call the provider.
pub enum Step {
    Reply(String),
    Call(OutboundCall),
}

/// The reply texts of a provider answer, in order.
pub open spec fn reply_contents(resp: &CompletionResponse) -> Seq<Seq<char>> {
    resp.choices@.map_values(|c: Choice| c.message.content@)
}

/// `req` is the completion request for `message`: the fixed model, a system
/// turn with the persona then a user turn with the message, and the budget.
pub open spec fn is_request_for(req: &CompletionRequest, message: Seq<char>) -> bool {
    &&& req.model@ == model_name()
    &&& req.messages@.len() == 2
    &&& req.messages@[0].role@ == "system"@
    &&& req.messages@[0].content@ == persona()
    &&& req.messages@[1].role@ == "user"@
    &&& req.messages@[1].content@ == message
    &&& req.max_tokens == 150
}

/// `s` is what the adapter does with `message` under `config`.
pub open spec fn is_step_for(s: &Step, message: Seq<char>, config: &Config) -> bool {
    if config.is_demo_spec() {
        s matches Step::Reply(r) && r@ == demo_text(message)
    } else {
        s matches Step::Call(call) && is_call_for(&call, message, config)
    }
}

/// `call` is the provider call that answers `message` under `config`.
pub open spec fn is_call_for(call: &OutboundCall, message: Seq<char>, config: &Config) -> bool {
    &&& call.url@ == endpoint()
    &&& call.authorization@ == bearer_text(config.api_key@)
    &&& is_request_for(&call.body, message)
}

/// A 2xx status.
pub open spec fn is_success_spec(status: u16) -> bool {
    200 <= status && status <= 299
}

/// The outcome of a completion whose call returned `status`, and whose body
/// read as an answer with `body`'s reply texts (None: it could not be read).
pub open spec fn outcome_spec(status: u16, body: Option<Seq<Seq<char>>>) -> Result<
    Seq<char>,
    AdapterError,
> {
    if !is_success_spec(status) {
        Err(AdapterError::Status(status))
    } else {
        match body {
            None => Err(AdapterError::Transport),
            Some(contents) => if contents.len() > 0 {
                Ok(contents[0])
            } else {
                Err(AdapterError::Shape)
            },
        }
    }
}

/// The view of an exec outcome.
pub open spec fn outcome_view(r: Result<String, AdapterError>) -> Result<Seq<char>, AdapterError> {
    match r {
        Ok(s) => Ok(s@),
        Err(e) => Err(e),
    }
}

/// The demo-mode reply for `message`.
pub fn demo_reply(message: &str) -> (r: String)
    ensures
        r@ == demo_text(message@),
{
    String::from_str("I received your message: '").concat(message).concat(
        "'. This is a demo response. To enable real AI responses, configure your OPENAI_API_KEY environment variable.",
    )
}

/// The `Authorization` header value for `api_key`.
pub fn bearer(api_key: &str) -> (r: String)
    ensures
        r@ == bearer_text(api_key@),
{
    String::from_str("Bearer ").concat(api_key)
}

/// The completion request that asks the provider to answer `message`.
pub fn build_request(message: &str) -> (r: CompletionRequest)
    ensures
        is_request_for(&r, message@),
{
    let system = Turn {
        role: String::from_str("system"),
        content: String::from_str("You are a helpful AI assistant."),
    };
    let user = Turn { role: String::from_str("user"), content: String::from_str(message) };
    let mut messages: Vec<Turn> = Vec::new();
    messages.push(system);
    messages.push(user);
    CompletionRequest { model: String::from_str("gpt-3.5-turbo"), messages, max_tokens: MAX_TOKENS }
}

/// Decides what to do with `message`: in demo mode the reply is synthesized
/// at once, otherwise the provider is called once with the built request.
pub fn plan_completion(message: &str, config: &Config) -> (s: Step)
    ensures
        is_step_for(&s, message@, config),
{
    if config.is_demo() {
        Step::Reply(demo_reply(message))
    } else {
        let call = OutboundCall {
            url: String::from_str("https://api.openai.com/v1/chat/completions"),
            authorization: bearer(config.api_key.as_str()),
            body: build_request(message),
        };
        Step::Call(call)
    }
}

/// Whether an HTTP status is a success (2xx).
pub fn is_success_status(status: u16) -> (r: bool)
    ensures
        r == is_success_spec(status),
{
    200 <= status && status <= 299
}

/// The text of the first choice of a provider answer, or `Shape` when the
/// answer holds no choice.
pub fn first_choice_content(resp: &CompletionResponse) -> (r: Result<String, AdapterError>)
    ensures
        reply_contents(resp).len() > 0 ==> (r matches Ok(s) && s@ == reply_contents(resp)[0]),
        reply_contents(resp).len() == 0 ==> r == Err::<String, AdapterError>(AdapterError::Shape),
{
    if resp.choices.len() == 0 {
        Err(AdapterError::Shape)
    } else {
        Ok(resp.choices[0].message.content.clone())
    }
}

/// The outcome of a live completion whose call answered with `status` and
/// whose body read as `body` (None where it could not be read).
pub fn finish_completion(status: u16, body: Option<&CompletionResponse>) -> (r: Result<
    String,
    AdapterError,
>)
    ensures
        outcome_view(r) == outcome_spec(
            status,
            match body {
                Some(b) => Some(reply_contents(b)),
                None => None,
            },
        ),
{
    if !is_success_status(status) {
        return Err(AdapterError::Status(status));
    }
    match body {
        None => Err(AdapterError::Transport),
        Some(b) => first_choice_content(b),
    }
}

/// In demo mode the adapter always answers, and its reply holds the message
/// verbatim.
pub proof fn lemma_demo_reply_echoes(message: Seq<char>, config: &Config, s: &Step)
    requires
        config.api_key@ == demo_key(),
        is_step_for(s, message, config),
    ensures
        s matches Step::Reply(r) && contains(r@, message),
{
    let prefix = "I received your message: '"@;
    let r = demo_text(message);
    let i: int = prefix.len() as int;
    assert(r.subrange(i, i + message.len()) =~= message);
}

/// A successful answer with at least one choice yields exactly the first
/// choice's text.
pub proof fn lemma_success_returns_first_choice(status: u16, contents: Seq<Seq<char>>)
    requires
        is_success_spec(status),
        contents.len() > 0,
    ensures
        outcome_spec(status, Some(contents)) == Ok::<Seq<char>, AdapterError>(contents[0]),
{
}

/// A successful answer without any choice is a `Shape` failure.
pub proof fn lemma_empty_choices_fail(status: u16, contents: Seq<Seq<char>>)
    requires
        is_success_spec(status),
        contents.len() == 0,
    ensures
        outcome_spec(status, Some(contents)) == Err::<Seq<char>, AdapterError>(AdapterError::Shape),
{
}

} // verus!
