//! The response transformer: from the upstream's answer to the text that the
//! gateway returns, or to the fault that it reports.

use crate::dispatch::Provider;
use crate::json::{content, parse_value, parsed, Json};
use crate::response::{outcome_reply, respond, text_reply, GatewayError, GatewayResponse, Reply};
use crate::schema::{
    chat_completion_of, decode_chat_completion, decode_grok, grok_of, ChatCompletionResponse,
    ChatCompletionView, ChoiceView, GrokResponse, GrokView,
};
use vstd::prelude::*;
use vstd::string::StringExecFns;

verus! {

/// A completion in the dialect of its provider.
#[derive(Debug, PartialEq)]
pub enum Completion {
    OpenAiCompatible(ChatCompletionResponse),
    GrokCompatible(GrokResponse),
}

/// A completion as a value.
pub enum CompletionView {
    OpenAiCompatible(ChatCompletionView),
    GrokCompatible(GrokView),
}

impl CompletionView {
    /// The choices of the completion.
    pub open spec fn choices(self) -> Seq<ChoiceView> {
        match self {
            CompletionView::OpenAiCompatible(response) => response.head.choices,
            CompletionView::GrokCompatible(response) => response.head.choices,
        }
    }
}

impl View for Completion {
    type V = CompletionView;

    open spec fn view(&self) -> CompletionView {
        match self {
            Completion::OpenAiCompatible(response) => CompletionView::OpenAiCompatible(response@),
            Completion::GrokCompatible(response) => CompletionView::GrokCompatible(response@),
        }
    }
}

impl Clone for Completion {
    fn clone(&self) -> (r: Self)
        ensures
            r@ == self@,
    {
        match self {
            Completion::OpenAiCompatible(response) => Completion::OpenAiCompatible(
                response.clone(),
            ),
            Completion::GrokCompatible(response) => Completion::GrokCompatible(response.clone()),
        }
    }
}

impl Completion {
    /// The message text of the first choice, if there is a choice.
    pub fn first_content(&self) -> (r: Option<&String>)
        ensures
            r is Some <==> self@.choices().len() > 0,
            r is Some ==> r->Some_0@ == self@.choices()[0].message.content,
    {
        let choices = match self {
            Completion::OpenAiCompatible(response) => &response.choices,
            Completion::GrokCompatible(response) => &response.choices,
        };
        if choices.len() > 0 {
            Some(&choices[0].message.content)
        } else {
            None
        }
    }
}

/// The completion that `json` stands for in the dialect of `provider`.
pub open spec fn completion_of(provider: Provider, json: Json) -> Option<CompletionView> {
    match provider {
        Provider::OpenAiCompatible => match chat_completion_of(json) {
            Some(response) => Some(CompletionView::OpenAiCompatible(response)),
            None => None,
        },
        Provider::GrokCompatible => match grok_of(json) {
            Some(response) => Some(CompletionView::GrokCompatible(response)),
            None => None,
        },
    }
}

/// Reads a completion in the dialect of `provider`.
pub fn decode_completion(provider: Provider, v: &serde_json::Value) -> (r: Option<Completion>)
    ensures
        match r {
            Some(completion) => completion_of(provider, content(*v)) == Some(completion@),
            None => completion_of(provider, content(*v)) is None,
        },
{
    match provider {
        Provider::OpenAiCompatible => match decode_chat_completion(v) {
            Some(response) => Some(Completion::OpenAiCompatible(response)),
            None => None,
        },
        Provider::GrokCompatible => match decode_grok(v) {
            Some(response) => Some(Completion::GrokCompatible(response)),
            None => None,
        },
    }
}

/// The text that std's `Debug` writes for a string: the string in double
/// quotes, with escapes.
pub uninterp spec fn quoted(text: Seq<char>) -> Seq<char>;

/// `format!` with `{:?}` on a string. Nothing is proved of it: the result
/// is a function of the text alone, and `quoted` is its name.
#[verifier::external_body]
fn quote(text: &str) -> (r: String)
    ensures
        r@ == quoted(text@),
{
    format!("{:?}", text)
}

/// The text that the gateway returns for a quoted content: the content
/// between two line feeds.
pub open spec fn envelope_text(quoted_content: Seq<char>) -> Seq<char> {
    "\n"@ + quoted_content + "\n"@
}

/// Puts a quoted content between two line feeds.
pub fn envelope(quoted_content: &str) -> (r: String)
    ensures
        r@ == envelope_text(quoted_content@),
{
    let mut text = String::from_str("\n");
    text.append(quoted_content);
    text.append("\n");
    text
}

/// The text that the gateway returns for a completion: the quoted message
/// text of its first choice in the envelope; `None` for a completion
/// without a choice.
pub open spec fn completion_text(completion: CompletionView) -> Option<Seq<char>> {
    if completion.choices().len() > 0 {
        Some(envelope_text(quoted(completion.choices()[0].message.content)))
    } else {
        None
    }
}

/// The text that the gateway returns for a completion. A completion without
/// a choice is malformed.
pub fn render_completion(completion: &Completion) -> (r: Result<String, GatewayError>)
    ensures
        match completion_text(completion@) {
            Some(expected) => r matches Ok(text) && text@ == expected,
            None => r matches Err(GatewayError::Malformed),
        },
{
    match completion.first_content() {
        Some(content) => {
            let quoted_content = quote(content.as_str());
            Ok(envelope(quoted_content.as_str()))
        },
        None => Err(GatewayError::Malformed),
    }
}

/// The completion that the bytes `body` of an upstream answer hold: `None`
/// where they are no JSON, or stand for no completion in the dialect of
/// `provider`.
pub open spec fn reply_completion(provider: Provider, body: Seq<u8>) -> Option<CompletionView> {
    match parsed(body) {
        Some(json) => completion_of(provider, json),
        None => None,
    }
}

/// The text that the gateway returns for the bytes `body` of an upstream
/// answer: `None` where they hold no completion, or one without a choice.
pub open spec fn reply_text(provider: Provider, body: Seq<u8>) -> Option<Seq<char>> {
    match reply_completion(provider, body) {
        Some(completion) => completion_text(completion),
        None => None,
    }
}

/// Reads the completion that the bytes of an upstream answer hold. Bytes
/// that hold none are malformed.
pub fn decode_reply(provider: Provider, body: &[u8]) -> (r: Result<Completion, GatewayError>)
    ensures
        match r {
            Ok(completion) => reply_completion(provider, body@) == Some(completion@),
            Err(error) => error is Malformed && reply_completion(provider, body@) is None,
        },
{
    match parse_value(body) {
        Ok(v) => match decode_completion(provider, &v) {
            Some(completion) => Ok(completion),
            None => Err(GatewayError::Malformed),
        },
        Err(_) => Err(GatewayError::Malformed),
    }
}

/// Turns the bytes of an upstream answer into the text that the gateway
/// returns: the quoted message text of the first choice in the envelope.
/// Whatever else the bytes hold is malformed.
pub fn transform(provider: Provider, body: &[u8]) -> (r: Result<String, GatewayError>)
    ensures
        match reply_text(provider, body@) {
            Some(expected) => r matches Ok(text) && text@ == expected,
            None => r matches Err(GatewayError::Malformed),
        },
{
    match decode_reply(provider, body) {
        Ok(completion) => render_completion(&completion),
        Err(_) => Err(GatewayError::Malformed),
    }
}

/// How the call to the upstream ended.
#[derive(Debug)]
pub enum UpstreamOutcome {
    /// No answer came; the text says why.
    Failed(String),
    /// The upstream answered.
    Replied { status: u16, body: Vec<u8> },
}

/// Whether an answer with this status is read as a completion: one
/// provider reads only status 200 so, the other every answer.
pub open spec fn reads_as_completion(provider: Provider, status: u16) -> bool {
    provider == Provider::OpenAiCompatible || status == 200
}

/// Ends the completion pipeline: a failed call is a transport fault with
/// its cause; an answer that is not read as a completion is an upstream
/// fault with its body, unchanged; any other answer is transformed.
pub fn process_post_call(provider: Provider, outcome: UpstreamOutcome) -> (r: Result<
    String,
    GatewayError,
>)
    ensures
        match outcome {
            UpstreamOutcome::Failed(cause) => r matches Err(GatewayError::Transport(text))
                && text@ == cause@,
            UpstreamOutcome::Replied { status, body } => if !reads_as_completion(
                provider,
                status,
            ) {
                r matches Err(GatewayError::UpstreamStatus(bytes)) && bytes@ == body@
            } else {
                match reply_text(provider, body@) {
                    Some(expected) => r matches Ok(text) && text@ == expected,
                    None => r matches Err(GatewayError::Malformed),
                }
            },
        },
{
    match outcome {
        UpstreamOutcome::Failed(cause) => Err(GatewayError::Transport(cause)),
        UpstreamOutcome::Replied { status, body } => {
            match provider {
                Provider::GrokCompatible => {
                    if status != 200 {
                        return Err(GatewayError::UpstreamStatus(body));
                    }
                },
                Provider::OpenAiCompatible => {},
            }
            transform(provider, body.as_slice())
        },
    }
}

/// The reply that the gateway writes when the call to the upstream has
/// ended.
pub open spec fn completion_reply(provider: Provider, outcome: UpstreamOutcome) -> Reply {
    match outcome {
        UpstreamOutcome::Failed(cause) => outcome_reply(Err(GatewayError::Transport(cause))),
        UpstreamOutcome::Replied { status, body } => if !reads_as_completion(provider, status) {
            outcome_reply(Err(GatewayError::UpstreamStatus(body)))
        } else {
            match reply_text(provider, body@) {
                Some(expected) => text_reply(200, expected),
                None => outcome_reply(Err(GatewayError::Malformed)),
            }
        },
    }
}

/// Ends the completion pipeline and writes the response.
pub fn complete(provider: Provider, outcome: UpstreamOutcome) -> (r: GatewayResponse)
    ensures
        r@ == completion_reply(provider, outcome),
{
    respond(process_post_call(provider, outcome))
}

} // verus!
