//! The records that an upstream answers with, and how they are read from a
//! JSON value.
//!
//! Each record has a view, and for each a function says which record a JSON
//! value stands for, if any: a member that is missing, or of another type
//! than the record asks for, leaves none.

use crate::json::{
    as_elements, as_integer, as_text, check_number, content, contents, elements, field,
    get_member, integer, optional_content, text, Json,
};
use vstd::prelude::*;

verus! {

/// The text of the member under `key`, where there is one and it is a JSON
/// string.
pub open spec fn text_field(json: Json, key: Seq<char>) -> Option<Seq<char>> {
    match field(json, key) {
        Some(found) => text(found),
        None => None,
    }
}

/// The integer of the member under `key`, where there is one and it is a
/// JSON integer that fits in an `i64`.
pub open spec fn integer_field(json: Json, key: Seq<char>) -> Option<i64> {
    match field(json, key) {
        Some(found) => integer(found),
        None => None,
    }
}

/// The member under `key`, where there is one and it is a JSON number.
pub open spec fn number_field(json: Json, key: Seq<char>) -> Option<Json> {
    match field(json, key) {
        Some(found) => if found is Number {
            Some(found)
        } else {
            None
        },
        None => None,
    }
}

/// Reads the text under `key`.
fn read_text(v: &serde_json::Value, key: &str) -> (r: Option<String>)
    ensures
        match r {
            Some(found) => text_field(content(*v), key@) == Some(found@),
            None => text_field(content(*v), key@) is None,
        },
{
    match get_member(v, key) {
        Some(found) => match as_text(found) {
            Some(chars) => Some(chars.to_owned()),
            None => None,
        },
        None => None,
    }
}

/// Reads the integer under `key`.
fn read_integer(v: &serde_json::Value, key: &str) -> (r: Option<i64>)
    ensures
        r == integer_field(content(*v), key@),
{
    match get_member(v, key) {
        Some(found) => as_integer(found),
        None => None,
    }
}

/// Reads the number under `key`, kept as the JSON value it is.
fn read_number(v: &serde_json::Value, key: &str) -> (r: Option<serde_json::Value>)
    ensures
        optional_content(r) == number_field(content(*v), key@),
{
    match get_member(v, key) {
        Some(found) => if check_number(found) {
            Some(found.clone())
        } else {
            None
        },
        None => None,
    }
}

/// Reads the member under `key`, whatever it is.
fn read_any(v: &serde_json::Value, key: &str) -> (r: Option<serde_json::Value>)
    ensures
        optional_content(r) == field(content(*v), key@),
{
    match get_member(v, key) {
        Some(found) => Some(found.clone()),
        None => None,
    }
}

/// One message of a completion.
#[derive(Default, Debug, PartialEq)]
pub struct Message {
    pub content: String,
    pub role: String,
    /// The member `tool_calls`, where the message has one.
    pub tool_calls: Option<serde_json::Value>,
}

/// A message as a value.
pub struct MessageView {
    pub content: Seq<char>,
    pub role: Seq<char>,
    pub tool_calls: Option<Json>,
}

impl View for Message {
    type V = MessageView;

    open spec fn view(&self) -> MessageView {
        MessageView {
            content: self.content@,
            role: self.role@,
            tool_calls: optional_content(self.tool_calls),
        }
    }
}

/// A copy of an optional JSON value.
fn clone_optional(value: &Option<serde_json::Value>) -> (r: Option<serde_json::Value>)
    ensures
        r == *value,
{
    match value {
        Some(v) => Some(v.clone()),
        None => None,
    }
}

impl Clone for Message {
    fn clone(&self) -> (r: Self)
        ensures
            r@ == self@,
    {
        Message {
            content: self.content.clone(),
            role: self.role.clone(),
            tool_calls: clone_optional(&self.tool_calls),
        }
    }
}

/// The message that `json` stands for: it needs the texts `content` and
/// `role`, and may have a member `tool_calls`.
pub open spec fn message_of(json: Json) -> Option<MessageView> {
    match (text_field(json, "content"@), text_field(json, "role"@)) {
        (Some(content), Some(role)) => Some(
            MessageView { content, role, tool_calls: field(json, "tool_calls"@) },
        ),
        _ => None,
    }
}

/// Reads a message.
pub fn decode_message(v: &serde_json::Value) -> (r: Option<Message>)
    ensures
        match r {
            Some(message) => message_of(content(*v)) == Some(message@),
            None => message_of(content(*v)) is None,
        },
{
    let content = match read_text(v, "content") {
        Some(found) => found,
        None => { return None; },
    };
    let role = match read_text(v, "role") {
        Some(found) => found,
        None => { return None; },
    };
    let tool_calls = read_any(v, "tool_calls");
    Some(Message { content, role, tool_calls })
}

/// One choice of a completion.
#[derive(Default, Debug, PartialEq)]
pub struct Choice {
    pub finish_reason: String,
    pub index: i64,
    pub message: Message,
    /// The member `logprobs`, where the choice has one.
    pub logprobs: Option<serde_json::Value>,
}

/// A choice as a value.
pub struct ChoiceView {
    pub finish_reason: Seq<char>,
    pub index: i64,
    pub message: MessageView,
    pub logprobs: Option<Json>,
}

impl View for Choice {
    type V = ChoiceView;

    open spec fn view(&self) -> ChoiceView {
        ChoiceView {
            finish_reason: self.finish_reason@,
            index: self.index,
            message: self.message@,
            logprobs: optional_content(self.logprobs),
        }
    }
}

impl Clone for Choice {
    fn clone(&self) -> (r: Self)
        ensures
            r@ == self@,
    {
        Choice {
            finish_reason: self.finish_reason.clone(),
            index: self.index,
            message: self.message.clone(),
            logprobs: clone_optional(&self.logprobs),
        }
    }
}

/// The message under `message`, where there is a member and it stands for
/// a message.
pub open spec fn message_field(json: Json) -> Option<MessageView> {
    match field(json, "message"@) {
        Some(found) => message_of(found),
        None => None,
    }
}

/// The choice that `json` stands for: it needs the text `finish_reason`,
/// the integer `index` and a message under `message`, and may have a member
/// `logprobs`.
pub open spec fn choice_of(json: Json) -> Option<ChoiceView> {
    match (text_field(json, "finish_reason"@), integer_field(json, "index"@), message_field(json)) {
        (Some(finish_reason), Some(index), Some(message)) => Some(
            ChoiceView { finish_reason, index, message, logprobs: field(json, "logprobs"@) },
        ),
        _ => None,
    }
}

/// Reads a choice.
pub fn decode_choice(v: &serde_json::Value) -> (r: Option<Choice>)
    ensures
        match r {
            Some(choice) => choice_of(content(*v)) == Some(choice@),
            None => choice_of(content(*v)) is None,
        },
{
    let finish_reason = match read_text(v, "finish_reason") {
        Some(found) => found,
        None => { return None; },
    };
    let index: i64 = match read_integer(v, "index") {
        Some(n) => n,
        None => { return None; },
    };
    let message = match get_member(v, "message") {
        Some(found) => match decode_message(found) {
            Some(message) => message,
            None => { return None; },
        },
        None => { return None; },
    };
    let logprobs = read_any(v, "logprobs");
    Some(Choice { finish_reason, index, message, logprobs })
}

/// Choices as values, in their order.
pub open spec fn choice_views(choices: Seq<Choice>) -> Seq<ChoiceView> {
    Seq::new(choices.len(), |i: int| choices[i]@)
}

/// A copy of a list of choices.
fn clone_choices(choices: &Vec<Choice>) -> (r: Vec<Choice>)
    ensures
        choice_views(r@) == choice_views(choices@),
{
    let mut copies: Vec<Choice> = Vec::new();
    let mut i: usize = 0;
    while i < choices.len()
        invariant
            i <= choices@.len(),
            copies@.len() == i,
            forall|j: int| 0 <= j < i ==> (#[trigger] copies@[j])@ == choices@[j]@,
        decreases choices@.len() - i,
    {
        copies.push(choices[i].clone());
        i = i + 1;
    }
    assert(choice_views(copies@) =~= choice_views(choices@));
    copies
}

/// The choices that `items` stand for, one for one and in their order:
/// `None` where one of them stands for no choice.
pub open spec fn choices_of(items: Seq<Json>) -> Option<Seq<ChoiceView>> {
    if forall|i: int| 0 <= i < items.len() ==> (#[trigger] choice_of(items[i])) is Some {
        Some(Seq::new(items.len(), |i: int| choice_of(items[i])->Some_0))
    } else {
        None
    }
}

/// Reads the choices of a completion.
pub fn decode_choices(items: &Vec<serde_json::Value>) -> (r: Option<Vec<Choice>>)
    ensures
        match r {
            Some(choices) => choices_of(contents(items@)) == Some(choice_views(choices@)),
            None => choices_of(contents(items@)) is None,
        },
{
    let ghost given = contents(items@);
    let mut choices: Vec<Choice> = Vec::new();
    let mut i: usize = 0;
    while i < items.len()
        invariant
            i <= items@.len(),
            choices@.len() == i,
            given == contents(items@),
            forall|j: int| 0 <= j < i ==> (#[trigger] choice_of(given[j])) == Some(choices@[j]@),
        decreases items@.len() - i,
    {
        match decode_choice(&items[i]) {
            Some(choice) => {
                choices.push(choice);
            },
            None => {
                assert(choice_of(given[i as int]) is None);
                return None;
            },
        }
        i = i + 1;
    }
    assert(choices_of(given)->Some_0 =~= choice_views(choices@));
    Some(choices)
}

/// The token counts of a completion.
#[derive(Default, Debug, Clone, Copy, PartialEq)]
pub struct GrokUsage {
    pub completion_tokens: i64,
    pub prompt_tokens: i64,
    pub total_tokens: i64,
}

impl View for GrokUsage {
    type V = GrokUsage;

    open spec fn view(&self) -> GrokUsage {
        *self
    }
}

/// The token counts that `json` stands for: it needs the integers
/// `completion_tokens`, `prompt_tokens` and `total_tokens`.
pub open spec fn grok_usage_of(json: Json) -> Option<GrokUsage> {
    match (
        integer_field(json, "completion_tokens"@),
        integer_field(json, "prompt_tokens"@),
        integer_field(json, "total_tokens"@),
    ) {
        (Some(completion_tokens), Some(prompt_tokens), Some(total_tokens)) => Some(
            GrokUsage { completion_tokens, prompt_tokens, total_tokens },
        ),
        _ => None,
    }
}

/// Reads the token counts.
pub fn decode_grok_usage(v: &serde_json::Value) -> (r: Option<GrokUsage>)
    ensures
        r == grok_usage_of(content(*v)),
{
    let completion_tokens: i64 = match read_integer(v, "completion_tokens") {
        Some(n) => n,
        None => { return None; },
    };
    let prompt_tokens: i64 = match read_integer(v, "prompt_tokens") {
        Some(n) => n,
        None => { return None; },
    };
    let total_tokens: i64 = match read_integer(v, "total_tokens") {
        Some(n) => n,
        None => { return None; },
    };
    Some(GrokUsage { completion_tokens, prompt_tokens, total_tokens })
}

/// The token counts and the throughput of a completion. Each throughput
/// figure is held as the JSON number that came.
#[derive(Default, Debug, PartialEq)]
pub struct Usage {
    pub completion_tokens: i64,
    pub prompt_tokens: i64,
    pub total_tokens: i64,
    pub avg_tok_per_sec: serde_json::Value,
    pub avg_prompt_tok_per_sec: serde_json::Value,
    pub avg_compl_tok_per_sec: serde_json::Value,
    pub total_time_sec: serde_json::Value,
    pub total_prompt_time_sec: serde_json::Value,
    pub total_completion_time_sec: serde_json::Value,
}

/// Token counts and throughput as a value.
pub struct UsageView {
    pub tokens: GrokUsage,
    pub avg_tok_per_sec: Json,
    pub avg_prompt_tok_per_sec: Json,
    pub avg_compl_tok_per_sec: Json,
    pub total_time_sec: Json,
    pub total_prompt_time_sec: Json,
    pub total_completion_time_sec: Json,
}

impl View for Usage {
    type V = UsageView;

    open spec fn view(&self) -> UsageView {
        UsageView {
            tokens: GrokUsage {
                completion_tokens: self.completion_tokens,
                prompt_tokens: self.prompt_tokens,
                total_tokens: self.total_tokens,
            },
            avg_tok_per_sec: content(self.avg_tok_per_sec),
            avg_prompt_tok_per_sec: content(self.avg_prompt_tok_per_sec),
            avg_compl_tok_per_sec: content(self.avg_compl_tok_per_sec),
            total_time_sec: content(self.total_time_sec),
            total_prompt_time_sec: content(self.total_prompt_time_sec),
            total_completion_time_sec: content(self.total_completion_time_sec),
        }
    }
}

impl Clone for Usage {
    fn clone(&self) -> (r: Self)
        ensures
            r@ == self@,
    {
        Usage {
            completion_tokens: self.completion_tokens,
            prompt_tokens: self.prompt_tokens,
            total_tokens: self.total_tokens,
            avg_tok_per_sec: self.avg_tok_per_sec.clone(),
            avg_prompt_tok_per_sec: self.avg_prompt_tok_per_sec.clone(),
            avg_compl_tok_per_sec: self.avg_compl_tok_per_sec.clone(),
            total_time_sec: self.total_time_sec.clone(),
            total_prompt_time_sec: self.total_prompt_time_sec.clone(),
            total_completion_time_sec: self.total_completion_time_sec.clone(),
        }
    }
}

/// The three throughput rates that `json` stands for: it needs the numbers
/// `avg_tok_per_sec`, `avg_prompt_tok_per_sec` and `avg_compl_tok_per_sec`.
pub open spec fn rates_of(json: Json) -> Option<(Json, Json, Json)> {
    match (
        number_field(json, "avg_tok_per_sec"@),
        number_field(json, "avg_prompt_tok_per_sec"@),
        number_field(json, "avg_compl_tok_per_sec"@),
    ) {
        (Some(all), Some(prompt), Some(completion)) => Some((all, prompt, completion)),
        _ => None,
    }
}

/// The three times that `json` stands for: it needs the numbers
/// `total_time_sec`, `total_prompt_time_sec` and
/// `total_completion_time_sec`.
pub open spec fn times_of(json: Json) -> Option<(Json, Json, Json)> {
    match (
        number_field(json, "total_time_sec"@),
        number_field(json, "total_prompt_time_sec"@),
        number_field(json, "total_completion_time_sec"@),
    ) {
        (Some(all), Some(prompt), Some(completion)) => Some((all, prompt, completion)),
        _ => None,
    }
}

/// The token counts and throughput that `json` stands for: it needs the
/// three token counts, the three rates and the three times.
pub open spec fn usage_of(json: Json) -> Option<UsageView> {
    match (grok_usage_of(json), rates_of(json), times_of(json)) {
        (Some(tokens), Some(rates), Some(times)) => Some(
            UsageView {
                tokens,
                avg_tok_per_sec: rates.0,
                avg_prompt_tok_per_sec: rates.1,
                avg_compl_tok_per_sec: rates.2,
                total_time_sec: times.0,
                total_prompt_time_sec: times.1,
                total_completion_time_sec: times.2,
            },
        ),
        _ => None,
    }
}

/// Reads token counts and throughput.
pub fn decode_usage(v: &serde_json::Value) -> (r: Option<Usage>)
    ensures
        match r {
            Some(usage) => usage_of(content(*v)) == Some(usage@),
            None => usage_of(content(*v)) is None,
        },
{
    let tokens = match decode_grok_usage(v) {
        Some(tokens) => tokens,
        None => { return None; },
    };
    let avg_tok_per_sec = match read_number(v, "avg_tok_per_sec") {
        Some(n) => n,
        None => { return None; },
    };
    let avg_prompt_tok_per_sec = match read_number(v, "avg_prompt_tok_per_sec") {
        Some(n) => n,
        None => { return None; },
    };
    let avg_compl_tok_per_sec = match read_number(v, "avg_compl_tok_per_sec") {
        Some(n) => n,
        None => { return None; },
    };
    let total_time_sec = match read_number(v, "total_time_sec") {
        Some(n) => n,
        None => { return None; },
    };
    let total_prompt_time_sec = match read_number(v, "total_prompt_time_sec") {
        Some(n) => n,
        None => { return None; },
    };
    let total_completion_time_sec = match read_number(v, "total_completion_time_sec") {
        Some(n) => n,
        None => { return None; },
    };
    Some(
        Usage {
            completion_tokens: tokens.completion_tokens,
            prompt_tokens: tokens.prompt_tokens,
            total_tokens: tokens.total_tokens,
            avg_tok_per_sec,
            avg_prompt_tok_per_sec,
            avg_compl_tok_per_sec,
            total_time_sec,
            total_prompt_time_sec,
            total_completion_time_sec,
        },
    )
}

/// What the two dialects have in common, but for the usage.
struct Head {
    id: String,
    choices: Vec<Choice>,
    created: i64,
    model: String,
    system_fingerprint: String,
    object: String,
}

/// What the two dialects have in common, as a value.
pub struct HeadView {
    pub id: Seq<char>,
    pub choices: Seq<ChoiceView>,
    pub created: i64,
    pub model: Seq<char>,
    pub system_fingerprint: Seq<char>,
    pub object: Seq<char>,
}

/// A head as a value.
spec fn head_view(head: Head) -> HeadView {
    HeadView {
        id: head.id@,
        choices: choice_views(head.choices@),
        created: head.created,
        model: head.model@,
        system_fingerprint: head.system_fingerprint@,
        object: head.object@,
    }
}

/// The choices under `choices`, where there is an array and each of its
/// elements stands for a choice.
pub open spec fn choices_field(json: Json) -> Option<Seq<ChoiceView>> {
    match field(json, "choices"@) {
        Some(found) => match elements(found) {
            Some(items) => choices_of(items),
            None => None,
        },
        None => None,
    }
}

/// The texts `model`, `system_fingerprint` and `object` of `json`.
pub open spec fn labels_of(json: Json) -> Option<(Seq<char>, Seq<char>, Seq<char>)> {
    match (
        text_field(json, "model"@),
        text_field(json, "system_fingerprint"@),
        text_field(json, "object"@),
    ) {
        (Some(model), Some(system_fingerprint), Some(object)) => Some(
            (model, system_fingerprint, object),
        ),
        _ => None,
    }
}

/// What `json` has of the members that both dialects ask for: the text
/// `id`, an array of choices under `choices`, the integer `created`, and
/// the texts `model`, `system_fingerprint` and `object`.
pub open spec fn head_of(json: Json) -> Option<HeadView> {
    match (
        text_field(json, "id"@),
        choices_field(json),
        integer_field(json, "created"@),
        labels_of(json),
    ) {
        (Some(id), Some(choices), Some(created), Some(labels)) => Some(
            HeadView {
                id,
                choices,
                created,
                model: labels.0,
                system_fingerprint: labels.1,
                object: labels.2,
            },
        ),
        _ => None,
    }
}

/// Reads what the two dialects have in common.
fn decode_head(v: &serde_json::Value) -> (r: Option<Head>)
    ensures
        match r {
            Some(head) => head_of(content(*v)) == Some(head_view(head)),
            None => head_of(content(*v)) is None,
        },
{
    let id = match read_text(v, "id") {
        Some(found) => found,
        None => { return None; },
    };
    let choices = match get_member(v, "choices") {
        Some(found) => match as_elements(found) {
            Some(items) => match decode_choices(items) {
                Some(choices) => choices,
                None => { return None; },
            },
            None => { return None; },
        },
        None => { return None; },
    };
    let created: i64 = match read_integer(v, "created") {
        Some(n) => n,
        None => { return None; },
    };
    let model = match read_text(v, "model") {
        Some(found) => found,
        None => { return None; },
    };
    let system_fingerprint = match read_text(v, "system_fingerprint") {
        Some(found) => found,
        None => { return None; },
    };
    let object = match read_text(v, "object") {
        Some(found) => found,
        None => { return None; },
    };
    Some(Head { id, choices, created, model, system_fingerprint, object })
}

/// A completion in the dialect with throughput figures.
#[derive(Default, Debug, PartialEq)]
pub struct ChatCompletionResponse {
    pub id: String,
    pub choices: Vec<Choice>,
    pub created: i64,
    pub model: String,
    pub system_fingerprint: String,
    pub object: String,
    pub usage: Usage,
}

/// A completion in the dialect with throughput figures, as a value.
pub struct ChatCompletionView {
    pub head: HeadView,
    pub usage: UsageView,
}

impl View for ChatCompletionResponse {
    type V = ChatCompletionView;

    open spec fn view(&self) -> ChatCompletionView {
        ChatCompletionView {
            head: HeadView {
                id: self.id@,
                choices: choice_views(self.choices@),
                created: self.created,
                model: self.model@,
                system_fingerprint: self.system_fingerprint@,
                object: self.object@,
            },
            usage: self.usage@,
        }
    }
}

impl Clone for ChatCompletionResponse {
    fn clone(&self) -> (r: Self)
        ensures
            r@ == self@,
    {
        ChatCompletionResponse {
            id: self.id.clone(),
            choices: clone_choices(&self.choices),
            created: self.created,
            model: self.model.clone(),
            system_fingerprint: self.system_fingerprint.clone(),
            object: self.object.clone(),
            usage: self.usage.clone(),
        }
    }
}

/// The completion with throughput figures that `json` stands for: it needs
/// the members that both dialects ask for, and token counts and throughput
/// under `usage`.
pub open spec fn chat_completion_of(json: Json) -> Option<ChatCompletionView> {
    match (head_of(json), field(json, "usage"@)) {
        (Some(head), Some(found)) => match usage_of(found) {
            Some(usage) => Some(ChatCompletionView { head, usage }),
            None => None,
        },
        _ => None,
    }
}

/// Reads a completion in the dialect with throughput figures.
pub fn decode_chat_completion(v: &serde_json::Value) -> (r: Option<ChatCompletionResponse>)
    ensures
        match r {
            Some(response) => chat_completion_of(content(*v)) == Some(response@),
            None => chat_completion_of(content(*v)) is None,
        },
{
    let head = match decode_head(v) {
        Some(head) => head,
        None => { return None; },
    };
    let usage = match get_member(v, "usage") {
        Some(found) => match decode_usage(found) {
            Some(usage) => usage,
            None => { return None; },
        },
        None => { return None; },
    };
    Some(
        ChatCompletionResponse {
            id: head.id,
            choices: head.choices,
            created: head.created,
            model: head.model,
            system_fingerprint: head.system_fingerprint,
            object: head.object,
            usage,
        },
    )
}

/// A completion in the dialect with token counts only.
#[derive(Default, Debug, PartialEq)]
pub struct GrokResponse {
    pub id: String,
    pub choices: Vec<Choice>,
    pub created: i64,
    pub model: String,
    pub system_fingerprint: String,
    pub object: String,
    pub usage: GrokUsage,
}

/// A completion in the dialect with token counts only, as a value.
pub struct GrokView {
    pub head: HeadView,
    pub usage: GrokUsage,
}

impl View for GrokResponse {
    type V = GrokView;

    open spec fn view(&self) -> GrokView {
        GrokView {
            head: HeadView {
                id: self.id@,
                choices: choice_views(self.choices@),
                created: self.created,
                model: self.model@,
                system_fingerprint: self.system_fingerprint@,
                object: self.object@,
            },
            usage: self.usage,
        }
    }
}

impl Clone for GrokResponse {
    fn clone(&self) -> (r: Self)
        ensures
            r@ == self@,
    {
        GrokResponse {
            id: self.id.clone(),
            choices: clone_choices(&self.choices),
            created: self.created,
            model: self.model.clone(),
            system_fingerprint: self.system_fingerprint.clone(),
            object: self.object.clone(),
            usage: self.usage,
        }
    }
}

/// The completion with token counts only that `json` stands for: it needs
/// the members that both dialects ask for, and token counts under `usage`.
pub open spec fn grok_of(json: Json) -> Option<GrokView> {
    match (head_of(json), field(json, "usage"@)) {
        (Some(head), Some(found)) => match grok_usage_of(found) {
            Some(usage) => Some(GrokView { head, usage }),
            None => None,
        },
        _ => None,
    }
}

/// Reads a completion in the dialect with token counts only.
pub fn decode_grok(v: &serde_json::Value) -> (r: Option<GrokResponse>)
    ensures
        match r {
            Some(response) => grok_of(content(*v)) == Some(response@),
            None => grok_of(content(*v)) is None,
        },
{
    let head = match decode_head(v) {
        Some(head) => head,
        None => { return None; },
    };
    let usage = match get_member(v, "usage") {
        Some(found) => match decode_grok_usage(found) {
            Some(usage) => usage,
            None => { return None; },
        },
        None => { return None; },
    };
    Some(
        GrokResponse {
            id: head.id,
            choices: head.choices,
            created: head.created,
            model: head.model,
            system_fingerprint: head.system_fingerprint,
            object: head.object,
            usage,
        },
    )
}

} // verus!
