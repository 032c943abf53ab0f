//! What the gateway is started with: the configuration, the log level and
//! the bearer token as it is read from the secret file.

use vstd::prelude::*;
use vstd::string::StringExecFns;

verus! {

/// How much the gateway logs.
#[derive(Clone, Copy, Debug, PartialEq, Eq, Structural)]
pub enum LogLevel {
    Info,
    Debug,
    Trace,
}

/// The log level that a configured text stands for: `debug` and `trace`
/// for themselves, every other text for `Info`.
pub open spec fn log_level_for(text: Seq<char>) -> LogLevel {
    if text == "debug"@ {
        LogLevel::Debug
    } else if text == "trace"@ {
        LogLevel::Trace
    } else {
        LogLevel::Info
    }
}

/// Reads the configured log level.
pub fn log_level_of(text: &str) -> (r: LogLevel)
    ensures
        r == log_level_for(text@),
{
    let given: String = text.to_owned();
    if given == "debug".to_owned() {
        LogLevel::Debug
    } else if given == "trace".to_owned() {
        LogLevel::Trace
    } else {
        LogLevel::Info
    }
}

/// Whether `char::is_whitespace` holds of `c`: whether Unicode gives it the
/// property `White_Space`.
pub uninterp spec fn white_space(c: char) -> bool;

/// `char::is_whitespace`. Nothing is proved of it: `white_space` is the
/// name of what it returns.
#[verifier::external_body]
fn is_white_space(c: char) -> (r: bool)
    ensures
        r == white_space(c),
{
    c.is_whitespace()
}

/// `String::push`. Nothing is proved of it: it adds the character at the
/// end.
#[verifier::external_body]
fn push_char(text: &mut String, c: char)
    ensures
        final(text)@ == old(text)@.push(c),
{
    text.push(c)
}

/// `text` without the white space it begins with.
pub open spec fn trim_start(text: Seq<char>) -> Seq<char>
    decreases text.len(),
{
    if text.len() > 0 && white_space(text.first()) {
        trim_start(text.drop_first())
    } else {
        text
    }
}

/// `text` without the white space it ends with.
pub open spec fn trim_end(text: Seq<char>) -> Seq<char>
    decreases text.len(),
{
    if text.len() > 0 && white_space(text.last()) {
        trim_end(text.drop_last())
    } else {
        text
    }
}

/// `text` without its line feeds.
pub open spec fn without_line_feeds(text: Seq<char>) -> Seq<char>
    decreases text.len(),
{
    if text.len() == 0 {
        text
    } else if text.last() == '\n' {
        without_line_feeds(text.drop_last())
    } else {
        without_line_feeds(text.drop_last()).push(text.last())
    }
}

/// The bearer token that the content of a secret file stands for: the
/// content without the white space around it and without line feeds.
pub open spec fn bearer_token_for(content: Seq<char>) -> Seq<char> {
    without_line_feeds(trim_end(trim_start(content)))
}

/// A text that begins with `from` white-space characters and goes on with
/// another character, or ends there, is trimmed to what follows them.
proof fn lemma_trim_start(text: Seq<char>, from: int)
    requires
        0 <= from <= text.len(),
        forall|j: int| 0 <= j < from ==> white_space(#[trigger] text[j]),
        from < text.len() ==> !white_space(text[from]),
    ensures
        trim_start(text) == text.skip(from),
    decreases from,
{
    if from == 0 {
        assert(text.skip(0) =~= text);
    } else {
        let rest = text.drop_first();
        assert forall|j: int| 0 <= j < from - 1 implies white_space(#[trigger] rest[j]) by {
            assert(rest[j] == text[j + 1]);
        }
        lemma_trim_start(rest, from - 1);
        assert(rest.skip(from - 1) =~= text.skip(from));
    }
}

/// A text that ends with white space from `to` on, after another character
/// or from its start, is trimmed to what comes before.
proof fn lemma_trim_end(text: Seq<char>, to: int)
    requires
        0 <= to <= text.len(),
        forall|j: int| to <= j < text.len() ==> white_space(#[trigger] text[j]),
        0 < to ==> !white_space(text[to - 1]),
    ensures
        trim_end(text) == text.take(to),
    decreases text.len() - to,
{
    if to == text.len() {
        assert(text.take(to) =~= text);
    } else {
        let rest = text.drop_last();
        lemma_trim_end(rest, to);
        assert(rest.take(to) =~= text.take(to));
    }
}

/// Collects the characters of a text.
fn chars_of(text: &str) -> (r: Vec<char>)
    ensures
        r@ == text@,
{
    broadcast use vstd::string::group_string_axioms;

    let mut chars: Vec<char> = Vec::new();
    for c in it: text.chars()
        invariant
            it.seq() == text@,
            chars@ == it.seq().take(it.index() as int),
    {
        chars.push(c);
    }
    chars
}

/// The bearer token in the content of a secret file: the content without
/// the white space around it and without line feeds.
pub fn bearer_token_of(content: &str) -> (r: String)
    ensures
        r@ == bearer_token_for(content@),
{
    let chars = chars_of(content);
    let mut from: usize = 0;
    while from < chars.len() && is_white_space(chars[from])
        invariant
            from <= chars@.len(),
            forall|j: int| 0 <= j < from ==> white_space(#[trigger] chars@[j]),
        decreases chars@.len() - from,
    {
        from = from + 1;
    }
    let mut to: usize = chars.len();
    while to > from && is_white_space(chars[to - 1])
        invariant
            from <= to <= chars@.len(),
            forall|j: int| to <= j < chars@.len() ==> white_space(#[trigger] chars@[j]),
        decreases to,
    {
        to = to - 1;
    }
    let ghost kept = chars@.subrange(from as int, to as int);
    proof {
        lemma_trim_start(chars@, from as int);
        let rest = chars@.skip(from as int);
        assert forall|j: int| to - from <= j < rest.len() implies white_space(
            #[trigger] rest[j],
        ) by {
            assert(rest[j] == chars@[j + from]);
        }
        if to > from {
            assert(rest[to - from - 1] == chars@[to - 1]);
        }
        lemma_trim_end(rest, to - from);
        assert(rest.take(to - from) =~= kept);
    }
    let mut token = String::new();
    let mut i: usize = from;
    while i < to
        invariant
            from <= i <= to <= chars@.len(),
            token@ == without_line_feeds(chars@.subrange(from as int, i as int)),
        decreases to - i,
    {
        proof {
            let next = chars@.subrange(from as int, i + 1);
            assert(next.drop_last() =~= chars@.subrange(from as int, i as int));
            assert(next.last() == chars@[i as int]);
        }
        if chars[i] != '\n' {
            push_char(&mut token, chars[i]);
        }
        i = i + 1;
    }
    token
}

/// The configuration of a gateway. It is not changed once the gateway
/// serves.
#[derive(Debug)]
pub struct Config {
    pub base_url: String,
    pub bearer_token: String,
    pub server_port: usize,
    pub log_level: LogLevel,
}

/// The port that the listener binds for a configured port: the configured
/// number where it is a port, else what is left of it modulo 65536.
pub fn listen_port(server_port: usize) -> (port: u16)
    ensures
        port == server_port % 0x1_0000,
{
    (server_port % 0x1_0000) as u16
}

/// The pairs that the secret store is populated with: the bearer token
/// under `api_key` and the upstream's address under `base_url`.
pub fn secret_pairs(config: &Config) -> (pairs: Vec<(String, String)>)
    ensures
        pairs@.len() == 2,
        pairs@[0].0@ == "api_key"@,
        pairs@[0].1@ == config.bearer_token@,
        pairs@[1].0@ == "base_url"@,
        pairs@[1].1@ == config.base_url@,
{
    let mut pairs: Vec<(String, String)> = Vec::new();
    pairs.push((String::from_str("api_key"), config.bearer_token.clone()));
    pairs.push((String::from_str("base_url"), config.base_url.clone()));
    pairs
}

} // verus!
