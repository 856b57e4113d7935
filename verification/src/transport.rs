//! What surrounds the network call: checking the configuration before it,
//! addressing it, and classifying what came back.

use vstd::prelude::*;
use vstd::string::*;
use crate::json::Json;
use crate::request::RequestDocument;
use crate::text::{
    contains_seq, contains_text, decimal, decimal_text, is_blank, is_blank_text,
    lemma_contains_survives_trim, trim_text, trimmed,
};

verus! {

/// The key and the model that requests are made with.
#[derive(Debug, PartialEq, Eq)]
pub struct ClientConfig {
    pub api_key: String,
    pub model_id: String,
}

/// What is wrong with an API key.
#[derive(Clone, Copy, Debug, PartialEq, Eq, Structural)]
pub enum ConfigError {
    /// The key is empty or white space only.
    EmptyKey,
    /// The key holds one of the known placeholder markers.
    PlaceholderKey,
}

/// Why no reply text came out of a request.
#[derive(Debug, PartialEq, Eq)]
pub enum TransportError {
    /// The key was refused before anything was sent.
    Config(ConfigError),
    /// The service could not be reached; the message says why.
    Network(String),
    /// The service answered with a status that is no success.
    HttpStatus { status: u16, body: String },
    /// The body of the answer is no document.
    Decode(String),
}

/// What the network call brought back.
#[derive(Debug, PartialEq, Eq)]
pub enum TransportReply {
    /// No answer at all, with the reason.
    Unreachable(String),
    /// An answer, with its status code and its body as received.
    Answered { status: u16, body: String },
}

/// What a reply is.
pub enum ReplyView {
    Unreachable(Seq<char>),
    Answered { status: u16, body: Seq<char> },
}

impl View for TransportReply {
    type V = ReplyView;

    open spec fn view(&self) -> ReplyView {
        match self {
            TransportReply::Unreachable(reason) => ReplyView::Unreachable(reason@),
            TransportReply::Answered { status, body } => ReplyView::Answered {
                status: *status,
                body: body@,
            },
        }
    }
}

/// A call that is ready to be made: a POST to `url` with the query
/// parameter `key` set to `api_key`, the JSON content type, and `body`.
#[derive(Debug, PartialEq, Eq)]
pub struct OutboundCall {
    pub url: String,
    pub api_key: String,
    pub body: Json,
}

/// The first placeholder marker.
pub open spec fn placeholder_marker() -> Seq<char> {
    "your-actual-api-key-here"@
}

/// The second placeholder marker.
pub open spec fn placeholder_word() -> Seq<char> {
    "placeholder"@
}

/// What is wrong with a key, if anything: it is blank, or what is left of
/// it without the white space around it holds a placeholder marker.
pub open spec fn key_fault(key: Seq<char>) -> Option<ConfigError> {
    if is_blank(key) {
        Some(ConfigError::EmptyKey)
    } else if contains_seq(trimmed(key), placeholder_marker()) || contains_seq(
        trimmed(key),
        placeholder_word(),
    ) {
        Some(ConfigError::PlaceholderKey)
    } else {
        None
    }
}

/// Where requests for `model` go.
pub open spec fn endpoint(model: Seq<char>) -> Seq<char> {
    "https://generativelanguage.googleapis.com/v1beta/models/"@ + model + ":generateContent"@
}

/// Where requests for a local model server go.
pub open spec fn local_endpoint() -> Seq<char> {
    "http://localhost:11434/api/generate"@
}

/// Whether a status code means success: 200 to 299.
pub open spec fn is_success(status: u16) -> bool {
    200 <= status < 300
}

/// The reason phrase that the `http` crate has for a status code; nothing
/// where it has none, or where the number is no status code for it.
pub uninterp spec fn canonical_reason(status: u16) -> Option<Seq<char>>;

/// A status as it is shown: its number, then its reason phrase.
pub open spec fn status_line(status: u16) -> Seq<char> {
    decimal(status as nat) + " "@ + match canonical_reason(status) {
        Some(reason) => reason,
        None => "<unknown status code>"@,
    }
}

/// What is said of a configuration fault.
pub open spec fn config_message(e: ConfigError) -> Seq<char> {
    match e {
        ConfigError::EmptyKey => "API key is empty. Check your .env file and rebuild."@,
        ConfigError::PlaceholderKey =>
            "API key is still a placeholder. Set a real key in .env and rebuild."@,
    }
}

/// What is said of a failure.
pub open spec fn transport_message(e: TransportError) -> Seq<char> {
    match e {
        TransportError::Config(c) => config_message(c),
        TransportError::Network(reason) => reason@,
        TransportError::HttpStatus { status, body } => "HTTP Error "@ + status_line(status) + ": "@
            + body@,
        TransportError::Decode(reason) => reason@,
    }
}

/// Calls `StatusCode::from_u16` and `StatusCode::canonical_reason` of
/// `reqwest` (its `http`). The result is named `canonical_reason`; a number
/// that `from_u16` refuses has none.
#[verifier::external_body]
fn reason_phrase(status: u16) -> (r: Option<&'static str>)
    ensures
        match r {
            Some(reason) => canonical_reason(status) == Some(reason@),
            None => canonical_reason(status) is None,
        },
{
    match reqwest::StatusCode::from_u16(status) {
        Ok(code) => code.canonical_reason(),
        Err(_) => None,
    }
}

/// A status as it is shown, such as `404 Not Found`.
pub fn status_text(status: u16) -> (r: String)
    ensures
        r@ == status_line(status),
{
    let mut line = decimal_text(status);
    line.append(" ");
    match reason_phrase(status) {
        Some(reason) => line.append(reason),
        None => line.append("<unknown status code>"),
    }
    line
}

impl ConfigError {
    /// What is said of this fault.
    pub fn message(&self) -> (r: &'static str)
        ensures
            r@ == config_message(*self),
    {
        match self {
            ConfigError::EmptyKey => "API key is empty. Check your .env file and rebuild.",
            ConfigError::PlaceholderKey =>
                "API key is still a placeholder. Set a real key in .env and rebuild.",
        }
    }
}

impl TransportError {
    /// What is said of this failure.
    pub fn message(&self) -> (r: String)
        ensures
            r@ == transport_message(*self),
    {
        match self {
            TransportError::Config(c) => c.message().to_owned(),
            TransportError::Network(reason) => reason.clone(),
            TransportError::HttpStatus { status, body } => {
                let mut text = "HTTP Error ".to_owned();
                text.append(status_text(*status).as_str());
                text.append(": ");
                text.append(body.as_str());
                text
            },
            TransportError::Decode(reason) => reason.clone(),
        }
    }
}

/// Checks a key and gives it back without the white space around it.
pub fn validate_key(api_key: &str) -> (r: Result<&str, ConfigError>)
    ensures
        match r {
            Ok(key) => key_fault(api_key@) is None && key@ == trimmed(api_key@),
            Err(e) => key_fault(api_key@) == Some(e),
        },
{
    if is_blank_text(api_key) {
        return Err(ConfigError::EmptyKey);
    }
    let key = trim_text(api_key);
    if contains_text(key, "your-actual-api-key-here") || contains_text(key, "placeholder") {
        return Err(ConfigError::PlaceholderKey);
    }
    Ok(key)
}

/// The address that requests for `model` are posted to.
pub fn endpoint_url(model: &str) -> (r: String)
    ensures
        r@ == endpoint(model@),
{
    let mut url = "https://generativelanguage.googleapis.com/v1beta/models/".to_owned();
    url.append(model);
    url.append(":generateContent");
    url
}

/// The address that requests for a local model server are posted to.
pub fn local_endpoint_url() -> (r: &'static str)
    ensures
        r@ == local_endpoint(),
{
    "http://localhost:11434/api/generate"
}

/// Readies the call for a request. The key is checked first: with a blank
/// key or a placeholder no call comes out, so none can be made.
pub fn prepare_send(document: RequestDocument, config: &ClientConfig) -> (r: Result<
    OutboundCall,
    TransportError,
>)
    ensures
        match r {
            Ok(call) => {
                &&& key_fault(config.api_key@) is None
                &&& call.url@ == endpoint(document.model@)
                &&& call.api_key@ == trimmed(config.api_key@)
                &&& call.body@ == document.body@
            },
            Err(e) => e is Config && key_fault(config.api_key@) == Some(e->Config_0),
        },
{
    match validate_key(config.api_key.as_str()) {
        Ok(key) => Ok(
            OutboundCall {
                url: endpoint_url(document.model.as_str()),
                api_key: key.to_owned(),
                body: document.body,
            },
        ),
        Err(e) => Err(TransportError::Config(e)),
    }
}

/// Whether a status code means success.
pub fn status_is_success(status: u16) -> (r: bool)
    ensures
        r == is_success(status),
{
    200 <= status && status < 300
}

/// What stands for the body of a failed answer that could not be read.
pub open spec fn unread_body() -> Seq<char> {
    "Failed to read error response"@
}

/// What an answer with `status` counts as, once its body was read or could
/// not be read. A body that was read goes with the status. Without one, a
/// failed answer gets a fixed text for its body, and a successful answer
/// counts as no answer, with the reason.
pub open spec fn answer(status: u16, body: Result<Seq<char>, Seq<char>>) -> ReplyView {
    match body {
        Ok(text) => ReplyView::Answered { status, body: text },
        Err(reason) => if is_success(status) {
            ReplyView::Unreachable(reason)
        } else {
            ReplyView::Answered { status, body: unread_body() }
        },
    }
}

/// Makes the reply of an answer and the outcome of reading its body.
pub fn answered(status: u16, body: Result<String, String>) -> (r: TransportReply)
    ensures
        r@ == answer(
            status,
            match body {
                Ok(text) => Ok(text@),
                Err(reason) => Err(reason@),
            },
        ),
{
    match body {
        Ok(text) => TransportReply::Answered { status, body: text },
        Err(reason) => {
            if status_is_success(status) {
                TransportReply::Unreachable(reason)
            } else {
                TransportReply::Answered { status, body: "Failed to read error response".to_owned() }
            }
        },
    }
}

/// Sorts what the call brought back: the body of a successful answer, or
/// the failure. The body of a failed answer is kept as received.
pub fn check_reply(reply: TransportReply) -> (r: Result<String, TransportError>)
    ensures
        match reply {
            TransportReply::Unreachable(reason) => r == Err::<String, TransportError>(
                TransportError::Network(reason),
            ),
            TransportReply::Answered { status, body } => if is_success(status) {
                r == Ok::<String, TransportError>(body)
            } else {
                r == Err::<String, TransportError>(TransportError::HttpStatus { status, body })
            },
        },
{
    match reply {
        TransportReply::Unreachable(reason) => Err(TransportError::Network(reason)),
        TransportReply::Answered { status, body } => {
            if status_is_success(status) {
                Ok(body)
            } else {
                Err(TransportError::HttpStatus { status, body })
            }
        },
    }
}

/// Takes the outcome of decoding a body: the document, or the failure to
/// decode with the decoder's message.
pub fn check_decoded(parsed: Result<Json, String>) -> (r: Result<Json, TransportError>)
    ensures
        match parsed {
            Ok(doc) => r == Ok::<Json, TransportError>(doc),
            Err(reason) => r == Err::<Json, TransportError>(TransportError::Decode(reason)),
        },
{
    match parsed {
        Ok(doc) => Ok(doc),
        Err(reason) => Err(TransportError::Decode(reason)),
    }
}

/// A key that holds a placeholder marker anywhere is never accepted,
/// whatever white space stands around it.
pub proof fn lemma_marker_anywhere_rejected(key: Seq<char>)
    requires
        contains_seq(key, placeholder_marker()) || contains_seq(key, placeholder_word()),
    ensures
        key_fault(key) is Some,
{
    reveal_strlit("your-actual-api-key-here");
    reveal_strlit("placeholder");
    assert(placeholder_marker().first() == 'y' && placeholder_marker().last() == 'e');
    assert(placeholder_word().first() == 'p' && placeholder_word().last() == 'r');
    lemma_contains_survives_trim(key, placeholder_marker());
    lemma_contains_survives_trim(key, placeholder_word());
}

/// A key is accepted exactly if it is not blank and holds no placeholder
/// marker.
pub proof fn lemma_key_accepted(key: Seq<char>)
    ensures
        key_fault(key) is None <==> !is_blank(key) && !contains_seq(key, placeholder_marker())
            && !contains_seq(key, placeholder_word()),
{
    reveal_strlit("your-actual-api-key-here");
    reveal_strlit("placeholder");
    assert(placeholder_marker().first() == 'y' && placeholder_marker().last() == 'e');
    assert(placeholder_word().first() == 'p' && placeholder_word().last() == 'r');
    lemma_contains_survives_trim(key, placeholder_marker());
    lemma_contains_survives_trim(key, placeholder_word());
}

/// A blank key is reported as empty.
pub proof fn lemma_blank_key_rejected(key: Seq<char>)
    requires
        is_blank(key),
    ensures
        key_fault(key) == Some(ConfigError::EmptyKey),
{
}

} // verus!
