//! The work of one request, step by step, and the single text that comes
//! out of it: the reply, or a failure marked as such.

use vstd::prelude::*;
use vstd::string::*;
use crate::attachment::{encode_image, encoded_image, EncodeError, EncodeFault, ImagePayload};
use crate::history::{turn_views, ConversationTurn};
use crate::json::Json;
use crate::request::{build_request, request_body};
use crate::response::{extract_text, reply_text, shown_text};
use crate::text::{has_prefix, starts_with_text, trimmed};
use crate::transport::{
    check_decoded, check_reply, endpoint, is_success, key_fault, prepare_send, transport_message, ClientConfig,
    OutboundCall, TransportError, TransportReply,
};

verus! {

/// Why a request gave no reply text.
#[derive(Debug, PartialEq, Eq)]
pub enum RequestError {
    Encode(EncodeError),
    Transport(TransportError),
}

/// What a request is made of: the prompt, the image that goes with it, and
/// the window of the history, all taken when the request was started.
#[derive(Debug, PartialEq, Eq)]
pub struct DispatchOrder {
    pub prompt: String,
    pub image: Option<ImagePayload>,
    pub history: Vec<ConversationTurn>,
}

/// The instruction that every full request begins with.
pub open spec fn system_instruction() -> Seq<char> {
    "You are a helpful assistant inside a desktop application. Answer clearly and concisely."@
}

/// What marks a text as a failure.
pub open spec fn error_prefix() -> Seq<char> {
    "Error: "@
}

/// What is said of an image that could not be encoded.
pub open spec fn encode_message(e: EncodeFault) -> Seq<char> {
    match e {
        EncodeFault::SizeMismatch => "Failed to create image buffer from RGBA data"@,
        EncodeFault::Encoder(reason) => reason,
    }
}

/// What is said of a failed request.
pub open spec fn request_message(e: RequestError) -> Seq<char> {
    match e {
        RequestError::Encode(e) => encode_message(e@),
        RequestError::Transport(e) => transport_message(e),
    }
}

/// The one text that a finished request hands over: the reply as it is, or
/// the failure's message behind the marker.
pub open spec fn outcome(result: Result<String, RequestError>) -> Seq<char> {
    match result {
        Ok(text) => text@,
        Err(e) => error_prefix() + request_message(e),
    }
}

/// Whether a text is marked as a failure.
pub open spec fn is_marked(text: Seq<char>) -> bool {
    has_prefix(text, error_prefix())
}

/// The wire form of the image of an order: none where it has no image,
/// else what encoding the image gives.
pub open spec fn order_image(image: Option<ImagePayload>) -> Result<Option<Seq<char>>, EncodeFault> {
    match image {
        None => Ok(None),
        Some(img) => match encoded_image(img.width, img.height, img.pixels@) {
            Ok(text) => Ok(Some(text)),
            Err(e) => Err(e),
        },
    }
}

/// The instruction that every full request begins with.
pub fn system_instruction_text() -> (r: &'static str)
    ensures
        r@ == system_instruction(),
{
    "You are a helpful assistant inside a desktop application. Answer clearly and concisely."
}

impl RequestError {
    /// What is said of this failure.
    pub fn message(&self) -> (r: String)
        ensures
            r@ == request_message(*self),
    {
        match self {
            RequestError::Encode(EncodeError::SizeMismatch) =>
                "Failed to create image buffer from RGBA data".to_owned(),
            RequestError::Encode(EncodeError::Encoder(reason)) => reason.clone(),
            RequestError::Transport(e) => e.message(),
        }
    }
}

/// Readies the call for an order: checks the key, encodes the image if
/// there is one, and builds the body, in that order. The first step that
/// fails gives the error.
pub fn prepare_request(order: &DispatchOrder, config: &ClientConfig) -> (r: Result<
    OutboundCall,
    RequestError,
>)
    ensures
        match r {
            Ok(call) => {
                &&& key_fault(config.api_key@) is None
                &&& order_image(order.image) is Ok
                &&& call.url@ == endpoint(config.model_id@)
                &&& call.api_key@ == trimmed(config.api_key@)
                &&& call.body@ == request_body(
                    order.prompt@,
                    order_image(order.image)->Ok_0,
                    turn_views(order.history@),
                    system_instruction(),
                )
            },
            Err(RequestError::Transport(e)) => {
                &&& e is Config
                &&& key_fault(config.api_key@) == Some(e->Config_0)
            },
            Err(RequestError::Encode(e)) => {
                &&& key_fault(config.api_key@) is None
                &&& order_image(order.image) == Err::<Option<Seq<char>>, EncodeFault>(e@)
            },
        },
{
    if let Err(e) = crate::transport::validate_key(config.api_key.as_str()) {
        return Err(RequestError::Transport(TransportError::Config(e)));
    }
    let encoded: Option<String> = match &order.image {
        Some(img) => match encode_image(img) {
            Ok(text) => Some(text),
            Err(e) => { return Err(RequestError::Encode(e)); },
        },
        None => None,
    };
    let image: Option<&str> = match &encoded {
        Some(text) => Some(text.as_str()),
        None => None,
    };
    let document = build_request(
        order.prompt.as_str(),
        config.model_id.as_str(),
        image,
        order.history.as_slice(),
        system_instruction_text(),
    );
    match prepare_send(document, config) {
        Ok(call) => Ok(call),
        Err(e) => Err(RequestError::Transport(e)),
    }
}

/// Sorts what the call brought back: the body of a successful answer, or
/// the failure.
pub fn receive(reply: TransportReply) -> (r: Result<String, RequestError>)
    ensures
        match reply {
            TransportReply::Unreachable(reason) => r == Err::<String, RequestError>(
                RequestError::Transport(TransportError::Network(reason)),
            ),
            TransportReply::Answered { status, body } => if is_success(status) {
                r == Ok::<String, RequestError>(body)
            } else {
                r == Err::<String, RequestError>(
                    RequestError::Transport(TransportError::HttpStatus { status, body }),
                )
            },
        },
{
    match check_reply(reply) {
        Ok(body) => Ok(body),
        Err(e) => Err(RequestError::Transport(e)),
    }
}

/// Reads the reply text out of a decoded body. A body that could not be
/// decoded is a failure; a document of any shape is not.
pub fn read_document(parsed: Result<Json, String>) -> (r: Result<String, RequestError>)
    ensures
        match parsed {
            Ok(doc) => r is Ok && r->Ok_0@ == shown_text(reply_text(doc@)),
            Err(reason) => r == Err::<String, RequestError>(
                RequestError::Transport(TransportError::Decode(reason)),
            ),
        },
{
    match check_decoded(parsed) {
        Ok(doc) => Ok(extract_text(&doc)),
        Err(e) => Err(RequestError::Transport(e)),
    }
}

/// Folds the result of a request into the one text that is handed over.
pub fn outcome_text(result: Result<String, RequestError>) -> (r: String)
    ensures
        r@ == outcome(result),
{
    match result {
        Ok(text) => text,
        Err(e) => {
            let mut text = "Error: ".to_owned();
            text.append(e.message().as_str());
            text
        },
    }
}

/// What is said of a request whose worker ended without a result.
pub open spec fn lost_worker_message() -> Seq<char> {
    "the worker stopped before it answered"@
}

/// The text that is handed over for a request whose worker ended without a
/// result: a failure like any other, so that the request still resolves.
pub fn lost_worker_text() -> (r: String)
    ensures
        r@ == error_prefix() + lost_worker_message(),
        is_marked(r@),
{
    let mut text = "Error: ".to_owned();
    text.append("the worker stopped before it answered");
    proof {
        assert((error_prefix() + lost_worker_message()).subrange(0, error_prefix().len() as int)
            =~= error_prefix());
    }
    text
}

/// Whether a text is marked as a failure.
pub fn is_error_marker(text: &str) -> (r: bool)
    ensures
        r == is_marked(text@),
{
    starts_with_text(text, "Error: ")
}

/// Every failure is handed over as a marked text.
pub proof fn lemma_failure_is_marked(e: RequestError)
    ensures
        is_marked(outcome(Err(e))),
{
    let m = request_message(e);
    assert((error_prefix() + m).subrange(0, error_prefix().len() as int) =~= error_prefix());
}

/// A reply is handed over as it is.
pub proof fn lemma_reply_is_kept(text: String)
    ensures
        outcome(Ok(text)) == text@,
{
}

} // verus!
