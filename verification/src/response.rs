//! Reading the generated text out of a reply, whatever shape the reply has.

use vstd::prelude::*;
use crate::json::{Json, JsonView, member, element, text_of};

verus! {

/// The text that stands for a reply without the expected structure.
pub open spec fn fallback_text() -> Seq<char> {
    "No response text found"@
}

/// `member` of a document that may be missing.
pub open spec fn then_member(doc: Option<JsonView>, key: Seq<char>) -> Option<JsonView> {
    match doc {
        Some(d) => member(d, key),
        None => None,
    }
}

/// `element` of a document that may be missing.
pub open spec fn then_element(doc: Option<JsonView>, index: int) -> Option<JsonView> {
    match doc {
        Some(d) => element(d, index),
        None => None,
    }
}

/// `text_of` of a document that may be missing.
pub open spec fn then_text(doc: Option<JsonView>) -> Option<Seq<char>> {
    match doc {
        Some(d) => text_of(d),
        None => None,
    }
}

/// The text at `candidates[0].content.parts[0].text`, where every step of
/// that path exists and the last is a text.
pub open spec fn reply_text(doc: JsonView) -> Option<Seq<char>> {
    let candidates = member(doc, "candidates"@);
    let content = then_member(then_element(candidates, 0), "content"@);
    let parts = then_member(content, "parts"@);
    then_text(then_member(then_element(parts, 0), "text"@))
}

/// The text at `response`, as a local model server replies.
pub open spec fn local_reply_text(doc: JsonView) -> Option<Seq<char>> {
    then_text(member(doc, "response"@))
}

/// What is shown for a reply: its text, or the fallback.
pub open spec fn shown_text(found: Option<Seq<char>>) -> Seq<char> {
    match found {
        Some(t) => t,
        None => fallback_text(),
    }
}

fn find_reply_text(doc: &Json) -> (r: Option<&str>)
    ensures
        match r {
            Some(t) => reply_text(doc@) == Some(t@),
            None => reply_text(doc@) is None,
        },
{
    let candidates = match doc.get_key("candidates") {
        Some(j) => j,
        None => { return None; },
    };
    let first = match candidates.get_index(0) {
        Some(j) => j,
        None => { return None; },
    };
    let content = match first.get_key("content") {
        Some(j) => j,
        None => { return None; },
    };
    let parts = match content.get_key("parts") {
        Some(j) => j,
        None => { return None; },
    };
    let part = match parts.get_index(0) {
        Some(j) => j,
        None => { return None; },
    };
    match part.get_key("text") {
        Some(j) => j.as_str(),
        None => None,
    }
}

fn or_fallback(found: Option<&str>) -> (r: String)
    ensures
        r@ == match found {
            Some(t) => t@,
            None => fallback_text(),
        },
{
    match found {
        Some(t) => t.to_owned(),
        None => "No response text found".to_owned(),
    }
}

/// The generated text of a reply of the remote service. A reply that
/// lacks any step of the path gives the fallback text; no reply is an
/// error.
pub fn extract_text(doc: &Json) -> (r: String)
    ensures
        r@ == shown_text(reply_text(doc@)),
{
    or_fallback(find_reply_text(doc))
}

/// The generated text of a reply of a local model server, or the fallback
/// text.
pub fn extract_local_text(doc: &Json) -> (r: String)
    ensures
        r@ == shown_text(local_reply_text(doc@)),
{
    let found = match doc.get_key("response") {
        Some(j) => j.as_str(),
        None => None,
    };
    or_fallback(found)
}

/// A document that is no object has no reply text: extraction gives the
/// fallback.
pub proof fn lemma_no_object_no_text(doc: JsonView)
    requires
        !(doc is Object),
    ensures
        shown_text(reply_text(doc)) == fallback_text(),
        shown_text(local_reply_text(doc)) == fallback_text(),
{
}

/// An object without members has no reply text: extraction gives the
/// fallback.
pub proof fn lemma_empty_object_no_text()
    ensures
        shown_text(reply_text(JsonView::Object(Seq::empty()))) == fallback_text(),
{
}

} // verus!
