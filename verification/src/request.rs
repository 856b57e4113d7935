//! Building the body of a request: the system instruction, the windowed
//! history, the new prompt with its optional image, and the tools.

use vstd::prelude::*;
use crate::history::{ConversationTurn, Speaker, TurnView, turn_views};
use crate::json::{FieldView, Json, JsonField, JsonView};

verus! {

/// A request ready to be sent: the model it is for and its body.
#[derive(Debug, PartialEq, Eq)]
pub struct RequestDocument {
    pub model: String,
    pub body: Json,
}

/// An object with one member.
pub open spec fn object_of_one(name: Seq<char>, value: JsonView) -> JsonView {
    JsonView::Object(seq![FieldView { name, value }])
}

/// An object with two members, in this order.
pub open spec fn object_of_two(
    first: Seq<char>,
    a: JsonView,
    second: Seq<char>,
    b: JsonView,
) -> JsonView {
    JsonView::Object(seq![FieldView { name: first, value: a }, FieldView { name: second, value: b }])
}

/// The name of a speaker on the wire.
pub open spec fn wire_role(role: Speaker) -> Seq<char> {
    match role {
        Speaker::User => "user"@,
        Speaker::Model => "model"@,
    }
}

/// A part that carries text: `{"text": t}`.
pub open spec fn text_part(t: Seq<char>) -> JsonView {
    object_of_one("text"@, JsonView::Text(t))
}

/// A part that carries a PNG image as base64 text:
/// `{"inline_data": {"mime_type": "image/png", "data": d}}`.
pub open spec fn image_part(data: Seq<char>) -> JsonView {
    object_of_one(
        "inline_data"@,
        object_of_two(
            "mime_type"@,
            JsonView::Text("image/png"@),
            "data"@,
            JsonView::Text(data),
        ),
    )
}

/// A record of the contents: `{"parts": [...], "role": r}`.
pub open spec fn record(parts: Seq<JsonView>, role: Speaker) -> JsonView {
    object_of_two("parts"@, JsonView::Array(parts), "role"@, JsonView::Text(wire_role(role)))
}

/// The record of an earlier turn: its text as the one part.
pub open spec fn turn_record(turn: TurnView) -> JsonView {
    record(seq![text_part(turn.content)], turn.role)
}

/// The parts of the new turn: the image, where there is one, then the
/// prompt.
pub open spec fn prompt_parts(prompt: Seq<char>, image: Option<Seq<char>>) -> Seq<JsonView> {
    match image {
        Some(data) => seq![image_part(data), text_part(prompt)],
        None => seq![text_part(prompt)],
    }
}

/// The contents of a request: the history's records in order, then the
/// new turn, spoken by the user.
pub open spec fn contents(
    prompt: Seq<char>,
    image: Option<Seq<char>>,
    history: Seq<TurnView>,
) -> Seq<JsonView> {
    Seq::new(history.len(), |i: int| turn_record(history[i])).push(
        record(prompt_parts(prompt, image), Speaker::User),
    )
}

/// The tools that every full request offers:
/// `[{"googleSearch": {}}, {"urlContext": {}}]`.
pub open spec fn tools() -> JsonView {
    JsonView::Array(
        seq![
            object_of_one("googleSearch"@, JsonView::Object(Seq::empty())),
            object_of_one("urlContext"@, JsonView::Object(Seq::empty())),
        ],
    )
}

/// The body of a full request.
pub open spec fn request_body(
    prompt: Seq<char>,
    image: Option<Seq<char>>,
    history: Seq<TurnView>,
    system_instruction: Seq<char>,
) -> JsonView {
    JsonView::Object(
        seq![
            FieldView {
                name: "system_instruction"@,
                value: object_of_one("parts"@, JsonView::Array(seq![text_part(system_instruction)])),
            },
            FieldView { name: "contents"@, value: JsonView::Array(contents(prompt, image, history)) },
            FieldView { name: "tools"@, value: tools() },
        ],
    )
}

/// The body of a request without history, instruction and tools:
/// `{"contents": [{"parts": [...]}]}`.
pub open spec fn minimal_body(prompt: Seq<char>, image: Option<Seq<char>>) -> JsonView {
    object_of_one(
        "contents"@,
        JsonView::Array(seq![object_of_one("parts"@, JsonView::Array(prompt_parts(prompt, image)))]),
    )
}

/// The body for a local model server:
/// `{"model": m, "prompt": p, "stream": false}`.
pub open spec fn local_body(prompt: Seq<char>, model: Seq<char>) -> JsonView {
    JsonView::Object(
        seq![
            FieldView { name: "model"@, value: JsonView::Text(model) },
            FieldView { name: "prompt"@, value: JsonView::Text(prompt) },
            FieldView { name: "stream"@, value: JsonView::Bool(false) },
        ],
    )
}

fn field(name: &str, value: Json) -> (r: JsonField)
    ensures
        r@ == (FieldView { name: name@, value: value@ }),
{
    JsonField { name: name.to_owned(), value }
}

fn array_of_one(a: Json) -> (r: Json)
    ensures
        r@ == JsonView::Array(seq![a@]),
{
    let mut items: Vec<Json> = Vec::new();
    items.push(a);
    let r = Json::array(items);
    assert(r@->Array_0 =~= seq![a@]);
    r
}

fn array_of_two(a: Json, b: Json) -> (r: Json)
    ensures
        r@ == JsonView::Array(seq![a@, b@]),
{
    let mut items: Vec<Json> = Vec::new();
    items.push(a);
    items.push(b);
    let r = Json::array(items);
    assert(r@->Array_0 =~= seq![a@, b@]);
    r
}

fn pair(first: &str, a: Json, second: &str, b: Json) -> (r: Json)
    ensures
        r@ == object_of_two(first@, a@, second@, b@),
{
    let mut fields: Vec<JsonField> = Vec::new();
    fields.push(field(first, a));
    fields.push(field(second, b));
    let r = Json::object(fields);
    assert(r@->Object_0 =~= seq![
        FieldView { name: first@, value: a@ },
        FieldView { name: second@, value: b@ },
    ]);
    r
}

fn empty_object() -> (r: Json)
    ensures
        r@ == JsonView::Object(Seq::empty()),
{
    let r = Json::object(Vec::new());
    assert(r@->Object_0 =~= Seq::<FieldView>::empty());
    r
}

/// The name of a speaker on the wire: `user` or `model`.
pub fn wire_name(role: Speaker) -> (r: &'static str)
    ensures
        r@ == wire_role(role),
{
    match role {
        Speaker::User => "user",
        Speaker::Model => "model",
    }
}

fn make_text_part(t: &str) -> (r: Json)
    ensures
        r@ == text_part(t@),
{
    Json::single("text", Json::text(t))
}

fn make_image_part(data: &str) -> (r: Json)
    ensures
        r@ == image_part(data@),
{
    Json::single(
        "inline_data",
        pair("mime_type", Json::text("image/png"), "data", Json::text(data)),
    )
}

fn make_prompt_parts(prompt: &str, image: Option<&str>) -> (r: Json)
    ensures
        r@ == JsonView::Array(
            prompt_parts(
                prompt@,
                match image {
                    Some(d) => Some(d@),
                    None => None,
                },
            ),
        ),
{
    match image {
        Some(data) => array_of_two(make_image_part(data), make_text_part(prompt)),
        None => array_of_one(make_text_part(prompt)),
    }
}

fn make_record(parts: Json, role: Speaker) -> (r: Json)
    requires
        parts@ is Array,
    ensures
        r@ == record(parts@->Array_0, role),
{
    pair("parts", parts, "role", Json::text(wire_name(role)))
}

fn make_contents(prompt: &str, image: Option<&str>, history: &[ConversationTurn]) -> (r: Json)
    ensures
        r@ == JsonView::Array(
            contents(
                prompt@,
                match image {
                    Some(d) => Some(d@),
                    None => None,
                },
                turn_views(history@),
            ),
        ),
{
    let ghost image_view: Option<Seq<char>> = match image {
        Some(d) => Some(d@),
        None => None,
    };
    let mut items: Vec<Json> = Vec::new();
    let mut i: usize = 0;
    while i < history.len()
        invariant
            0 <= i <= history.len(),
            items@.len() == i,
            forall|j: int| 0 <= j < i ==> (#[trigger] items@[j])@ == turn_record(history@[j]@),
        decreases history.len() - i,
    {
        let turn = &history[i];
        let parts = array_of_one(make_text_part(turn.content()));
        items.push(make_record(parts, turn.role()));
        i += 1;
    }
    items.push(make_record(make_prompt_parts(prompt, image), Speaker::User));
    let r = Json::array(items);
    assert(r@->Array_0 =~= contents(prompt@, image_view, turn_views(history@)));
    r
}

/// Builds the full request: the fixed system instruction, one record for
/// each turn of `history` in its order, the new turn with the image part
/// before the text part, and the tools. Nothing else happens.
pub fn build_request(
    prompt: &str,
    model: &str,
    image: Option<&str>,
    history: &[ConversationTurn],
    system_instruction: &str,
) -> (r: RequestDocument)
    ensures
        r.model@ == model@,
        r.body@ == request_body(
            prompt@,
            match image {
                Some(d) => Some(d@),
                None => None,
            },
            turn_views(history@),
            system_instruction@,
        ),
{
    let instruction = Json::single("parts", array_of_one(make_text_part(system_instruction)));
    let tools = array_of_two(
        Json::single("googleSearch", empty_object()),
        Json::single("urlContext", empty_object()),
    );
    let mut fields: Vec<JsonField> = Vec::new();
    fields.push(field("system_instruction", instruction));
    fields.push(field("contents", make_contents(prompt, image, history)));
    fields.push(field("tools", tools));
    let ghost made = fields@;
    let body = Json::object(fields);
    assert(body@->Object_0 =~= seq![made[0]@, made[1]@, made[2]@]);
    RequestDocument { model: model.to_owned(), body }
}

/// Builds the request without history, instruction and tools.
pub fn build_minimal_request(prompt: &str, model: &str, image: Option<&str>) -> (r: RequestDocument)
    ensures
        r.model@ == model@,
        r.body@ == minimal_body(
            prompt@,
            match image {
                Some(d) => Some(d@),
                None => None,
            },
        ),
{
    let turn = Json::single("parts", make_prompt_parts(prompt, image));
    let body = Json::single("contents", array_of_one(turn));
    RequestDocument { model: model.to_owned(), body }
}

/// Builds the request for a local model server, which takes text only and
/// answers in one piece.
pub fn build_local_request(prompt: &str, model: &str) -> (r: RequestDocument)
    ensures
        r.model@ == model@,
        r.body@ == local_body(prompt@, model@),
{
    let mut fields: Vec<JsonField> = Vec::new();
    fields.push(field("model", Json::text(model)));
    fields.push(field("prompt", Json::text(prompt)));
    fields.push(field("stream", Json::Bool(false)));
    let ghost made = fields@;
    let body = Json::object(fields);
    assert(body@->Object_0 =~= seq![made[0]@, made[1]@, made[2]@]);
    RequestDocument { model: model.to_owned(), body }
}

/// The contents hold one record for each turn of the history and one for
/// the new prompt, which comes last.
pub proof fn lemma_contents_shape(
    prompt: Seq<char>,
    image: Option<Seq<char>>,
    history: Seq<TurnView>,
)
    ensures
        contents(prompt, image, history).len() == history.len() + 1,
        contents(prompt, image, history).last() == record(
            prompt_parts(prompt, image),
            Speaker::User,
        ),
        forall|i: int|
            0 <= i < history.len() ==> #[trigger] contents(prompt, image, history)[i]
                == turn_record(history[i]),
{
}

/// In the new turn the image part, where there is one, stands before the
/// text part, and the text part is last.
pub proof fn lemma_image_precedes_text(prompt: Seq<char>, image: Option<Seq<char>>)
    ensures
        prompt_parts(prompt, image).last() == text_part(prompt),
        image is Some ==> prompt_parts(prompt, image).len() == 2 && prompt_parts(
            prompt,
            image,
        )[0] == image_part(image->0),
        image is None ==> prompt_parts(prompt, image).len() == 1,
{
}

} // verus!
