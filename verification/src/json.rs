//! A loosely-typed document in the shape of JSON, as the service's replies
//! and the request bodies are.

use vstd::prelude::*;

verus! {

/// A document. Numbers are kept as their decimal text.
#[derive(Debug, PartialEq, Eq)]
pub enum Json {
    Null,
    Bool(bool),
    Number(String),
    Text(String),
    Array(Vec<Json>),
    Object(Vec<JsonField>),
}

/// One named member of an object.
#[derive(Debug, PartialEq, Eq)]
pub struct JsonField {
    pub name: String,
    pub value: Json,
}

/// What a document is: the same tree over sequences.
pub enum JsonView {
    Null,
    Bool(bool),
    Number(Seq<char>),
    Text(Seq<char>),
    Array(Seq<JsonView>),
    Object(Seq<FieldView>),
}

/// What a member is: its name and its value.
pub struct FieldView {
    pub name: Seq<char>,
    pub value: JsonView,
}

impl View for Json {
    type V = JsonView;

    open spec fn view(&self) -> JsonView
        decreases self,
    {
        match self {
            Json::Null => JsonView::Null,
            Json::Bool(b) => JsonView::Bool(*b),
            Json::Number(n) => JsonView::Number(n@),
            Json::Text(t) => JsonView::Text(t@),
            Json::Array(items) => JsonView::Array(
                Seq::new(
                    items@.len(),
                    |i: int|
                        if 0 <= i < items@.len() {
                            items@[i].view()
                        } else {
                            JsonView::Null
                        },
                ),
            ),
            Json::Object(fields) => JsonView::Object(
                Seq::new(
                    fields@.len(),
                    |i: int|
                        if 0 <= i < fields@.len() {
                            fields@[i].view()
                        } else {
                            FieldView { name: Seq::empty(), value: JsonView::Null }
                        },
                ),
            ),
        }
    }
}

impl View for JsonField {
    type V = FieldView;

    open spec fn view(&self) -> FieldView
        decreases self,
    {
        FieldView { name: self.name@, value: self.value.view() }
    }
}

/// The value of the last of `fields` named `key`.
pub open spec fn lookup(fields: Seq<FieldView>, key: Seq<char>) -> Option<JsonView>
    decreases fields.len(),
{
    if fields.len() == 0 {
        None
    } else if fields.last().name == key {
        Some(fields.last().value)
    } else {
        lookup(fields.drop_last(), key)
    }
}

/// The member `key` of an object; nothing for any other document and for
/// an object without that member.
pub open spec fn member(doc: JsonView, key: Seq<char>) -> Option<JsonView> {
    match doc {
        JsonView::Object(fields) => lookup(fields, key),
        _ => None,
    }
}

/// The item at `index` of an array; nothing for any other document and
/// for an index past the end.
pub open spec fn element(doc: JsonView, index: int) -> Option<JsonView> {
    match doc {
        JsonView::Array(items) => if 0 <= index < items.len() {
            Some(items[index])
        } else {
            None
        },
        _ => None,
    }
}

/// The text of a text document; nothing for any other.
pub open spec fn text_of(doc: JsonView) -> Option<Seq<char>> {
    match doc {
        JsonView::Text(t) => Some(t),
        _ => None,
    }
}

impl Json {
    /// The member `key`, where this is an object that has one.
    pub fn get_key(&self, key: &str) -> (r: Option<&Json>)
        ensures
            match r {
                Some(j) => member(self@, key@) == Some(j@),
                None => member(self@, key@) is None,
            },
    {
        match self {
            Json::Object(fields) => {
                let wanted: String = key.to_owned();
                let mut i: usize = fields.len();
                assert(self@->Object_0.take(i as int) =~= self@->Object_0);
                while i > 0
                    invariant
                        0 <= i <= fields.len(),
                        wanted@ == key@,
                        self@ is Object,
                        self@->Object_0.len() == fields.len(),
                        forall|j: int|
                            0 <= j < fields.len() ==> #[trigger] self@->Object_0[j]
                                == fields@[j]@,
                        lookup(self@->Object_0, key@) == lookup(
                            self@->Object_0.take(i as int),
                            key@,
                        ),
                    decreases i,
                {
                    i -= 1;
                    let ghost all = self@->Object_0;
                    assert(all.take(i + 1).drop_last() =~= all.take(i as int));
                    assert(all.take(i + 1).last() == all[i as int]);
                    assert(all[i as int] == fields@[i as int]@);
                    assert(fields@[i as int]@.name == fields@[i as int].name@);
                    assert(fields@[i as int]@.value == fields@[i as int].value@);
                    if fields[i].name == wanted {
                        return Some(&fields[i].value);
                    }
                }
                None
            },
            _ => None,
        }
    }

    /// The item at `index`, where this is an array that has one.
    pub fn get_index(&self, index: usize) -> (r: Option<&Json>)
        ensures
            match r {
                Some(j) => element(self@, index as int) == Some(j@),
                None => element(self@, index as int) is None,
            },
    {
        match self {
            Json::Array(items) => {
                if index < items.len() {
                    Some(&items[index])
                } else {
                    None
                }
            },
            _ => None,
        }
    }

    /// The text, where this is a text.
    pub fn as_str(&self) -> (r: Option<&str>)
        ensures
            match r {
                Some(t) => text_of(self@) == Some(t@),
                None => text_of(self@) is None,
            },
    {
        match self {
            Json::Text(t) => Some(t.as_str()),
            _ => None,
        }
    }

    /// A text document.
    pub fn text(t: &str) -> (r: Json)
        ensures
            r@ == JsonView::Text(t@),
    {
        Json::Text(t.to_owned())
    }

    /// An array of the given items.
    pub fn array(items: Vec<Json>) -> (r: Json)
        ensures
            r@ == JsonView::Array(Seq::new(items@.len(), |i: int| items@[i]@)),
    {
        let r = Json::Array(items);
        assert(r@->Array_0 =~= Seq::new(items@.len(), |i: int| items@[i]@));
        r
    }

    /// An object of the given members.
    pub fn object(fields: Vec<JsonField>) -> (r: Json)
        ensures
            r@ == JsonView::Object(Seq::new(fields@.len(), |i: int| fields@[i]@)),
    {
        let r = Json::Object(fields);
        assert(r@->Object_0 =~= Seq::new(fields@.len(), |i: int| fields@[i]@));
        r
    }

    /// An object with the single member `name`.
    pub fn single(name: &str, value: Json) -> (r: Json)
        ensures
            r@ == JsonView::Object(seq![FieldView { name: name@, value: value@ }]),
    {
        let mut fields: Vec<JsonField> = Vec::new();
        fields.push(JsonField { name: name.to_owned(), value });
        let r = Json::Object(fields);
        assert(fields@[0]@ == FieldView { name: name@, value: value@ });
        assert(r@->Object_0 =~= seq![FieldView { name: name@, value: value@ }]);
        r
    }
}

} // verus!
