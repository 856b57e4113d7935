use gemini_bridge::json::{Json, JsonField};
use gemini_bridge::response::{extract_local_text, extract_text};

fn obj(fields: Vec<(&str, Json)>) -> Json {
    Json::Object(
        fields.into_iter().map(|(name, value)| JsonField { name: name.to_string(), value }).collect(),
    )
}

fn reply_with(text: Json) -> Json {
    obj(vec![(
        "candidates",
        Json::Array(vec![obj(vec![(
            "content",
            obj(vec![("parts", Json::Array(vec![obj(vec![("text", text)])]))]),
        )])]),
    )])
}

#[test]
fn extract_from_empty_object_gives_fallback() {
    assert_eq!(extract_text(&obj(vec![])), "No response text found");
}

#[test]
fn extract_from_full_reply_gives_text() {
    assert_eq!(extract_text(&reply_with(Json::Text("hi".to_string()))), "hi");
}

#[test]
fn extract_with_missing_steps_gives_fallback() {
    let fallback = "No response text found";
    assert_eq!(extract_text(&Json::Null), fallback);
    assert_eq!(extract_text(&Json::Text("hi".to_string())), fallback);
    assert_eq!(extract_text(&Json::Array(vec![])), fallback);
    assert_eq!(extract_text(&obj(vec![("candidates", Json::Array(vec![]))])), fallback);
    assert_eq!(extract_text(&obj(vec![("candidates", obj(vec![]))])), fallback);
    assert_eq!(
        extract_text(&obj(vec![("candidates", Json::Array(vec![obj(vec![])]))])),
        fallback
    );
    assert_eq!(
        extract_text(&obj(vec![(
            "candidates",
            Json::Array(vec![obj(vec![("content", obj(vec![("parts", Json::Array(vec![]))]))])])
        )])),
        fallback
    );
    assert_eq!(extract_text(&reply_with(Json::Number("4".to_string()))), fallback);
    assert_eq!(extract_text(&reply_with(Json::Null)), fallback);
    assert_eq!(extract_text(&reply_with(Json::Bool(true))), fallback);
}

#[test]
fn extract_takes_first_candidate_and_first_part() {
    let doc = obj(vec![(
        "candidates",
        Json::Array(vec![
            obj(vec![(
                "content",
                obj(vec![(
                    "parts",
                    Json::Array(vec![
                        obj(vec![("text", Json::Text("first".to_string()))]),
                        obj(vec![("text", Json::Text("second".to_string()))]),
                    ]),
                )]),
            )]),
            obj(vec![(
                "content",
                obj(vec![(
                    "parts",
                    Json::Array(vec![obj(vec![("text", Json::Text("other".to_string()))])]),
                )]),
            )]),
        ]),
    )]);
    assert_eq!(extract_text(&doc), "first");
}

#[test]
fn repeated_member_last_one_counts() {
    let doc = obj(vec![("a", Json::Text("one".to_string())), ("a", Json::Text("two".to_string()))]);
    assert_eq!(doc.get_key("a"), Some(&Json::Text("two".to_string())));
    assert_eq!(doc.get_key("b"), None);
}

#[test]
fn json_accessors() {
    let arr = Json::Array(vec![Json::Null, Json::Bool(true)]);
    assert_eq!(arr.get_index(1), Some(&Json::Bool(true)));
    assert_eq!(arr.get_index(2), None);
    assert_eq!(arr.get_key("x"), None);
    assert_eq!(Json::Null.get_index(0), None);
    assert_eq!(Json::Text("t".to_string()).as_str(), Some("t"));
    assert_eq!(Json::Number("1".to_string()).as_str(), None);
    assert_eq!(Json::text("abc"), Json::Text("abc".to_string()));
    assert_eq!(Json::array(vec![Json::Null]), Json::Array(vec![Json::Null]));
    assert_eq!(Json::single("k", Json::Null), obj(vec![("k", Json::Null)]));
    assert_eq!(
        Json::object(vec![JsonField { name: "k".to_string(), value: Json::Null }]),
        obj(vec![("k", Json::Null)])
    );
}

#[test]
fn local_reply_text() {
    let doc = obj(vec![
        ("model", Json::Text("llama".to_string())),
        ("response", Json::Text("local answer".to_string())),
    ]);
    assert_eq!(extract_local_text(&doc), "local answer");
    assert_eq!(extract_local_text(&obj(vec![])), "No response text found");
    assert_eq!(extract_local_text(&Json::Array(vec![])), "No response text found");
}
