use gemini_bridge::attachment::{EncodeError, ImagePayload};
use gemini_bridge::dispatch::{
    is_error_marker, lost_worker_text, outcome_text, prepare_request, read_document, receive,
    system_instruction_text, DispatchOrder, RequestError,
};
use gemini_bridge::history::{ConversationTurn, Speaker};
use gemini_bridge::json::{Json, JsonField};
use gemini_bridge::request::build_request;
use gemini_bridge::transport::{ClientConfig, ConfigError, TransportError, TransportReply};

fn obj(fields: Vec<(&str, Json)>) -> Json {
    Json::Object(
        fields.into_iter().map(|(name, value)| JsonField { name: name.to_string(), value }).collect(),
    )
}

fn config(key: &str) -> ClientConfig {
    ClientConfig { api_key: key.to_string(), model_id: "gemini-2.5-flash".to_string() }
}

fn order(image: Option<ImagePayload>) -> DispatchOrder {
    DispatchOrder {
        prompt: "describe".to_string(),
        image,
        history: vec![
            ConversationTurn::new(Speaker::User, "hello".to_string()),
            ConversationTurn::new(Speaker::Model, "hi".to_string()),
        ],
    }
}

#[test]
fn outcome_of_success_is_the_text() {
    assert_eq!(outcome_text(Ok("4".to_string())), "4");
    assert_eq!(outcome_text(Ok(String::new())), "");
}

#[test]
fn outcome_of_failure_is_marked() {
    let e = RequestError::Transport(TransportError::Network("connection reset".to_string()));
    assert_eq!(outcome_text(Err(e)), "Error: connection reset");
    let e = RequestError::Transport(TransportError::Config(ConfigError::EmptyKey));
    assert_eq!(
        outcome_text(Err(e)),
        "Error: API key is empty. Check your .env file and rebuild."
    );
    let e = RequestError::Encode(EncodeError::SizeMismatch);
    assert_eq!(outcome_text(Err(e)), "Error: Failed to create image buffer from RGBA data");
    let e = RequestError::Encode(EncodeError::Encoder("zero width".to_string()));
    assert_eq!(outcome_text(Err(e)), "Error: zero width");
    let e = RequestError::Transport(TransportError::HttpStatus {
        status: 503,
        body: "busy".to_string(),
    });
    assert_eq!(outcome_text(Err(e)), "Error: HTTP Error 503 Service Unavailable: busy");
    let e = RequestError::Transport(TransportError::Decode("eof".to_string()));
    assert!(is_error_marker(&outcome_text(Err(e))));
}

#[test]
fn error_markers() {
    assert!(is_error_marker("Error: x"));
    assert!(is_error_marker("Error: "));
    assert!(!is_error_marker("Error:"));
    assert!(!is_error_marker(" Error: x"));
    assert!(!is_error_marker("4"));
    assert!(!is_error_marker(""));
}

#[test]
fn prepare_checks_the_key_first() {
    let bad_image = ImagePayload { width: 2, height: 2, pixels: vec![0; 3] };
    let r = prepare_request(&order(Some(bad_image)), &config("placeholder"));
    assert_eq!(r, Err(RequestError::Transport(TransportError::Config(ConfigError::PlaceholderKey))));
    let r = prepare_request(&order(None), &config(""));
    assert_eq!(r, Err(RequestError::Transport(TransportError::Config(ConfigError::EmptyKey))));
}

#[test]
fn prepare_reports_a_malformed_image() {
    let bad_image = ImagePayload { width: 2, height: 2, pixels: vec![0; 3] };
    let r = prepare_request(&order(Some(bad_image)), &config("AIzaSyExample"));
    assert_eq!(r, Err(RequestError::Encode(EncodeError::SizeMismatch)));
}

#[test]
fn prepare_builds_the_call() {
    let o = order(None);
    let call = prepare_request(&o, &config(" AIzaSyExample ")).unwrap();
    assert_eq!(call.api_key, "AIzaSyExample");
    assert_eq!(
        call.url,
        "https://generativelanguage.googleapis.com/v1beta/models/gemini-2.5-flash:generateContent"
    );
    let expected =
        build_request("describe", "gemini-2.5-flash", None, &o.history, system_instruction_text());
    assert_eq!(call.body, expected.body);
}

#[test]
fn prepare_puts_the_image_before_the_prompt() {
    let image = ImagePayload { width: 1, height: 1, pixels: vec![1, 2, 3, 4] };
    let call = prepare_request(&order(Some(image)), &config("AIzaSyExample")).unwrap();
    let contents = call.body.get_key("contents").unwrap();
    let parts = contents.get_index(2).unwrap().get_key("parts").unwrap();
    let inline = parts.get_index(0).unwrap().get_key("inline_data").unwrap();
    assert_eq!(inline.get_key("mime_type").unwrap().as_str(), Some("image/png"));
    assert!(inline.get_key("data").unwrap().as_str().unwrap().starts_with("iVBORw0KGgo"));
    assert_eq!(parts.get_index(1).unwrap().get_key("text").unwrap().as_str(), Some("describe"));
}

#[test]
fn receive_sorts_replies() {
    assert_eq!(
        receive(TransportReply::Answered { status: 200, body: "{}".to_string() }),
        Ok("{}".to_string())
    );
    assert_eq!(
        receive(TransportReply::Answered { status: 500, body: "oops".to_string() }),
        Err(RequestError::Transport(TransportError::HttpStatus {
            status: 500,
            body: "oops".to_string()
        }))
    );
    assert_eq!(
        receive(TransportReply::Unreachable("no route".to_string())),
        Err(RequestError::Transport(TransportError::Network("no route".to_string())))
    );
}

#[test]
fn read_document_extracts_or_falls_back() {
    let doc = obj(vec![(
        "candidates",
        Json::Array(vec![obj(vec![(
            "content",
            obj(vec![(
                "parts",
                Json::Array(vec![obj(vec![("text", Json::Text("4".to_string()))])]),
            )]),
        )])]),
    )]);
    assert_eq!(read_document(Ok(doc)), Ok("4".to_string()));
    assert_eq!(read_document(Ok(obj(vec![]))), Ok("No response text found".to_string()));
    assert_eq!(
        read_document(Err("trailing characters".to_string())),
        Err(RequestError::Transport(TransportError::Decode("trailing characters".to_string())))
    );
}

#[test]
fn request_error_messages() {
    assert_eq!(
        RequestError::Encode(EncodeError::SizeMismatch).message(),
        "Failed to create image buffer from RGBA data"
    );
    assert_eq!(
        RequestError::Transport(TransportError::Network("down".to_string())).message(),
        "down"
    );
}

#[test]
fn lost_worker_is_a_marked_failure() {
    assert_eq!(lost_worker_text(), "Error: the worker stopped before it answered");
    assert!(is_error_marker(&lost_worker_text()));
}
