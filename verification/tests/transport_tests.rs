use gemini_bridge::json::Json;
use gemini_bridge::request::{build_minimal_request, RequestDocument};
use gemini_bridge::transport::{
    answered, check_decoded, check_reply, endpoint_url, prepare_send, status_is_success, status_text,
    validate_key, ClientConfig, ConfigError, TransportError, TransportReply,
};

fn config(key: &str) -> ClientConfig {
    ClientConfig { api_key: key.to_string(), model_id: "gemini-2.5-flash".to_string() }
}

fn document() -> RequestDocument {
    build_minimal_request("hello", "gemini-2.5-flash", None)
}

#[test]
fn placeholder_key_is_rejected_before_any_call() {
    let r = prepare_send(document(), &config("your-actual-api-key-here"));
    assert_eq!(r, Err(TransportError::Config(ConfigError::PlaceholderKey)));
}

#[test]
fn placeholder_inside_a_key_is_rejected() {
    assert_eq!(validate_key("  my-placeholder-key "), Err(ConfigError::PlaceholderKey));
    assert_eq!(validate_key("xxyour-actual-api-key-herexx"), Err(ConfigError::PlaceholderKey));
    assert_eq!(validate_key("placeholder"), Err(ConfigError::PlaceholderKey));
}

#[test]
fn empty_key_is_rejected() {
    assert_eq!(validate_key(""), Err(ConfigError::EmptyKey));
    assert_eq!(validate_key("   \n"), Err(ConfigError::EmptyKey));
    let r = prepare_send(document(), &config(" "));
    assert_eq!(r, Err(TransportError::Config(ConfigError::EmptyKey)));
}

#[test]
fn real_key_is_accepted_and_trimmed() {
    assert_eq!(validate_key("  AIzaSyExample \n"), Ok("AIzaSyExample"));
    assert_eq!(validate_key("Placeholder"), Ok("Placeholder"));
    let call = prepare_send(document(), &config(" AIzaSyExample ")).unwrap();
    assert_eq!(call.api_key, "AIzaSyExample");
    assert_eq!(
        call.url,
        "https://generativelanguage.googleapis.com/v1beta/models/gemini-2.5-flash:generateContent"
    );
    assert_eq!(call.body, document().body);
}

#[test]
fn endpoint_of_a_model() {
    assert_eq!(
        endpoint_url("m1"),
        "https://generativelanguage.googleapis.com/v1beta/models/m1:generateContent"
    );
    assert_eq!(
        endpoint_url(""),
        "https://generativelanguage.googleapis.com/v1beta/models/:generateContent"
    );
}

#[test]
fn success_is_two_hundred_to_two_ninety_nine() {
    assert!(!status_is_success(199));
    assert!(status_is_success(200));
    assert!(status_is_success(204));
    assert!(status_is_success(299));
    assert!(!status_is_success(300));
    assert!(!status_is_success(404));
    assert!(!status_is_success(0));
}

#[test]
fn replies_are_sorted() {
    assert_eq!(
        check_reply(TransportReply::Answered { status: 200, body: "{}".to_string() }),
        Ok("{}".to_string())
    );
    assert_eq!(
        check_reply(TransportReply::Answered { status: 429, body: "slow down".to_string() }),
        Err(TransportError::HttpStatus { status: 429, body: "slow down".to_string() })
    );
    assert_eq!(
        check_reply(TransportReply::Unreachable("dns failure".to_string())),
        Err(TransportError::Network("dns failure".to_string()))
    );
}

#[test]
fn decoding_outcomes() {
    assert_eq!(check_decoded(Ok(Json::Null)), Ok(Json::Null));
    assert_eq!(
        check_decoded(Err("expected value at line 1".to_string())),
        Err(TransportError::Decode("expected value at line 1".to_string()))
    );
}

#[test]
fn status_texts_come_with_the_reason_phrase() {
    assert_eq!(status_text(200), "200 OK");
    assert_eq!(status_text(404), "404 Not Found");
    assert_eq!(status_text(500), "500 Internal Server Error");
    assert_eq!(status_text(599), "599 <unknown status code>");
    assert_eq!(status_text(42), "42 <unknown status code>");
    assert_eq!(status_text(1000), "1000 <unknown status code>");
}

#[test]
fn status_text_is_what_reqwest_shows() {
    for code in [100u16, 201, 301, 400, 403, 418, 429, 502, 503, 777] {
        let shown = reqwest::StatusCode::from_u16(code).unwrap().to_string();
        assert_eq!(status_text(code), shown);
    }
}

#[test]
fn messages_of_failures() {
    assert_eq!(
        TransportError::Config(ConfigError::EmptyKey).message(),
        "API key is empty. Check your .env file and rebuild."
    );
    assert_eq!(
        TransportError::Config(ConfigError::PlaceholderKey).message(),
        "API key is still a placeholder. Set a real key in .env and rebuild."
    );
    assert_eq!(TransportError::Network("timed out".to_string()).message(), "timed out");
    assert_eq!(TransportError::Decode("bad json".to_string()).message(), "bad json");
    assert_eq!(
        TransportError::HttpStatus { status: 404, body: "no such model".to_string() }.message(),
        "HTTP Error 404 Not Found: no such model"
    );
    assert_eq!(
        ConfigError::EmptyKey.message(),
        "API key is empty. Check your .env file and rebuild."
    );
}

#[test]
fn local_endpoint_address() {
    assert_eq!(
        gemini_bridge::transport::local_endpoint_url(),
        "http://localhost:11434/api/generate"
    );
}

#[test]
fn answers_with_and_without_a_body() {
    assert_eq!(
        answered(200, Ok("{}".to_string())),
        TransportReply::Answered { status: 200, body: "{}".to_string() }
    );
    assert_eq!(
        answered(404, Ok("gone".to_string())),
        TransportReply::Answered { status: 404, body: "gone".to_string() }
    );
    assert_eq!(
        answered(500, Err("connection closed".to_string())),
        TransportReply::Answered { status: 500, body: "Failed to read error response".to_string() }
    );
    assert_eq!(
        answered(200, Err("connection closed".to_string())),
        TransportReply::Unreachable("connection closed".to_string())
    );
    assert_eq!(
        answered(299, Err("cut".to_string())),
        TransportReply::Unreachable("cut".to_string())
    );
    assert_eq!(
        answered(300, Err("cut".to_string())),
        TransportReply::Answered { status: 300, body: "Failed to read error response".to_string() }
    );
}
