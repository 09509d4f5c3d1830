use agentdesk_discord::json::{JsonField, JsonNumber, JsonValue};
use agentdesk_discord::provider_errors::{
    detect_api_error_overload_envelope, detect_provider_overload_message,
    detect_structured_provider_overload, is_auth_error_message, is_prompt_too_long_message,
    structured_status_code, ProviderOverloadReason,
};

fn plain(value: serde_json::Value) -> JsonValue {
    match value {
        serde_json::Value::Null => JsonValue::Null,
        serde_json::Value::Bool(flag) => JsonValue::Bool(flag),
        serde_json::Value::Number(number) => JsonValue::Number(JsonNumber {
            unsigned: number.as_u64(),
            text: number.to_string(),
        }),
        serde_json::Value::String(text) => JsonValue::Text(text),
        serde_json::Value::Array(values) => {
            JsonValue::Array(values.into_iter().map(plain).collect())
        }
        serde_json::Value::Object(fields) => JsonValue::Object(
            fields
                .into_iter()
                .map(|(name, value)| JsonField { name, value: plain(value) })
                .collect(),
        ),
    }
}

fn json(text: &str) -> JsonValue {
    plain(serde_json::from_str(text).expect("valid JSON"))
}

#[test]
fn auth_error_detects_expired_refresh_token_variants() {
    assert!(is_auth_error_message("refresh token was already used"));
    assert!(is_auth_error_message("Please log out and sign in again"));
}

#[test]
fn overload_requires_structured_error_provenance() {
    let prose = json(
        r#"{
            "type": "system",
            "subtype": "task_notification",
            "content": "review says rate limit and overloaded are ordinary prose"
        }"#,
    );
    let normal_result = json(
        r#"{
            "type": "result",
            "is_error": false,
            "result": "rate limit and overloaded are ordinary review prose",
            "status": 429
        }"#,
    );
    assert_eq!(detect_structured_provider_overload(&prose), None);
    assert_eq!(detect_structured_provider_overload(&normal_result), None);
}

#[test]
fn overload_accepts_structured_429_and_529() {
    let status = json(r#"{"type": "result", "is_error": true, "error": {"status": 429}}"#);
    let envelope = json(
        r#"{"type": "result", "is_error": true, "errors": ["[API Error: 529 overloaded_error]"]}"#,
    );
    assert_eq!(
        detect_structured_provider_overload(&status),
        Some(ProviderOverloadReason::HttpStatus(429))
    );
    assert_eq!(
        detect_structured_provider_overload(&envelope),
        Some(ProviderOverloadReason::HttpStatus(529))
    );
}

#[test]
fn overload_rejects_envelope_embedded_in_prose() {
    let quoted = json(
        r#"{
            "type": "result",
            "is_error": true,
            "errors": ["review quoted [API Error: 529 overloaded_error] before recovery"]
        }"#,
    );
    assert_eq!(detect_structured_provider_overload(&quoted), None);
}

#[test]
fn messages_are_read_in_any_case() {
    assert!(is_prompt_too_long_message("Error: PROMPT IS TOO LONG (200001 tokens)"));
    assert!(!is_prompt_too_long_message("prompt is fine"));
    assert!(is_auth_error_message("OAuth session ended"));
    assert!(!is_auth_error_message("refresh token"));
    assert_eq!(
        detect_provider_overload_message("  Selected Model is at CAPACITY \n"),
        Some("Selected Model is at CAPACITY".to_string())
    );
    assert_eq!(detect_provider_overload_message("all is well"), None);
    assert_eq!(detect_provider_overload_message("   "), None);
}

#[test]
fn status_codes_are_numbers_or_their_text() {
    assert_eq!(structured_status_code(&json("429")), Some(429));
    assert_eq!(structured_status_code(&json("\" 529 \"")), Some(529));
    assert_eq!(structured_status_code(&json("\"x\"")), None);
    assert_eq!(structured_status_code(&json("-1")), None);
    assert_eq!(structured_status_code(&json("null")), None);
}

#[test]
fn reasons_are_reported_in_public_terms() {
    assert_eq!(
        ProviderOverloadReason::HttpStatus(429).public_reason(),
        "provider_http_429_capacity_response"
    );
    assert_eq!(
        ProviderOverloadReason::HttpStatus(529).public_reason(),
        "provider_http_529_capacity_response"
    );
    assert_eq!(
        detect_api_error_overload_envelope("[API Error: 529 overloaded_error]"),
        Some(ProviderOverloadReason::HttpStatus(529))
    );
    assert_eq!(detect_api_error_overload_envelope("API Error: 529"), None);
}
