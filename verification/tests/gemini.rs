use gity::gemini::{
    build_prompt, build_request_body, build_request_url, parse_gemini_response, status_is_success,
};
use gity::json::JsonValue;

fn member<'a>(value: &'a JsonValue, key: &str) -> &'a JsonValue {
    value.get_member(&key.to_string()).unwrap()
}

fn sample_response(text: &str) -> JsonValue {
    JsonValue::Obj(vec![(
        "candidates".to_string(),
        JsonValue::Arr(vec![JsonValue::Obj(vec![(
            "content".to_string(),
            JsonValue::Obj(vec![(
                "parts".to_string(),
                JsonValue::Arr(vec![JsonValue::Obj(vec![(
                    "text".to_string(),
                    JsonValue::Str(text.to_string()),
                )])]),
            )]),
        )])]),
    )])
}

#[test]
fn test_build_prompt() {
    let diff = "diff --git ...";
    let prompt = build_prompt(diff);
    assert!(prompt.contains(diff));
    assert!(prompt.contains("Conventional Commits"));
}

#[test]
fn prompt_ends_with_diff_verbatim() {
    let diff = "-    old line\n+    new line\n";
    let prompt = build_prompt(diff);
    assert!(prompt.ends_with(diff));
    assert!(prompt.contains("Diff:\n"));
}

#[test]
fn test_build_request_body() {
    let prompt = "test prompt";
    let body = build_request_body(prompt);
    let contents = body.get_member(&"contents".to_string()).unwrap();
    let first = contents.get_index(0).unwrap();
    let parts = first.get_member(&"parts".to_string()).unwrap();
    let part = parts.get_index(0).unwrap();
    let text = part.get_member(&"text".to_string()).unwrap();
    assert_eq!(text.as_str().unwrap().as_str(), prompt);
}

#[test]
fn request_body_has_single_members_at_each_level() {
    let body = build_request_body("p");
    match &body {
        JsonValue::Obj(fields) => assert_eq!(fields.len(), 1),
        _ => panic!("request body is not an object"),
    }
    match member(&body, "contents") {
        JsonValue::Arr(items) => assert_eq!(items.len(), 1),
        _ => panic!("contents is not an array"),
    }
}

#[test]
fn test_parse_gemini_response_success() {
    let json = sample_response("Fixed a bug");
    let result = parse_gemini_response(&json);
    assert_eq!(result, Ok("Fixed a bug".to_string()));
}

#[test]
fn test_parse_gemini_response_error() {
    let json = JsonValue::Obj(vec![]);
    let result = parse_gemini_response(&json);
    assert!(result.is_err());
}

#[test]
fn parse_trims_surrounding_whitespace() {
    let json = sample_response(" \t\nFixed a bug\n  ");
    let result = parse_gemini_response(&json);
    assert_eq!(result, Ok("Fixed a bug".to_string()));
    let inner = sample_response("Fixed  a \n bug");
    assert_eq!(parse_gemini_response(&inner), Ok("Fixed  a \n bug".to_string()));
}

#[test]
fn parse_rejects_non_string_text() {
    let mut json = sample_response("x");
    // Rebuild with a number where the text should be.
    if let JsonValue::Obj(top) = &mut json {
        if let JsonValue::Arr(candidates) = &mut top[0].1 {
            if let JsonValue::Obj(c0) = &mut candidates[0] {
                if let JsonValue::Obj(content) = &mut c0[0].1 {
                    if let JsonValue::Arr(parts) = &mut content[0].1 {
                        if let JsonValue::Obj(part) = &mut parts[0] {
                            part[0].1 = JsonValue::Num;
                        }
                    }
                }
            }
        }
    }
    let result = parse_gemini_response(&json);
    assert_eq!(result, Err("Failed to parse generated text from response".to_string()));
}

#[test]
fn parse_rejects_empty_candidates() {
    let json = JsonValue::Obj(vec![("candidates".to_string(), JsonValue::Arr(vec![]))]);
    assert!(parse_gemini_response(&json).is_err());
}

#[test]
fn url_carries_key_as_query_parameter() {
    let url = build_request_url("SECRET-REDACTED");
    assert!(url.starts_with("https://generativelanguage.googleapis.com/"));
    assert!(url.ends_with("?key=SECRET-REDACTED"));
}

#[test]
fn status_success_bounds() {
    assert!(status_is_success(200));
    assert!(status_is_success(204));
    assert!(status_is_success(299));
    assert!(!status_is_success(199));
    assert!(!status_is_success(300));
    assert!(!status_is_success(404));
    assert!(!status_is_success(500));
}
