//! Building the generation request and parsing its response.
//!
//! The shell performs the one HTTP POST; everything around it — the prompt,
//! the request body, the URL, the success test on the status, and the
//! extraction of the generated text — is decided here.

use vstd::prelude::*;
use crate::json::{
    JsonValue, spec_get_member, spec_get_index, spec_as_str,
};
use crate::text::{trim, spec_trim};

verus! {

/// The instruction text that precedes the diff in every prompt.
pub open spec fn spec_prompt_head() -> Seq<char> {
    "Generate a git commit message for the following diff following Conventional Commits specification.\nRules:\n- Use imperative mood (e.g., 'Add feature' not 'Added feature').\n- First line: <type>: <description> (max 50 chars).\n- Leave one blank line after the title.\n- Then provide a concise bulleted list of details.\n- Output ONLY the commit message, no markdown code blocks or conversational text.\n\nDiff:\n"@
}

/// The natural-language instruction for the model: the fixed head, then the
/// diff text verbatim.
pub fn build_prompt(diff_text: &str) -> (r: String)
    ensures
        r@ == spec_prompt_head() + diff_text@,
{
    let mut p = String::from_str(
        "Generate a git commit message for the following diff following Conventional Commits specification.\nRules:\n- Use imperative mood (e.g., 'Add feature' not 'Added feature').\n- First line: <type>: <description> (max 50 chars).\n- Leave one blank line after the title.\n- Then provide a concise bulleted list of details.\n- Output ONLY the commit message, no markdown code blocks or conversational text.\n\nDiff:\n",
    );
    p.append(diff_text);
    p
}

/// `needle` occurs contiguously somewhere in `hay`.
pub open spec fn spec_contains(hay: Seq<char>, needle: Seq<char>) -> bool {
    exists|i: int|
        0 <= i && i + needle.len() <= hay.len() && #[trigger] hay.subrange(
            i,
            i + needle.len() as int,
        ) == needle
}

/// Every prompt carries the diff verbatim and the phrase naming the required
/// commit-message convention.
pub proof fn lemma_prompt_contains_diff_and_marker(diff: Seq<char>, p: Seq<char>)
    requires
        p == spec_prompt_head() + diff,
    ensures
        spec_contains(p, diff),
        spec_contains(p, "Conventional Commits"@),
{
    let h = spec_prompt_head();
    assert(p.subrange(h.len() as int, h.len() + diff.len() as int) =~= diff);
    reveal_strlit(
        "Generate a git commit message for the following diff following Conventional Commits specification.\nRules:\n- Use imperative mood (e.g., 'Add feature' not 'Added feature').\n- First line: <type>: <description> (max 50 chars).\n- Leave one blank line after the title.\n- Then provide a concise bulleted list of details.\n- Output ONLY the commit message, no markdown code blocks or conversational text.\n\nDiff:\n",
    );
    reveal_strlit("Conventional Commits");
    let marker = "Conventional Commits"@;
    assert(p.subrange(63, 63 + marker.len() as int) =~= marker);
}

/// The request body's whole shape: one member `contents`, an array of one
/// object with one member `parts`, an array of one object with one member
/// `text` holding exactly `prompt`.
pub open spec fn spec_is_request_body(v: JsonValue, prompt: Seq<char>) -> bool {
    &&& v matches JsonValue::Obj(top)
    &&& top@.len() == 1
    &&& top@[0].0@ == "contents"@
    &&& top@[0].1 matches JsonValue::Arr(contents)
    &&& contents@.len() == 1
    &&& contents@[0] matches JsonValue::Obj(entry)
    &&& entry@.len() == 1
    &&& entry@[0].0@ == "parts"@
    &&& entry@[0].1 matches JsonValue::Arr(parts)
    &&& parts@.len() == 1
    &&& parts@[0] matches JsonValue::Obj(part)
    &&& part@.len() == 1
    &&& part@[0].0@ == "text"@
    &&& part@[0].1 matches JsonValue::Str(text)
    &&& text@ == prompt
}

/// The string at `contents[0].parts[0].text` of a request body, if that
/// path holds one.
pub open spec fn spec_request_text(v: JsonValue) -> Option<Seq<char>> {
    match spec_get_member(v, "contents"@) {
        Some(contents) => match spec_get_index(contents, 0) {
            Some(c0) => match spec_get_member(c0, "parts"@) {
                Some(parts) => match spec_get_index(parts, 0) {
                    Some(p0) => match spec_get_member(p0, "text"@) {
                        Some(t) => spec_as_str(t),
                        None => None,
                    },
                    None => None,
                },
                None => None,
            },
            None => None,
        },
        None => None,
    }
}

/// The builder places the prompt text, unchanged, at the path
/// `contents[0].parts[0].text`.
pub proof fn lemma_request_body_places_prompt(v: JsonValue, prompt: Seq<char>)
    requires
        spec_is_request_body(v, prompt),
    ensures
        spec_request_text(v) == Some(prompt),
{
}

/// The JSON body of the generation request, carrying the prompt.
pub fn build_request_body(prompt: &str) -> (r: JsonValue)
    ensures
        spec_is_request_body(r, prompt@),
{
    let part = JsonValue::Obj(
        vec![(String::from_str("text"), JsonValue::Str(prompt.to_owned()))],
    );
    let entry = JsonValue::Obj(
        vec![(String::from_str("parts"), JsonValue::Arr(vec![part]))],
    );
    JsonValue::Obj(vec![(String::from_str("contents"), JsonValue::Arr(vec![entry]))])
}

/// The fixed endpoint, up to where the credential follows.
pub open spec fn spec_endpoint_prefix() -> Seq<char> {
    "https://generativelanguage.googleapis.com/v1beta/models/gemini-3-flash-preview:generateContent?key="@
}

/// The request URL: the fixed endpoint with the credential as its query
/// parameter.
pub fn build_request_url(api_key: &str) -> (r: String)
    ensures
        r@ == spec_endpoint_prefix() + api_key@,
{
    let mut u = String::from_str(
        "https://generativelanguage.googleapis.com/v1beta/models/gemini-3-flash-preview:generateContent?key=",
    );
    u.append(api_key);
    u
}

/// Whether an HTTP status code counts as success; only then is the response
/// body parsed.
pub fn status_is_success(status: u16) -> (r: bool)
    ensures
        r == (200 <= status < 300),
{
    status >= 200 && status < 300
}

/// The string at `candidates[0].content.parts[0].text` of a response, if
/// that path holds one.
pub open spec fn spec_response_text(v: JsonValue) -> Option<Seq<char>> {
    match spec_get_member(v, "candidates"@) {
        Some(candidates) => match spec_get_index(candidates, 0) {
            Some(c0) => match spec_get_member(c0, "content"@) {
                Some(content) => match spec_get_member(content, "parts"@) {
                    Some(parts) => match spec_get_index(parts, 0) {
                        Some(p0) => match spec_get_member(p0, "text"@) {
                            Some(t) => spec_as_str(t),
                            None => None,
                        },
                        None => None,
                    },
                    None => None,
                },
                None => None,
            },
            None => None,
        },
        None => None,
    }
}

fn parse_error() -> (e: String)
    ensures
        e@ == "Failed to parse generated text from response"@,
{
    String::from_str("Failed to parse generated text from response")
}

/// The generated message, extracted from the response at
/// `candidates[0].content.parts[0].text` and trimmed of surrounding
/// whitespace; an error — never a default — when that path is absent or not
/// a string.
pub fn parse_gemini_response(response_json: &JsonValue) -> (r: Result<String, String>)
    ensures
        (r is Ok) == (spec_response_text(*response_json) is Some),
        r matches Ok(s) ==> s@ == spec_trim(spec_response_text(*response_json)->Some_0),
        r matches Err(e) ==> e@ == "Failed to parse generated text from response"@,
{
    let key_candidates = String::from_str("candidates");
    let key_content = String::from_str("content");
    let key_parts = String::from_str("parts");
    let key_text = String::from_str("text");
    let candidates = match response_json.get_member(&key_candidates) {
        Some(v) => v,
        None => {
            return Err(parse_error());
        },
    };
    let c0 = match candidates.get_index(0) {
        Some(v) => v,
        None => {
            return Err(parse_error());
        },
    };
    let content = match c0.get_member(&key_content) {
        Some(v) => v,
        None => {
            return Err(parse_error());
        },
    };
    let parts = match content.get_member(&key_parts) {
        Some(v) => v,
        None => {
            return Err(parse_error());
        },
    };
    let p0 = match parts.get_index(0) {
        Some(v) => v,
        None => {
            return Err(parse_error());
        },
    };
    let t = match p0.get_member(&key_text) {
        Some(v) => v,
        None => {
            return Err(parse_error());
        },
    };
    let s = match t.as_str() {
        Some(v) => v,
        None => {
            return Err(parse_error());
        },
    };
    Ok(trim(s.as_str()).to_owned())
}

} // verus!
