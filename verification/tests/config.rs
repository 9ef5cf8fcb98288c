use gity::config::{get_api_key, Config};

fn stored(key: Option<&str>) -> Config {
    Config { api_key: key.map(|k| k.to_string()) }
}

#[test]
fn primary_environment_variable_wins() {
    let r = get_api_key(Some("primary".to_string()), Some("fallback".to_string()), stored(Some("file")));
    assert_eq!(r, Ok("primary".to_string()));
}

#[test]
fn fallback_environment_variable_is_second() {
    let r = get_api_key(None, Some("fallback".to_string()), stored(Some("file")));
    assert_eq!(r, Ok("fallback".to_string()));
}

#[test]
fn stored_key_is_last() {
    let r = get_api_key(None, None, stored(Some("file")));
    assert_eq!(r, Ok("file".to_string()));
}

#[test]
fn no_candidate_is_an_error() {
    let r = get_api_key(None, None, stored(None));
    let err = r.unwrap_err();
    assert!(err.contains("API Key not found"));
    assert!(err.contains("GITY_GEMINI_API_KEY"));
}

#[test]
fn default_config_has_no_key() {
    let c = Config::default();
    assert!(c.api_key.is_none());
}
