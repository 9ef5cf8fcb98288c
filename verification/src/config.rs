//! The persisted settings and the credential resolution order.
//!
//! Reading and writing the settings file, and reading the environment, are
//! the shell's work; the shell hands the candidate values in and this module
//! decides which one wins.

use vstd::prelude::*;

verus! {

/// The persisted settings: one optional API key.
pub struct Config {
    pub api_key: Option<String>,
}

impl Default for Config {
    /// Settings with no key stored.
    fn default() -> (r: Self)
        ensures
            r.api_key is None,
    {
        Config { api_key: None }
    }
}

/// The credential that wins: the primary environment variable, else the
/// fallback environment variable, else the stored key.
pub open spec fn spec_resolved_key(
    env_primary: Option<Seq<char>>,
    env_fallback: Option<Seq<char>>,
    stored: Option<Seq<char>>,
) -> Option<Seq<char>> {
    if env_primary is Some {
        env_primary
    } else if env_fallback is Some {
        env_fallback
    } else {
        stored
    }
}

/// Resolves the API key from the candidates, first hit winning in the order
/// primary environment variable, fallback environment variable, stored
/// settings; with no hit, the error names how to set one.
pub fn get_api_key(env_primary: Option<String>, env_fallback: Option<String>, stored: Config) -> (r:
    Result<String, String>)
    ensures
        (r is Ok) == (spec_resolved_key(
            env_primary.deep_view(),
            env_fallback.deep_view(),
            stored.api_key.deep_view(),
        ) is Some),
        r matches Ok(k) ==> Some(k@) == spec_resolved_key(
            env_primary.deep_view(),
            env_fallback.deep_view(),
            stored.api_key.deep_view(),
        ),
        r matches Err(m) ==> m@
            == "API Key not found. Please set GITY_GEMINI_API_KEY environment variable or run 'gity config --api-key <KEY>'"@,
{
    match env_primary {
        Some(k) => Ok(k),
        None => match env_fallback {
            Some(k) => Ok(k),
            None => match stored.api_key {
                Some(k) => Ok(k),
                None => Err(
                    String::from_str(
                        "API Key not found. Please set GITY_GEMINI_API_KEY environment variable or run 'gity config --api-key <KEY>'",
                    ),
                ),
            },
        },
    }
}

} // verus!
