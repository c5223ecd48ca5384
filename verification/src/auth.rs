//! Request authentication and the lookup of the service's secrets.

use vstd::prelude::*;
use crate::http::ApiRequest;

verus! {

/// The key check: a key is configured, the header is present and non-empty,
/// and it equals the configured key.
pub open spec fn key_accepted(provided: Option<Seq<char>>, expected: Seq<char>) -> bool {
    let given = match provided {
        Some(k) => k,
        None => Seq::empty(),
    };
    expected.len() > 0 && given.len() > 0 && given == expected
}

/// The `x-api-key` header of `request`, as a character sequence.
pub open spec fn api_key_of(request: ApiRequest) -> Option<Seq<char>> {
    match request.api_key {
        Some(k) => Some(k@),
        None => None,
    }
}

/// Checks the request's `x-api-key` header against the configured key.
pub fn validate_api_key(request: &ApiRequest, expected_key: &str) -> (ok: bool)
    ensures
        ok == key_accepted(api_key_of(*request), expected_key@),
{
    if expected_key.is_empty() {
        return false;
    }
    match &request.api_key {
        Some(provided) => {
            let expected: String = expected_key.to_owned();
            !provided.as_str().is_empty() && *provided == expected
        },
        None => false,
    }
}

/// A request is accepted exactly when a key is configured and the header
/// carries that very key; with no key configured nothing is accepted.
pub proof fn lemma_key_accepted_iff_equal(provided: Option<Seq<char>>, expected: Seq<char>)
    ensures
        key_accepted(provided, expected) <==> (expected.len() > 0 && provided == Some(expected)),
        expected.len() == 0 ==> !key_accepted(provided, expected),
{
}

/// The secrets the service loads at start-up.
#[derive(Clone, Copy, Debug, PartialEq, Eq, Structural)]
pub enum SecretKind {
    /// The key clients send in `x-api-key`.
    AppApiKey,
    /// The key of the language model service.
    GeminiApiKey,
    /// The key of the news search service.
    TavilyApiKey,
}

impl SecretKind {
    /// Environment variable that overrides the stored secret (local runs).
    pub open spec fn env_var_spec(self) -> Seq<char> {
        match self {
            SecretKind::AppApiKey => "APP_API_KEY"@,
            SecretKind::GeminiApiKey => "GEMINI_API_KEY"@,
            SecretKind::TavilyApiKey => "TAVILY_API_KEY"@,
        }
    }

    /// Name of the parameter that stores the secret.
    pub open spec fn parameter_spec(self) -> Seq<char> {
        match self {
            SecretKind::AppApiKey => "/eng-app/api-key"@,
            SecretKind::GeminiApiKey => "/eng-app/gemini-api-key"@,
            SecretKind::TavilyApiKey => "/eng-app/tavily-api-key"@,
        }
    }

    /// Value used when the parameter store cannot be read.
    pub open spec fn fallback_spec(self) -> Seq<char> {
        match self {
            SecretKind::AppApiKey => "CHANGE_ME_INITIAL_VALUE"@,
            _ => Seq::empty(),
        }
    }

    /// See [`SecretKind::env_var_spec`].
    pub fn env_var(self) -> (r: &'static str)
        ensures
            r@ == self.env_var_spec(),
    {
        match self {
            SecretKind::AppApiKey => "APP_API_KEY",
            SecretKind::GeminiApiKey => "GEMINI_API_KEY",
            SecretKind::TavilyApiKey => "TAVILY_API_KEY",
        }
    }

    /// See [`SecretKind::parameter_spec`].
    pub fn parameter_name(self) -> (r: &'static str)
        ensures
            r@ == self.parameter_spec(),
    {
        match self {
            SecretKind::AppApiKey => "/eng-app/api-key",
            SecretKind::GeminiApiKey => "/eng-app/gemini-api-key",
            SecretKind::TavilyApiKey => "/eng-app/tavily-api-key",
        }
    }
}

/// The next step of loading a secret.
pub enum SecretLookup {
    /// The secret is known.
    Found(String),
    /// The named parameter has to be fetched, decrypted, from the store.
    FetchParameter { name: String, with_decryption: bool },
}

/// First step of loading a secret: the environment variable wins when it is
/// set; otherwise the parameter store is asked.
pub fn lookup_secret(kind: SecretKind, env_value: Option<String>) -> (step: SecretLookup)
    ensures
        match env_value {
            Some(v) => step matches SecretLookup::Found(s) && s@ == v@,
            None => step matches SecretLookup::FetchParameter { name, with_decryption } && name@
                == kind.parameter_spec() && with_decryption,
        },
{
    match env_value {
        Some(v) => SecretLookup::Found(v),
        None => SecretLookup::FetchParameter {
            name: kind.parameter_name().to_owned(),
            with_decryption: true,
        },
    }
}

/// Second step: the stored value, or the kind's fallback when the store
/// could not be read.
pub fn secret_from_store(kind: SecretKind, fetched: Result<String, ()>) -> (secret: String)
    ensures
        secret@ == match fetched {
            Ok(v) => v@,
            Err(_) => kind.fallback_spec(),
        },
{
    match fetched {
        Ok(v) => v,
        Err(_) => match kind {
            SecretKind::AppApiKey => "CHANGE_ME_INITIAL_VALUE".to_owned(),
            _ => String::new(),
        },
    }
}

} // verus!
