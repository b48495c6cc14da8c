//! Process configuration: the API endpoint and the access token.

use crate::error::{Error, Result};
use vstd::prelude::*;

verus! {

/// Name of the variable that overrides the API endpoint.
pub const API_VAR: &'static str = "TINKOFF_API";

/// Name of the variable that holds the access token.
pub const TOKEN_VAR: &'static str = "TINKOFF_TOKEN";

/// Endpoint used when no override is configured.
pub const DEFAULT_API_URL: &'static str = "https://invest-public-api.tinkoff.ru:443/";

/// Configuration read once at process start. It has no `Debug`, so that the
/// token is never printed.
#[allow(non_snake_case)]
pub struct ApiConfig {
    pub TINKOFF_API: String,
    pub TINKOFF_TOKEN: String,
}

/// Reads the configuration value `name` from what the environment held for it.
///
/// A text value is always well formed, so the only failure is an absent value.
pub fn get_env_parse(name: &'static str, value: Option<String>) -> (r: Result<String>)
    ensures
        match value {
            Some(v) => r matches Ok(s) && s@ == v@,
            None => r matches Err(Error::ConfigMissingEnv(n)) && n == name,
        },
{
    match value {
        Some(v) => Ok(v),
        None => Err(Error::ConfigMissingEnv(name)),
    }
}

impl ApiConfig {
    /// Builds the configuration from the values the environment held for
    /// `TINKOFF_API` and `TINKOFF_TOKEN`.
    ///
    /// The endpoint falls back to [`DEFAULT_API_URL`]; a non-empty token is
    /// required, and without one no configuration is produced: an absent
    /// token is missing, an empty one is malformed.
    pub fn load_from_env(api: Option<String>, token: Option<String>) -> (r: Result<ApiConfig>)
        ensures
            r is Err <==> (token is None || token->0@.len() == 0),
            token is None ==> (r matches Err(Error::ConfigMissingEnv(n)) && n == TOKEN_VAR),
            token matches Some(t) && t@.len() == 0 ==> (r matches Err(Error::ConfigWrongFormat(n))
                && n == TOKEN_VAR),
            r matches Ok(c) ==> {
                &&& c.TINKOFF_TOKEN@ == token->0@
                &&& c.TINKOFF_API@ == match api {
                    Some(a) => a@,
                    None => DEFAULT_API_URL@,
                }
            },
    {
        let api_url = match get_env_parse(API_VAR, api) {
            Ok(a) => a,
            Err(_) => String::from_str(DEFAULT_API_URL),
        };
        let token = get_env_parse(TOKEN_VAR, token)?;
        if token.as_str().unicode_len() == 0 {
            return Err(Error::ConfigWrongFormat(TOKEN_VAR));
        }
        Ok(ApiConfig { TINKOFF_API: api_url, TINKOFF_TOKEN: token })
    }
}

} // verus!
