//! Server configuration and the switch that turns bearer authentication on.

use vstd::prelude::*;
use crate::text::{trim, trimmed};

verus! {

/// Listening address, port, bearer key and default model of the server.
pub struct Config {
    /// Address to listen on.
    pub host: String,
    /// Port to listen on.
    pub port: u16,
    /// Bearer token; blank disables authentication.
    pub api_key: String,
    /// Model used when a request names none; `auto` lets Copilot choose.
    pub default_model: String,
}

impl Config {
    /// Whether requests must carry the bearer key: the key is not blank.
    pub open spec fn auth_enabled(&self) -> bool {
        trimmed(self.api_key@).len() > 0
    }

    /// The bearer token that requests must present, or `None` when the key
    /// is blank (empty or white space only) and authentication is off.
    pub fn auth_token(&self) -> (token: Option<String>)
        ensures
            token is None <==> !self.auth_enabled(),
            token matches Some(k) ==> k@ == self.api_key@,
    {
        let t = trim(self.api_key.as_str());
        if t.is_empty() {
            None
        } else {
            Some(self.api_key.clone())
        }
    }
}

impl Default for Config {
    /// Listens on 127.0.0.1:8080, with authentication off and model `auto`.
    fn default() -> (c: Self)
        ensures
            c.host@ == "127.0.0.1"@,
            c.port == 8080,
            c.api_key@ == ""@,
            c.default_model@ == "auto"@,
    {
        Config {
            host: String::from_str("127.0.0.1"),
            port: 8080,
            api_key: String::from_str(""),
            default_model: String::from_str("auto"),
        }
    }
}

} // verus!
