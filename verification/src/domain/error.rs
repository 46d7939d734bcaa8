//! Errors that OddOnkey can produce.

use vstd::prelude::*;

verus! {

/// The error type of the `reqwest` HTTP client, carried through unchanged.
#[verifier::external_type_specification]
#[verifier::external_body]
pub struct ExReqwestError(reqwest::Error);

/// Errors that OddOnkey can produce.
#[derive(Debug)]
pub enum OddOnkeyError {
    /// Ollama could not be installed automatically.
    InstallFailed(String),
    /// Ollama server did not become reachable in time.
    ServerStartFailed(String),
    /// Model pull failed.
    ModelPullFailed(String),
    /// HTTP / network error while talking to the LLM backend.
    Http(reqwest::Error),
    /// The response body could not be parsed.
    Parse(String),
}

/// The text of `prefix` followed by `s`.
fn prefixed(prefix: &str, s: &String) -> (r: String)
    ensures
        r@ == prefix@ + s@,
{
    let mut r = String::from_str(prefix);
    r.append(s.as_str());
    r
}

impl OddOnkeyError {
    /// The human-readable description of the error, as `Display` shows it.
    pub fn message(&self) -> (m: String)
        ensures
            match self {
                OddOnkeyError::InstallFailed(s) => m@ == "ollama install failed: "@ + s@,
                OddOnkeyError::ServerStartFailed(s) => m@ == "ollama server start failed: "@ + s@,
                OddOnkeyError::ModelPullFailed(s) => m@ == "model pull failed: "@ + s@,
                OddOnkeyError::Http(e) => exists|t: String|
                    vstd::string::to_string_from_display_ensures::<reqwest::Error>(e, t) && m@
                        == "http error: "@ + t@,
                OddOnkeyError::Parse(s) => m@ == "parse error: "@ + s@,
            },
    {
        match self {
            OddOnkeyError::InstallFailed(s) => prefixed("ollama install failed: ", s),
            OddOnkeyError::ServerStartFailed(s) => prefixed("ollama server start failed: ", s),
            OddOnkeyError::ModelPullFailed(s) => prefixed("model pull failed: ", s),
            OddOnkeyError::Http(e) => {
                let t = e.to_string();
                prefixed("http error: ", &t)
            },
            OddOnkeyError::Parse(s) => prefixed("parse error: ", s),
        }
    }
}

impl From<reqwest::Error> for OddOnkeyError {
    fn from(e: reqwest::Error) -> (r: Self) {
        OddOnkeyError::Http(e)
    }
}

impl vstd::std_specs::convert::FromSpecImpl<reqwest::Error> for OddOnkeyError {
    open spec fn obeys_from_spec() -> bool {
        true
    }

    open spec fn from_spec(v: reqwest::Error) -> Self {
        OddOnkeyError::Http(v)
    }
}

} // verus!
