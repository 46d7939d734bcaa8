//! The Ollama HTTP adapter: where its endpoints are and how its answers are
//! judged.  The requests themselves are sent by the caller.

use vstd::prelude::*;
use crate::domain::error::OddOnkeyError;
use crate::text::{append_str, decimal};

verus! {

/// The HTTP client of the `reqwest` crate, carried through unchanged.
#[verifier::external_type_specification]
#[verifier::external_body]
pub struct ExReqwestClient(reqwest::Client);

/// The URL of the API endpoint `name` of the server at `base_url`.
pub open spec fn api_url(base_url: Seq<char>, name: Seq<char>) -> Seq<char> {
    base_url + "/api/"@ + name
}

/// `format!("{base_url}/api/{name}")`.
pub fn endpoint(base_url: &str, name: &str) -> (r: String)
    ensures
        r@ == api_url(base_url@, name@),
{
    let mut r = String::from_str(base_url);
    append_str(&mut r, "/api/");
    append_str(&mut r, name);
    r
}

/// Whether an HTTP status code is a success (2xx), as `StatusCode::is_success` says.
pub open spec fn is_success_code(code: u16) -> bool {
    200 <= code && code <= 299
}

/// The reason phrase `StatusCode`'s `Display` writes after the number: the
/// canonical reason of `code`, or `<unknown status code>`.
pub uninterp spec fn status_reason(code: u16) -> Seq<char>;

/// What `StatusCode`'s `Display` writes for `code`: the number, a space and
/// the reason phrase.
pub open spec fn status_display(code: u16) -> Seq<char> {
    decimal(code as nat) + " "@ + status_reason(code)
}

/// The text of an HTTP status (`reqwest::StatusCode::from_u16`, then
/// `to_string`, which writes `"{} {}"` of the number and the reason).
/// Codes 100 to 999 are the valid ones.
#[verifier::external_body]
fn status_text(code: u16) -> (r: String)
    requires
        100 <= code <= 999,
    ensures
        r@ == decimal(code as nat) + " "@ + status_reason(code),
{
    match reqwest::StatusCode::from_u16(code) {
        Ok(s) => s.to_string(),
        Err(e) => e.to_string(),
    }
}

/// The message of a refused chat or embedding request.
pub open spec fn refusal_message(code: u16, body: Seq<char>) -> Seq<char> {
    "Ollama returned "@ + status_display(code) + ": "@ + body
}

/// The message of an answer that did not parse.
pub open spec fn bad_answer_message(error: Seq<char>, raw: Seq<char>) -> Seq<char> {
    error + " – raw: "@ + raw
}

/// The message of a model list that did not parse.
pub open spec fn bad_model_list_message(error: Seq<char>) -> Seq<char> {
    "failed to parse model list: "@ + error
}

/// The message of a refused model pull.
pub open spec fn pull_refusal_message(code: u16, body: Seq<char>) -> Seq<char> {
    "HTTP "@ + status_display(code) + ": "@ + body
}

/// Adapter that talks to a local Ollama HTTP server.
#[derive(Debug)]
pub struct OllamaClient {
    client: reqwest::Client,
    base_url: String,
}

impl View for OllamaClient {
    type V = Seq<char>;

    /// The server URL.
    closed spec fn view(&self) -> Seq<char> {
        self.base_url@
    }
}

impl OllamaClient {
    /// The HTTP client the adapter sends its requests with.
    pub closed spec fn client(&self) -> reqwest::Client {
        self.client
    }

    /// An adapter for the server at `base_url`, sending with `client`.
    pub fn new(client: reqwest::Client, base_url: String) -> (c: Self)
        ensures
            c@ == base_url@,
            c.client() == client,
    {
        OllamaClient { client, base_url }
    }

    /// The server URL.
    pub fn base_url(&self) -> (r: &str)
        ensures
            r@ == self@,
    {
        self.base_url.as_str()
    }

    /// The HTTP client.
    pub fn http_client(&self) -> (r: &reqwest::Client)
        ensures
            *r == self.client(),
    {
        &self.client
    }

    /// The chat endpoint.
    pub fn chat_url(&self) -> (r: String)
        ensures
            r@ == api_url(self@, "chat"@),
    {
        endpoint(self.base_url.as_str(), "chat")
    }

    /// The embedding endpoint.
    pub fn embed_url(&self) -> (r: String)
        ensures
            r@ == api_url(self@, "embed"@),
    {
        endpoint(self.base_url.as_str(), "embed")
    }

    /// The endpoint listing the local models.
    pub fn tags_url(&self) -> (r: String)
        ensures
            r@ == api_url(self@, "tags"@),
    {
        endpoint(self.base_url.as_str(), "tags")
    }

    /// The body of an answer with status `code`: the body itself on success,
    /// else a parse error naming the status and the body.
    pub fn accept_reply(code: u16, body: String) -> (r: Result<String, OddOnkeyError>)
        requires
            100 <= code <= 999,
        ensures
            is_success_code(code) ==> r == Ok::<String, OddOnkeyError>(body),
            !is_success_code(code) ==> (r matches Err(OddOnkeyError::Parse(m)) && m@
                == refusal_message(code, body@)),
    {
        if 200 <= code && code <= 299 {
            Ok(body)
        } else {
            let mut m = String::from_str("Ollama returned ");
            let st = status_text(code);
            append_str(&mut m, st.as_str());
            append_str(&mut m, ": ");
            append_str(&mut m, body.as_str());
            Err(OddOnkeyError::Parse(m))
        }
    }

    /// The error for an answer whose body did not parse.
    pub fn bad_answer(error: &str, raw: &str) -> (e: OddOnkeyError)
        ensures
            e matches OddOnkeyError::Parse(m) && m@ == bad_answer_message(error@, raw@),
    {
        let mut m = String::from_str(error);
        append_str(&mut m, " – raw: ");
        append_str(&mut m, raw);
        OddOnkeyError::Parse(m)
    }

    /// The error for a model list that did not parse.
    pub fn bad_model_list(error: &str) -> (e: OddOnkeyError)
        ensures
            e matches OddOnkeyError::Parse(m) && m@ == bad_model_list_message(error@),
    {
        let mut m = String::from_str("failed to parse model list: ");
        append_str(&mut m, error);
        OddOnkeyError::Parse(m)
    }
}

/// The outcome of a model pull answered with status `code`.
pub fn pull_answer(code: u16, body: &str) -> (r: Result<(), OddOnkeyError>)
    requires
        100 <= code <= 999,
    ensures
        is_success_code(code) ==> r is Ok,
        !is_success_code(code) ==> (r matches Err(OddOnkeyError::ModelPullFailed(m)) && m@
            == pull_refusal_message(code, body@)),
{
    if 200 <= code && code <= 299 {
        Ok(())
    } else {
        let mut m = String::from_str("HTTP ");
        let st = status_text(code);
        append_str(&mut m, st.as_str());
        append_str(&mut m, ": ");
        append_str(&mut m, body);
        Err(OddOnkeyError::ModelPullFailed(m))
    }
}

} // verus!
