//! Statistics collected after a prompt completes, and the token estimate they use.

use vstd::prelude::*;
use crate::text::{append_str, count_words, decimal, push_decimal, word_count};

verus! {

/// The abstract contents of a [`PromptReport`].
pub struct ReportView {
    pub duration_nanos: nat,
    pub prompt_tokens_est: nat,
    pub completion_tokens_est: nat,
    pub request_bytes: nat,
    pub response_bytes: nat,
    pub model: Seq<char>,
}

/// Statistics collected after a prompt completes.
///
/// The throughput (tokens per second) is derived from `duration_nanos` and
/// `completion_tokens_est` by the caller that renders the report.
#[derive(Debug, PartialEq, Eq)]
pub struct PromptReport {
    /// Wall-clock time for the full round-trip, in nanoseconds.
    pub duration_nanos: u128,
    /// Number of tokens in the prompt (estimated).
    pub prompt_tokens_est: usize,
    /// Number of tokens in the response (estimated).
    pub completion_tokens_est: usize,
    /// Byte size of the serialised request body.
    pub request_bytes: usize,
    /// Byte size of the raw response body.
    pub response_bytes: usize,
    /// Model name used.
    pub model: String,
}

impl View for PromptReport {
    type V = ReportView;

    open spec fn view(&self) -> ReportView {
        ReportView {
            duration_nanos: self.duration_nanos as nat,
            prompt_tokens_est: self.prompt_tokens_est as nat,
            completion_tokens_est: self.completion_tokens_est as nat,
            request_bytes: self.request_bytes as nat,
            response_bytes: self.response_bytes as nat,
            model: self.model@,
        }
    }
}

impl Clone for PromptReport {
    fn clone(&self) -> (r: Self)
        ensures
            r == *self,
    {
        PromptReport {
            duration_nanos: self.duration_nanos,
            prompt_tokens_est: self.prompt_tokens_est,
            completion_tokens_est: self.completion_tokens_est,
            request_bytes: self.request_bytes,
            response_bytes: self.response_bytes,
            model: self.model.clone(),
        }
    }
}

/// The printed form of a report, with `rate` as the tokens-per-second figure.
pub open spec fn report_text(r: ReportView, rate: Seq<char>) -> Seq<char> {
    "── report ──────────────────────────────────\nmodel           : "@ + r.model + "\nduration        : "@
        + decimal(r.duration_nanos / 1_000_000) + " ms\nprompt tokens   : ~"@
        + decimal(r.prompt_tokens_est) + " (est.)\ncompletion tkns : ~"@
        + decimal(r.completion_tokens_est) + " (est.)\ntokens/sec      : "@ + rate
        + "\nrequest size    : "@ + decimal(r.request_bytes) + " bytes\nresponse size   : "@
        + decimal(r.response_bytes) + " bytes\n────────────────────────────────────────────"@
}

impl PromptReport {
    /// The report as it is printed; `rate` is the tokens-per-second figure,
    /// already formatted by the caller (one decimal place).
    pub fn render(&self, rate: &str) -> (s: String)
        ensures
            s@ == report_text(self@, rate@),
    {
        let mut s = String::new();
        append_str(&mut s, "── report ──────────────────────────────────\nmodel           : ");
        append_str(&mut s, self.model.as_str());
        append_str(&mut s, "\nduration        : ");
        push_decimal(&mut s, self.duration_ms());
        append_str(&mut s, " ms\nprompt tokens   : ~");
        push_decimal(&mut s, self.prompt_tokens_est as u128);
        append_str(&mut s, " (est.)\ncompletion tkns : ~");
        push_decimal(&mut s, self.completion_tokens_est as u128);
        append_str(&mut s, " (est.)\ntokens/sec      : ");
        append_str(&mut s, rate);
        append_str(&mut s, "\nrequest size    : ");
        push_decimal(&mut s, self.request_bytes as u128);
        append_str(&mut s, " bytes\nresponse size   : ");
        push_decimal(&mut s, self.response_bytes as u128);
        append_str(&mut s, " bytes\n────────────────────────────────────────────");
        s
    }

    /// The duration in whole milliseconds.
    pub fn duration_ms(&self) -> (ms: u128)
        ensures
            ms == self.duration_nanos / 1_000_000,
    {
        self.duration_nanos / 1_000_000
    }
}

/// About 1.3 tokens per word: the least integer not below `1.3 * words`.
pub open spec fn tokens_for_words(words: nat) -> nat {
    (13 * words + 9) / 10
}

/// The token estimate of a text, capped at `usize::MAX`.
pub open spec fn token_estimate(text: Seq<char>) -> nat {
    let t = tokens_for_words(word_count(text));
    if t > usize::MAX { usize::MAX as nat } else { t }
}

/// Rough token estimate (~1.3 tokens per whitespace-delimited word).
pub fn estimate_tokens(text: &str) -> (n: usize)
    ensures
        n == token_estimate(text@),
{
    let words = count_words(text);
    let t: u128 = (13 * (words as u128) + 9) / 10;
    if t > usize::MAX as u128 {
        usize::MAX
    } else {
        t as usize
    }
}

} // verus!
