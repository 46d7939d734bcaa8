//! The conversation state of a model handle: pre-prompts, history and reports.
//!
//! The handle that talks to a backend keeps one of these and asks it which
//! messages to send and what to remember once a reply has come back.

use vstd::prelude::*;
use crate::domain::error::OddOnkeyError;
use crate::domain::message::{
    ChatMessage, MessageView, messages_view, system_message, user_message, assistant_message,
};
use crate::domain::report::{PromptReport, ReportView, estimate_tokens, token_estimate};
use crate::session::builder::{OddOnkeyBuilder, initial_builder};

verus! {

/// The messages sent for a prompt: one system message per pre-prompt, then the
/// history, then the new user message.
pub open spec fn conversation(
    system_prompts: Seq<Seq<char>>,
    history: Seq<MessageView>,
    user: Seq<char>,
) -> Seq<MessageView> {
    system_prompts.map_values(|p: Seq<char>| system_message(p)) + history + seq![user_message(user)]
}

/// The report recorded for an exchange.
pub open spec fn exchange_report(
    model: Seq<char>,
    user: Seq<char>,
    reply: Seq<char>,
    duration_nanos: nat,
    request_bytes: nat,
    response_bytes: nat,
) -> ReportView {
    ReportView {
        duration_nanos,
        prompt_tokens_est: token_estimate(user),
        completion_tokens_est: token_estimate(reply),
        request_bytes,
        response_bytes,
        model,
    }
}

/// The abstract state of a model handle.
pub struct OddOnkeyView {
    pub model: Seq<char>,
    pub system_prompts: Seq<Seq<char>>,
    pub history: Seq<MessageView>,
    pub progress: bool,
    pub report_enabled: bool,
    pub last_report: Option<ReportView>,
}

/// Conversation state of a handle to an LLM model.
#[derive(Debug)]
pub struct OddOnkey {
    model: String,
    system_prompts: Vec<String>,
    history: Vec<ChatMessage>,
    progress: bool,
    report_enabled: bool,
    last_report: Option<PromptReport>,
}

/// The abstract value of an optional report.
pub open spec fn report_view(r: Option<PromptReport>) -> Option<ReportView> {
    match r {
        Some(x) => Some(x@),
        None => None,
    }
}

impl View for OddOnkey {
    type V = OddOnkeyView;

    closed spec fn view(&self) -> OddOnkeyView {
        OddOnkeyView {
            model: self.model@,
            system_prompts: self.system_prompts@.map_values(|s: String| s@),
            history: messages_view(self.history@),
            progress: self.progress,
            report_enabled: self.report_enabled,
            last_report: report_view(self.last_report),
        }
    }
}

impl OddOnkey {
    /// Create a [`OddOnkeyBuilder`] for fine-grained configuration.
    pub fn builder(model_name: &str) -> (b: OddOnkeyBuilder)
        ensures
            b@ == initial_builder(model_name@),
    {
        OddOnkeyBuilder::new(model_name)
    }

    /// A fresh handle for `model`: no pre-prompts, no history, no report yet.
    pub fn from_settings(model: String, progress: bool, report: bool) -> (s: Self)
        ensures
            s@ == (OddOnkeyView {
                model: model@,
                system_prompts: Seq::empty(),
                history: Seq::empty(),
                progress,
                report_enabled: report,
                last_report: None,
            }),
    {
        let s = OddOnkey {
            model,
            system_prompts: Vec::new(),
            history: Vec::new(),
            progress,
            report_enabled: report,
            last_report: None,
        };
        assert(s@.system_prompts =~= Seq::empty());
        assert(s@.history =~= Seq::empty());
        s
    }

    /// Enable or disable the progress display.
    pub fn enable_progress(&mut self, on: bool)
        ensures
            final(self)@ == (OddOnkeyView { progress: on, ..old(self)@ }),
    {
        self.progress = on;
    }

    /// Enable or disable the per-prompt report.
    pub fn enable_report(&mut self, on: bool)
        ensures
            final(self)@ == (OddOnkeyView { report_enabled: on, ..old(self)@ }),
    {
        self.report_enabled = on;
    }

    /// Whether the progress display is on.
    pub fn shows_progress(&self) -> (r: bool)
        ensures
            r == self@.progress,
    {
        self.progress
    }

    /// Whether per-prompt reports are collected.
    pub fn report_enabled(&self) -> (r: bool)
        ensures
            r == self@.report_enabled,
    {
        self.report_enabled
    }

    /// The report from the most recent prompt, if one was collected.
    pub fn last_report(&self) -> (r: Option<&PromptReport>)
        ensures
            match r {
                Some(x) => self@.last_report == Some(x@),
                None => self@.last_report is None,
            },
    {
        self.last_report.as_ref()
    }

    /// Add a system-level pre-prompt.
    pub fn add_preprompt(&mut self, text: &str)
        ensures
            final(self)@ == (OddOnkeyView {
                system_prompts: old(self)@.system_prompts.push(text@),
                ..old(self)@
            }),
    {
        self.system_prompts.push(String::from_str(text));
        assert(final(self)@.system_prompts =~= old(self)@.system_prompts.push(text@));
    }

    /// Replace all existing pre-prompts with a single one.
    pub fn set_preprompt(&mut self, text: &str)
        ensures
            final(self)@ == (OddOnkeyView { system_prompts: seq![text@], ..old(self)@ }),
    {
        self.system_prompts.clear();
        self.system_prompts.push(String::from_str(text));
        assert(final(self)@.system_prompts =~= seq![text@]);
    }

    /// Clear conversation history (keep pre-prompts).
    pub fn clear_history(&mut self)
        ensures
            final(self)@ == (OddOnkeyView { history: Seq::empty(), ..old(self)@ }),
    {
        self.history.clear();
        assert(final(self)@.history =~= Seq::<MessageView>::empty());
    }

    /// Manually add a user + assistant exchange to history.
    pub fn push_assistant_message(&mut self, user_message: &str, assistant_reply: &str)
        ensures
            final(self)@ == (OddOnkeyView {
                history: old(self)@.history + seq![
                    crate::domain::message::user_message(user_message@),
                    assistant_message(assistant_reply@),
                ],
                ..old(self)@
            }),
    {
        self.history.push(ChatMessage::user(user_message));
        self.history.push(ChatMessage::assistant(assistant_reply));
        assert(final(self)@.history =~= old(self)@.history + seq![
            crate::domain::message::user_message(user_message@),
            assistant_message(assistant_reply@),
        ]);
    }

    /// Return the model name this instance is using.
    pub fn model_name(&self) -> (r: &str)
        ensures
            r@ == self@.model,
    {
        self.model.as_str()
    }

    /// The messages to send for `user_message`: the pre-prompts as system
    /// messages, then the history, then the new user message.
    pub fn build_messages(&self, user_message: &str) -> (ms: Vec<ChatMessage>)
        ensures
            messages_view(ms@) == conversation(self@.system_prompts, self@.history, user_message@),
    {
        let mut ms: Vec<ChatMessage> = Vec::new();
        let ghost prompts = self@.system_prompts;
        let mut i: usize = 0;
        while i < self.system_prompts.len()
            invariant
                i <= self.system_prompts@.len(),
                prompts == self@.system_prompts,
                prompts.len() == self.system_prompts@.len(),
                messages_view(ms@) =~= prompts.take(i as int).map_values(
                    |p: Seq<char>| system_message(p),
                ),
            decreases self.system_prompts@.len() - i,
        {
            let ghost before = ms@;
            let m = ChatMessage::system(self.system_prompts[i].as_str());
            ms.push(m);
            assert(messages_view(ms@) =~= messages_view(before).push(m@));
            assert(prompts.take(i + 1) =~= prompts.take(i as int).push(prompts[i as int]));
            i = i + 1;
        }
        assert(prompts.take(i as int) =~= prompts);
        let ghost head = messages_view(ms@);
        let mut k: usize = 0;
        while k < self.history.len()
            invariant
                k <= self.history@.len(),
                messages_view(ms@) =~= head + messages_view(self.history@).take(k as int),
            decreases self.history@.len() - k,
        {
            let ghost before = ms@;
            let m = self.history[k].clone();
            ms.push(m);
            assert(messages_view(ms@) =~= messages_view(before).push(m@));
            assert(messages_view(self.history@).take(k + 1) =~= messages_view(
                self.history@,
            ).take(k as int).push(m@));
            k = k + 1;
        }
        assert(messages_view(self.history@).take(k as int) =~= messages_view(self.history@));
        ms.push(ChatMessage::user(user_message));
        assert(messages_view(ms@) =~= conversation(
            self@.system_prompts,
            self@.history,
            user_message@,
        ));
        ms
    }

    /// The messages of a one-shot prompt: the user message alone, without
    /// history or pre-prompts.
    pub fn one_shot_messages(user_message: &str) -> (ms: Vec<ChatMessage>)
        ensures
            messages_view(ms@) == seq![crate::domain::message::user_message(user_message@)],
    {
        let mut ms: Vec<ChatMessage> = Vec::new();
        ms.push(ChatMessage::user(user_message));
        assert(messages_view(ms@) =~= seq![crate::domain::message::user_message(user_message@)]);
        ms
    }

    /// Remember a completed exchange: the user message and the reply join the
    /// history and, when reports are enabled, a report of the exchange becomes
    /// the last report.  `request_bytes` and `response_bytes` are the sizes of
    /// the serialised request body and of the raw response body of the
    /// exchange, `duration_nanos` its round-trip time.
    pub fn record_exchange(
        &mut self,
        user_message: &str,
        reply: &str,
        duration_nanos: u128,
        request_bytes: usize,
        response_bytes: usize,
    )
        ensures
            final(self)@ == (OddOnkeyView {
                history: old(self)@.history + seq![
                    crate::domain::message::user_message(user_message@),
                    assistant_message(reply@),
                ],
                last_report: if old(self)@.report_enabled {
                    Some(
                        exchange_report(
                            old(self)@.model,
                            user_message@,
                            reply@,
                            duration_nanos as nat,
                            request_bytes as nat,
                            response_bytes as nat,
                        ),
                    )
                } else {
                    old(self)@.last_report
                },
                ..old(self)@
            }),
    {
        if self.report_enabled {
            let report = PromptReport {
                duration_nanos,
                prompt_tokens_est: estimate_tokens(user_message),
                completion_tokens_est: estimate_tokens(reply),
                request_bytes,
                response_bytes,
                model: self.model.clone(),
            };
            self.last_report = Some(report);
        }
        self.push_assistant_message(user_message, reply);
    }

    /// Copies of borrowed texts, for a batch embedding request.
    pub fn owned_texts(texts: &[&str]) -> (r: Vec<String>)
        ensures
            r@.map_values(|s: String| s@) == texts@.map_values(|s: &str| s@),
    {
        let mut r: Vec<String> = Vec::new();
        let mut i: usize = 0;
        while i < texts.len()
            invariant
                i <= texts@.len(),
                r@.map_values(|s: String| s@) =~= texts@.take(i as int).map_values(|s: &str| s@),
            decreases texts@.len() - i,
        {
            let ghost before = r@;
            let t = String::from_str(texts[i]);
            r.push(t);
            assert(r@.map_values(|s: String| s@) =~= before.map_values(|s: String| s@).push(t@));
            assert(texts@.take(i + 1) =~= texts@.take(i as int).push(texts@[i as int]));
            i = i + 1;
        }
        assert(texts@.take(i as int) =~= texts@);
        r
    }

    /// The embedding of a single text out of a batch answer: the last vector,
    /// or a parse error when the answer holds none.
    pub fn last_embedding<T>(vecs: Vec<T>) -> (r: Result<T, OddOnkeyError>)
        ensures
            vecs@.len() > 0 ==> r == Ok::<T, OddOnkeyError>(vecs@.last()),
            vecs@.len() == 0 ==> (r matches Err(OddOnkeyError::Parse(m))
                && m@ == "empty embedding response"@),
    {
        let mut vecs = vecs;
        match vecs.pop() {
            Some(v) => Ok(v),
            None => Err(OddOnkeyError::Parse(String::from_str("empty embedding response"))),
        }
    }
}

/// Follow-up prompts carry the conversation so far: once an exchange
/// (`user`, `reply`) is in the history, the messages sent for the next prompt
/// are exactly the messages sent for `user`, followed by the reply and the new
/// prompt.
pub proof fn lemma_followup_extends_conversation(
    system_prompts: Seq<Seq<char>>,
    history: Seq<MessageView>,
    user: Seq<char>,
    reply: Seq<char>,
    next: Seq<char>,
)
    ensures
        conversation(
            system_prompts,
            history + seq![user_message(user), assistant_message(reply)],
            next,
        ) == conversation(system_prompts, history, user) + seq![
            assistant_message(reply),
            user_message(next),
        ],
{
    assert(conversation(
        system_prompts,
        history + seq![user_message(user), assistant_message(reply)],
        next,
    ) =~= conversation(system_prompts, history, user) + seq![
        assistant_message(reply),
        user_message(next),
    ]);
}

/// Every pre-prompt is sent, in order, as a system message: the messages for a
/// prompt are one system message per pre-prompt, then the history unchanged,
/// then the prompt as a user message, and nothing else.
pub proof fn lemma_every_preprompt_is_sent(
    system_prompts: Seq<Seq<char>>,
    history: Seq<MessageView>,
    user: Seq<char>,
)
    ensures
        conversation(system_prompts, history, user).len() == system_prompts.len() + history.len() + 1,
        forall|i: int|
            0 <= i < system_prompts.len() ==> #[trigger] conversation(system_prompts, history, user)[i]
                == (MessageView { role: "system"@, content: system_prompts[i] }),
        forall|j: int|
            0 <= j < history.len() ==> #[trigger] conversation(system_prompts, history, user)[system_prompts.len()
                + j] == history[j],
        conversation(system_prompts, history, user).last() == (MessageView { role: "user"@, content: user }),
{
    let c = conversation(system_prompts, history, user);
    let n = system_prompts.len() as int;
    assert forall|j: int| 0 <= j < history.len() implies #[trigger] c[n + j] == history[j] by {
        assert(c[n + j] == (system_prompts.map_values(|p: Seq<char>| system_message(p)) + history)[n + j]);
    }
}

} // verus!
