//! Making sure the requested model is available locally, pulling it if not.

use vstd::prelude::*;
use crate::adapters::ollama::client::{api_url, endpoint, is_success_code, pull_answer, pull_refusal_message};
use crate::adapters::ollama::lines::{LineBuffer, line_len};
use crate::domain::error::OddOnkeyError;
use crate::text::{chars_of, trim, utf8_lossy, append_str};

verus! {

/// The full name of a model: `name:tag`, where a name given without a tag
/// stands for its `latest` tag.
pub open spec fn full_name(s: Seq<char>) -> Seq<char> {
    if s.contains(':') {
        s
    } else {
        s + ":latest"@
    }
}

/// The characters of the full name of `s`.
pub fn full_name_of(s: &str) -> (r: Vec<char>)
    ensures
        r@ == full_name(s@),
{
    let mut r = chars_of(s);
    let mut i: usize = 0;
    while i < r.len()
        invariant
            r@ == s@,
            i <= r@.len(),
            forall|k: int| 0 <= k < i ==> r@[k] != ':',
        decreases r@.len() - i,
    {
        if r[i] == ':' {
            assert(s@.contains(':') ) by {
                assert(s@[i as int] == ':');
            }
            return r;
        }
        i = i + 1;
    }
    assert(!s@.contains(':'));
    let tag = chars_of(":latest");
    let mut k: usize = 0;
    while k < tag.len()
        invariant
            tag@ == ":latest"@,
            k <= tag@.len(),
            r@ == s@ + tag@.take(k as int),
        decreases tag@.len() - k,
    {
        r.push(tag[k]);
        assert(s@ + tag@.take(k + 1) =~= (s@ + tag@.take(k as int)).push(tag@[k as int]));
        k = k + 1;
    }
    assert(tag@.take(k as int) =~= tag@);
    r
}

fn same_chars(a: &Vec<char>, b: &Vec<char>) -> (r: bool)
    ensures
        r == (a@ == b@),
{
    if a.len() != b.len() {
        return false;
    }
    let mut i: usize = 0;
    while i < a.len()
        invariant
            a@.len() == b@.len(),
            i <= a@.len(),
            forall|k: int| 0 <= k < i ==> a@[k] == b@[k],
        decreases a@.len() - i,
    {
        if a[i] != b[i] {
            return false;
        }
        i = i + 1;
    }
    assert(a@ =~= b@);
    true
}

/// Whether the model `model` is among the local models `names`: same name
/// and same tag, a missing tag meaning `latest`.
pub open spec fn model_present(names: Seq<Seq<char>>, model: Seq<char>) -> bool {
    exists|i: int| 0 <= i < names.len() && #[trigger] full_name(names[i]) == full_name(model)
}

/// Whether `model` is among the local models `names` (same name and tag).
pub fn model_is_present(names: &Vec<String>, model: &str) -> (r: bool)
    ensures
        r == model_present(names@.map_values(|s: String| s@), model@),
{
    let needed = full_name_of(model);
    let ghost ns = names@.map_values(|s: String| s@);
    let mut i: usize = 0;
    while i < names.len()
        invariant
            i <= names@.len(),
            ns == names@.map_values(|s: String| s@),
            needed@ == full_name(model@),
            forall|k: int| 0 <= k < i ==> #[trigger] full_name(ns[k]) != full_name(model@),
        decreases names@.len() - i,
    {
        let local = full_name_of(names[i].as_str());
        if same_chars(&local, &needed) {
            assert(full_name(ns[i as int]) == full_name(model@));
            return true;
        }
        i = i + 1;
    }
    false
}

/// The fields of one progress line of a streamed pull that the progress
/// display reads: `total` and `completed` (when unsigned integers) and
/// `status` (when a string).
#[derive(Debug)]
pub struct PullStatus {
    pub total: Option<u64>,
    pub completed: Option<u64>,
    pub status: Option<String>,
}

/// What `serde_json` finds in `line` when it is JSON: the unsigned integers
/// under `total_key` and `completed_key` and the string under `status_key`.
pub uninterp spec fn pull_status_fields(line: Seq<char>, total_key: Seq<char>, completed_key: Seq<char>, status_key: Seq<char>) -> Option<(Option<u64>, Option<u64>, Option<Seq<char>>)>;

/// The abstract fields of a parsed progress line.
pub open spec fn pull_status_view(p: PullStatus) -> (Option<u64>, Option<u64>, Option<Seq<char>>) {
    (p.total, p.completed, match p.status {
        Some(s) => Some(s@),
        None => None,
    })
}

/// Parses a progress line as a JSON value (`serde_json::from_str::<Value>`)
/// and reads the fields under the three keys (`Value::get`, then `as_u64`,
/// `as_u64` and `as_str`).
#[verifier::external_body]
fn parse_pull_status(line: &str, total_key: &str, completed_key: &str, status_key: &str) -> (r: Option<PullStatus>)
    ensures
        match r {
            Some(p) => pull_status_fields(line@, total_key@, completed_key@, status_key@) == Some(pull_status_view(p)),
            None => pull_status_fields(line@, total_key@, completed_key@, status_key@) is None,
        },
{
    let obj: serde_json::Value = match serde_json::from_str(line) {
        Ok(v) => v,
        Err(_) => return None,
    };
    Some(PullStatus {
        total: obj.get(total_key).and_then(serde_json::Value::as_u64),
        completed: obj.get(completed_key).and_then(serde_json::Value::as_u64),
        status: obj.get(status_key).and_then(serde_json::Value::as_str).map(String::from),
    })
}

/// What a progress bar shows: its length, its position and its message.
pub struct ProgressView {
    pub length: u64,
    pub position: u64,
    pub message: Seq<char>,
}

/// The display after a progress line: each field the line holds replaces
/// the one shown; a line that is not JSON changes nothing.  The fields are
/// `total`, `completed` and `status`.
pub open spec fn apply_status(p: ProgressView, line: Seq<char>) -> ProgressView {
    match pull_status_fields(line, "total"@, "completed"@, "status"@) {
        None => p,
        Some((total, completed, status)) => ProgressView {
            length: match total {
                Some(t) => t,
                None => p.length,
            },
            position: match completed {
                Some(c) => c,
                None => p.position,
            },
            message: match status {
                Some(s) => s,
                None => p.message,
            },
        },
    }
}

/// The display after every complete line of `text` has been applied in
/// order (blank lines skipped); an unterminated last line waits.
pub open spec fn apply_lines(p: ProgressView, text: Seq<char>) -> ProgressView
    decreases text.len(),
{
    if line_len(text) < text.len() {
        let line = trim(text.take(line_len(text) as int));
        let next = if line.len() > 0 {
            apply_status(p, line)
        } else {
            p
        };
        apply_lines(next, text.skip(line_len(text) as int + 1))
    } else {
        p
    }
}

/// What is left of `text` once its complete lines are taken out.
pub open spec fn unterminated_rest(text: Seq<char>) -> Seq<char>
    decreases text.len(),
{
    if line_len(text) < text.len() {
        unterminated_rest(text.skip(line_len(text) as int + 1))
    } else {
        text
    }
}

/// The progress display of a streamed pull.
#[derive(Debug)]
pub struct PullProgress {
    pub length: u64,
    pub position: u64,
    pub message: String,
}

impl View for PullProgress {
    type V = ProgressView;

    open spec fn view(&self) -> ProgressView {
        ProgressView { length: self.length, position: self.position, message: self.message@ }
    }
}

impl PullProgress {
    /// Applies one progress line.
    pub fn apply(&mut self, line: &str)
        ensures
            final(self)@ == apply_status(old(self)@, line@),
    {
        match parse_pull_status(line, "total", "completed", "status") {
            None => {},
            Some(p) => {
                if let Some(t) = p.total {
                    self.length = t;
                }
                if let Some(c) = p.completed {
                    self.position = c;
                }
                if let Some(s) = p.status {
                    self.message = s;
                }
            },
        }
    }
}

/// Where the availability check stands.
#[derive(Debug, Clone, Copy, PartialEq, Eq)]
pub enum ModelPhase {
    /// Listing the local models.
    Listing,
    /// The pull request has been sent.
    Pulling,
    /// Reading the progress lines of a streamed pull.
    Streaming,
    /// The check is over.
    Finished,
}

/// What the caller reports to the availability check.
#[derive(Debug)]
pub enum ModelEvent {
    /// The model list request failed.
    ListFailed(reqwest::Error),
    /// The model list arrived: the model names, or `None` when the answer
    /// did not parse (it then counts as an empty list).
    Listed(Option<Vec<String>>),
    /// The pull request failed.
    PullFailed(reqwest::Error),
    /// The pull request was answered with status `code`; `body` is the text
    /// of the answer (read when the pull was refused or not streamed).
    PullAnswered { code: u16, body: String },
    /// A chunk of the streamed pull arrived.
    Chunk(Vec<u8>),
    /// Reading the streamed pull failed.
    ChunkFailed(reqwest::Error),
    /// The streamed pull ended.
    StreamEnded,
}

/// What the caller does next for the availability check.
#[derive(Debug)]
pub enum ModelAction {
    /// `GET` the model list at `url`.
    List { url: String },
    /// `POST` `{"name": model, "stream": stream}` to `url`, with a one hour timeout.
    Pull { url: String, stream: bool },
    /// Show the progress display and read the next chunk of the pull.
    ReadChunk,
    /// The check is over; `message` is the closing text of the progress
    /// display, when one was shown.
    Finish { result: Result<(), OddOnkeyError>, message: Option<String> },
}

/// Make sure the requested model has been pulled; pull it if missing.
#[derive(Debug)]
pub struct ModelCheck {
    base_url: String,
    model: String,
    progress: bool,
    phase: ModelPhase,
    lines: LineBuffer,
    display: PullProgress,
}

/// The text a progress display starts with.
pub open spec fn pulling_message(model: Seq<char>) -> Seq<char> {
    "pulling "@ + model
}

/// The text a progress display ends with.
pub open spec fn ready_message(model: Seq<char>) -> Seq<char> {
    model + " ready ✓"@
}

impl ModelCheck {
    /// The current phase.
    pub closed spec fn phase(&self) -> ModelPhase {
        self.phase
    }

    /// The server URL.
    pub closed spec fn base_url(&self) -> Seq<char> {
        self.base_url@
    }

    /// The model checked for.
    pub closed spec fn model(&self) -> Seq<char> {
        self.model@
    }

    /// Whether a progress display is shown.
    pub closed spec fn progress(&self) -> bool {
        self.progress
    }

    /// The progress text not yet split into lines.
    pub closed spec fn pending(&self) -> Seq<char> {
        self.lines@
    }

    /// What the progress display shows.
    pub closed spec fn display(&self) -> ProgressView {
        self.display@
    }

    /// Whether the check waits for this event.
    pub open spec fn awaits(&self, e: ModelEvent) -> bool {
        match self.phase() {
            ModelPhase::Listing => e is ListFailed || e is Listed,
            ModelPhase::Pulling => e is PullFailed || e is PullAnswered,
            ModelPhase::Streaming => e is Chunk || e is ChunkFailed || e is StreamEnded,
            ModelPhase::Finished => false,
        }
    }

    /// A check for `model` on the server at `base_url`; it starts by listing
    /// the local models.
    pub fn new(base_url: &str, model: &str, progress: bool) -> (r: (Self, ModelAction))
        ensures
            r.0.phase() is Listing,
            r.0.base_url() == base_url@,
            r.0.model() == model@,
            r.0.progress() == progress,
            r.0.pending() == Seq::<char>::empty(),
            r.0.display() == (ProgressView { length: 0, position: 0, message: pulling_message(model@) }),
            r.1 matches ModelAction::List { url } && url@ == api_url(base_url@, "tags"@),
    {
        let url = endpoint(base_url, "tags");
        let mut message = String::from_str("pulling ");
        append_str(&mut message, model);
        (
            ModelCheck {
                base_url: String::from_str(base_url),
                model: String::from_str(model),
                progress,
                phase: ModelPhase::Listing,
                lines: LineBuffer::new(),
                display: PullProgress { length: 0, position: 0, message },
            },
            ModelAction::List { url },
        )
    }

    /// Whether the check waits for `e` (the executable form of `awaits`).
    pub fn accepts(&self, e: &ModelEvent) -> (r: bool)
        ensures
            r == self.awaits(*e),
    {
        let listing = matches!(e, ModelEvent::ListFailed(_) | ModelEvent::Listed(_));
        let pulling = matches!(e, ModelEvent::PullFailed(_) | ModelEvent::PullAnswered { .. });
        let streaming = matches!(
            e,
            ModelEvent::Chunk(_) | ModelEvent::ChunkFailed(_) | ModelEvent::StreamEnded
        );
        match self.phase {
            ModelPhase::Listing => listing,
            ModelPhase::Pulling => pulling,
            ModelPhase::Streaming => streaming,
            ModelPhase::Finished => false,
        }
    }

    /// What the progress display shows now.
    pub fn display_state(&self) -> (r: &PullProgress)
        ensures
            r@ == self.display(),
    {
        &self.display
    }

    /// Applies every complete line buffered so far to the progress display.
    fn drain_lines(&mut self)
        ensures
            final(self).phase() == old(self).phase(),
            final(self).base_url() == old(self).base_url(),
            final(self).model() == old(self).model(),
            final(self).progress() == old(self).progress(),
            final(self).display() == apply_lines(old(self).display(), old(self).pending()),
            final(self).pending() == unterminated_rest(old(self).pending()),
    {
        loop
            invariant_except_break
                self.phase() == old(self).phase(),
                self.base_url() == old(self).base_url(),
                self.model() == old(self).model(),
                self.progress() == old(self).progress(),
                apply_lines(self.display(), self.pending()) == apply_lines(
                    old(self).display(),
                    old(self).pending(),
                ),
                unterminated_rest(self.pending()) == unterminated_rest(old(self).pending()),
            ensures
                self.phase() == old(self).phase(),
                self.base_url() == old(self).base_url(),
                self.model() == old(self).model(),
                self.progress() == old(self).progress(),
                self.display() == apply_lines(old(self).display(), old(self).pending()),
                self.pending() == unterminated_rest(old(self).pending()),
            decreases self.pending().len(),
        {
            match self.lines.take_line() {
                None => break,
                Some(line) => {
                    if !line.as_str().is_empty() {
                        self.display.apply(line.as_str());
                    }
                },
            }
        }
    }

    /// Takes in an outcome and says what comes next.  A model already listed
    /// (same name and tag, no tag meaning `latest`) ends the check at once; otherwise it is pulled, and a
    /// refused pull ends the check with a pull error.  A streamed pull feeds
    /// its progress lines to the display until the stream ends.
    pub fn step(&mut self, e: ModelEvent) -> (a: ModelAction)
        requires
            old(self).awaits(e),
        ensures
            final(self).base_url() == old(self).base_url(),
            final(self).model() == old(self).model(),
            final(self).progress() == old(self).progress(),
            match (old(self).phase(), e) {
                (ModelPhase::Listing, ModelEvent::ListFailed(h)) => a == (ModelAction::Finish {
                    result: Err(OddOnkeyError::Http(h)),
                    message: None,
                }) && final(self).phase() is Finished,
                (ModelPhase::Listing, ModelEvent::Listed(names)) => {
                    let ns = match names {
                        Some(v) => v@.map_values(|s: String| s@),
                        None => Seq::empty(),
                    };
                    if model_present(ns, old(self).model()) {
                        a matches ModelAction::Finish { result: Ok(_), message: None }
                            && final(self).phase() is Finished
                    } else {
                        (a matches ModelAction::Pull { url, stream } && url@ == api_url(
                            old(self).base_url(),
                            "pull"@,
                        ) && stream == old(self).progress()) && final(self).phase() is Pulling
                    }
                },
                (ModelPhase::Pulling, ModelEvent::PullFailed(h)) => a == (ModelAction::Finish {
                    result: Err(OddOnkeyError::Http(h)),
                    message: None,
                }) && final(self).phase() is Finished,
                (ModelPhase::Pulling, ModelEvent::PullAnswered { code, body }) => if 100 <= code
                    <= 999 && !is_success_code(code) {
                    (a matches ModelAction::Finish {
                        result: Err(OddOnkeyError::ModelPullFailed(m)),
                        message: None,
                    } && m@ == pull_refusal_message(code, body@)) && final(self).phase() is Finished
                } else if old(self).progress() {
                    a is ReadChunk && final(self).phase() is Streaming && final(self).display()
                        == old(self).display()
                } else {
                    a matches ModelAction::Finish { result: Ok(_), message: None } && final(self).phase() is Finished
                },
                (ModelPhase::Streaming, ModelEvent::ChunkFailed(h)) => a == (ModelAction::Finish {
                    result: Err(OddOnkeyError::Http(h)),
                    message: None,
                }) && final(self).phase() is Finished,
                (ModelPhase::Streaming, ModelEvent::Chunk(bytes)) => {
                    let text = old(self).pending() + utf8_lossy(bytes@);
                    &&& a is ReadChunk
                    &&& final(self).phase() is Streaming
                    &&& final(self).display() == apply_lines(old(self).display(), text)
                    &&& final(self).pending() == unterminated_rest(text)
                },
                (ModelPhase::Streaming, ModelEvent::StreamEnded) => (a matches ModelAction::Finish {
                    result: Ok(_),
                    message: Some(m),
                } && m@ == ready_message(old(self).model())) && final(self).phase() is Finished,
                _ => false,
            },
    {
        match e {
            ModelEvent::ListFailed(h) => {
                self.phase = ModelPhase::Finished;
                ModelAction::Finish { result: Err(OddOnkeyError::Http(h)), message: None }
            },
            ModelEvent::Listed(names) => {
                let present = match &names {
                    Some(v) => model_is_present(v, self.model.as_str()),
                    None => {
                        let empty: Vec<String> = Vec::new();
                        assert(empty@.map_values(|s: String| s@) =~= Seq::<Seq<char>>::empty());
                        model_is_present(&empty, self.model.as_str())
                    },
                };
                if present {
                    self.phase = ModelPhase::Finished;
                    ModelAction::Finish { result: Ok(()), message: None }
                } else {
                    self.phase = ModelPhase::Pulling;
                    ModelAction::Pull {
                        url: endpoint(self.base_url.as_str(), "pull"),
                        stream: self.progress,
                    }
                }
            },
            ModelEvent::PullFailed(h) | ModelEvent::ChunkFailed(h) => {
                self.phase = ModelPhase::Finished;
                ModelAction::Finish { result: Err(OddOnkeyError::Http(h)), message: None }
            },
            ModelEvent::PullAnswered { code, body } => {
                if 100 <= code && code <= 999 && !(200 <= code && code <= 299) {
                    self.phase = ModelPhase::Finished;
                    ModelAction::Finish { result: pull_answer(code, body.as_str()), message: None }
                } else if self.progress {
                    self.phase = ModelPhase::Streaming;
                    ModelAction::ReadChunk
                } else {
                    self.phase = ModelPhase::Finished;
                    ModelAction::Finish { result: Ok(()), message: None }
                }
            },
            ModelEvent::Chunk(bytes) => {
                self.lines.feed(bytes.as_slice());
                self.drain_lines();
                ModelAction::ReadChunk
            },
            ModelEvent::StreamEnded => {
                self.phase = ModelPhase::Finished;
                let mut m = String::from_str(self.model.as_str());
                append_str(&mut m, " ready ✓");
                ModelAction::Finish { result: Ok(()), message: Some(m) }
            },
        }
    }
}

/// A name given without a tag is the same model as that name tagged
/// `latest`, and two tagged names are the same model only when they are equal.
pub proof fn lemma_untagged_means_latest(name: Seq<char>, a: Seq<char>, b: Seq<char>)
    requires
        !name.contains(':'),
        a.contains(':'),
        b.contains(':'),
    ensures
        full_name(name) == full_name(name + ":latest"@),
        full_name(a) == full_name(b) <==> a == b,
{
    reveal_strlit(":latest");
    assert((name + ":latest"@)[name.len() as int] == ':');
}

/// Each field a progress line holds replaces the one shown, whatever was shown
/// before: a line with `total` t sets the bar's length to t, one with
/// `completed` c sets its position to c, one with `status` s sets its message
/// to s; a field the line lacks leaves that part as it was, and a line that is
/// not JSON changes nothing.
pub proof fn lemma_line_fields_replace_display(p: ProgressView, line: Seq<char>)
    ensures
        pull_status_fields(line, "total"@, "completed"@, "status"@) is None ==> apply_status(p, line) == p,
        pull_status_fields(line, "total"@, "completed"@, "status"@) matches Some((total, completed, status)) ==> {
            &&& (total matches Some(t) ==> apply_status(p, line).length == t)
            &&& (total is None ==> apply_status(p, line).length == p.length)
            &&& (completed matches Some(c) ==> apply_status(p, line).position == c)
            &&& (completed is None ==> apply_status(p, line).position == p.position)
            &&& (status matches Some(s) ==> apply_status(p, line).message == s)
            &&& (status is None ==> apply_status(p, line).message == p.message)
        },
{
}

} // verus!
