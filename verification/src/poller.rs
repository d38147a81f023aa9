//! The text-to-speech job poller: look a voice up in the catalog, submit an
//! inference job under a fresh idempotency token, then poll the job's status
//! a bounded number of times until it is definitively done. The polling
//! decisions are verified here over the sequence of status reports; the
//! HTTP calls and the waits between polls happen outside.

use vstd::prelude::*;
use crate::jsonio::json_field2_str;
use crate::jsonio::json_nested_string_field;
use crate::text::escaped;
use crate::text::json_escape;
use crate::text::joined_lines;
use crate::text::join_lines;

verus! {

/// Why polling stops without an asset.
#[derive(Clone, Copy, PartialEq, Eq, Structural, Debug)]
pub enum PollError {
    /// No definitive state arrived within the attempt budget.
    Timeout,
    /// The job reached a definitive failure state.
    JobFailed,
}

/// One voice of the catalog.
pub struct Voice {
    pub model_token: String,
    pub title: String,
}

impl View for Voice {
    type V = (Seq<char>, Seq<char>);

    open spec fn view(&self) -> (Seq<char>, Seq<char>) {
        (self.model_token@, self.title@)
    }
}

impl DeepView for Voice {
    type V = (Seq<char>, Seq<char>);

    open spec fn deep_view(&self) -> (Seq<char>, Seq<char>) {
        self@
    }
}

/// One poll's parsed status report: the job status, and the asset path when
/// the service published one.
pub struct PollReport {
    pub status: Option<String>,
    pub audio_path: Option<String>,
}

impl View for PollReport {
    type V = (Option<Seq<char>>, Option<Seq<char>>);

    open spec fn view(&self) -> (Option<Seq<char>>, Option<Seq<char>>) {
        (
            match self.status {
                Some(ref s) => Some(s@),
                None => None,
            },
            match self.audio_path {
                Some(ref p) => Some(p@),
                None => None,
            },
        )
    }
}

impl DeepView for PollReport {
    type V = (Option<Seq<char>>, Option<Seq<char>>);

    open spec fn deep_view(&self) -> (Option<Seq<char>>, Option<Seq<char>>) {
        self@
    }
}

/// What one poll decides.
pub enum PollOutcome {
    /// Nothing definitive yet: poll again.
    Pending,
    /// Definitive success: the asset is at this path.
    Ready { path: String },
    /// Definitive failure.
    Failed,
}

/// Whether a report is definitive: success with the asset path present, or
/// one of the failure states.
pub open spec fn spec_poll_terminal(r: (Option<Seq<char>>, Option<Seq<char>>)) -> bool {
    ||| (r.0 == Some("complete_success"@) && r.1 is Some)
    ||| r.0 == Some("complete_failure"@)
    ||| r.0 == Some("dead"@)
}

/// The asset path of a definitively successful report.
pub open spec fn spec_poll_success(r: (Option<Seq<char>>, Option<Seq<char>>)) -> Option<
    Seq<char>,
> {
    if r.0 == Some("complete_success"@) {
        r.1
    } else {
        None
    }
}

/// Reads one status report: success with an asset path is done, the failure
/// states are done, everything else — including success not yet carrying a
/// path — means polling goes on.
pub fn classify_report(report: &PollReport) -> (r: PollOutcome)
    ensures
        match r {
            PollOutcome::Pending => !spec_poll_terminal(report@),
            PollOutcome::Ready { path } => spec_poll_terminal(report@) && spec_poll_success(
                report@,
            ) == Some(path@),
            PollOutcome::Failed => spec_poll_terminal(report@) && spec_poll_success(report@)
                is None,
        },
{
    proof {
        reveal_strlit("complete_success");
        reveal_strlit("complete_failure");
        reveal_strlit("dead");
        assert("complete_success"@[9] != "complete_failure"@[9]);
        assert("complete_success"@.len() != "dead"@.len());
    }
    let success = String::from_str("complete_success");
    let failure = String::from_str("complete_failure");
    let dead = String::from_str("dead");
    match &report.status {
        None => PollOutcome::Pending,
        Some(st) => {
            if *st == success {
                match &report.audio_path {
                    Some(p) => PollOutcome::Ready { path: p.clone() },
                    None => PollOutcome::Pending,
                }
            } else if *st == failure || *st == dead {
                PollOutcome::Failed
            } else {
                PollOutcome::Pending
            }
        },
    }
}

/// Parses a status-endpoint body into a report: the status and asset path
/// live under the response's `state` object.
pub fn parse_poll_report(body: &str) -> (r: PollReport)
    ensures
        r@ == (
            json_field2_str(body@, "state"@, "status"@),
            json_field2_str(body@, "state"@, "maybe_public_bucket_wav_audio_path"@),
        ),
{
    let status = json_nested_string_field(body, "state", "status");
    let audio_path = json_nested_string_field(body, "state", "maybe_public_bucket_wav_audio_path");
    PollReport { status, audio_path }
}

/// The download URL for an asset path.
pub open spec fn spec_asset_url(path: Seq<char>) -> Seq<char> {
    "https://storage.googleapis.com/vocodes-public"@ + path
}

/// Formats the download URL for an asset path.
pub fn asset_url(path: &str) -> (r: String)
    ensures
        r@ == spec_asset_url(path@),
{
    let mut url = String::from_str("https://storage.googleapis.com/vocodes-public");
    url.append(path);
    proof {
        assert(url@ =~= spec_asset_url(path@));
    }
    url
}

/// The status endpoint for a job token.
pub open spec fn spec_job_status_url(token: Seq<char>) -> Seq<char> {
    "https://api.fakeyou.com/tts/job/"@ + token
}

/// Formats the status endpoint URL for a job token.
pub fn job_status_url(token: &str) -> (r: String)
    ensures
        r@ == spec_job_status_url(token@),
{
    let mut url = String::from_str("https://api.fakeyou.com/tts/job/");
    url.append(token);
    proof {
        assert(url@ =~= spec_job_status_url(token@));
    }
    url
}

/// The first definitive report at an index in `[i, n)`.
pub open spec fn first_terminal(
    rs: Seq<(Option<Seq<char>>, Option<Seq<char>>)>,
    i: int,
    n: int,
) -> Option<int>
    decreases n - i,
{
    if i >= n {
        None
    } else if spec_poll_terminal(rs[i]) {
        Some(i)
    } else {
        first_terminal(rs, i + 1, n)
    }
}

proof fn lemma_first_terminal_skip(rs: Seq<(Option<Seq<char>>, Option<Seq<char>>)>, i: int, n: int)
    requires
        0 <= i <= n,
        forall|j: int| 0 <= j < i ==> !spec_poll_terminal(#[trigger] rs[j]),
    ensures
        first_terminal(rs, 0, n) == first_terminal(rs, i, n),
    decreases i,
{
    if i > 0 {
        lemma_first_terminal_skip(rs, i - 1, n);
    }
}

/// Polls until a definitive report or the attempt budget runs out: the
/// `i`-th poll yields `reports[i]`. Returns what the run yields and how many
/// polls it used: the formatted asset URL of the first definitive success,
/// `JobFailed` on a definitive failure, and — after exactly `max_attempts`
/// polls without a definitive report — `Timeout`, never an unbounded loop.
pub fn await_completion(reports: &Vec<PollReport>, max_attempts: usize) -> (r: (
    Result<String, PollError>,
    usize,
))
    requires
        reports@.len() >= max_attempts,
    ensures
        match first_terminal(reports.deep_view(), 0, max_attempts as int) {
            Some(k) => {
                &&& r.1 == k + 1
                &&& match spec_poll_success(reports.deep_view()[k]) {
                    Some(p) => r.0 matches Ok(u) && u@ == spec_asset_url(p),
                    None => r.0 == Err::<String, PollError>(PollError::JobFailed),
                }
            },
            None => r.1 == max_attempts && r.0 == Err::<String, PollError>(PollError::Timeout),
        },
{
    let ghost rv = reports.deep_view();
    let mut i: usize = 0;
    while i < max_attempts
        invariant
            reports@.len() >= max_attempts,
            rv == reports.deep_view(),
            i <= max_attempts,
            forall|j: int| 0 <= j < i ==> !spec_poll_terminal(#[trigger] rv[j]),
        decreases max_attempts - i,
    {
        proof {
            assert(rv[i as int] == reports@[i as int].deep_view());
        }
        match classify_report(&reports[i]) {
            PollOutcome::Pending => {
                i = i + 1;
            },
            PollOutcome::Ready { path } => {
                proof {
                    lemma_first_terminal_skip(rv, i as int, max_attempts as int);
                }
                return (Ok(asset_url(path.as_str())), i + 1);
            },
            PollOutcome::Failed => {
                proof {
                    lemma_first_terminal_skip(rv, i as int, max_attempts as int);
                }
                return (Err(PollError::JobFailed), i + 1);
            },
        }
    }
    proof {
        lemma_first_terminal_skip(rv, max_attempts as int, max_attempts as int);
    }
    (Err(PollError::Timeout), max_attempts)
}

/// A mock endpoint that answers `pending` `n` times and then a definitive
/// success is done after exactly `n + 1` polls, with the asset URL formatted
/// from the success report's path.
pub proof fn lemma_pending_then_success(
    rs: Seq<(Option<Seq<char>>, Option<Seq<char>>)>,
    n: int,
    max_attempts: int,
)
    requires
        0 <= n < max_attempts,
        forall|j: int| 0 <= j < n ==> !spec_poll_terminal(#[trigger] rs[j]),
        spec_poll_terminal(rs[n]),
        spec_poll_success(rs[n]) is Some,
    ensures
        first_terminal(rs, 0, max_attempts) == Some(n),
{
    lemma_first_terminal_skip(rs, n, max_attempts);
}

/// A mock endpoint that never reaches a definitive state within the attempt
/// budget yields a timeout, not an unbounded loop.
pub proof fn lemma_never_terminal_times_out(
    rs: Seq<(Option<Seq<char>>, Option<Seq<char>>)>,
    max_attempts: int,
)
    requires
        max_attempts >= 0,
        forall|j: int| 0 <= j < max_attempts ==> !spec_poll_terminal(#[trigger] rs[j]),
    ensures
        first_terminal(rs, 0, max_attempts) is None,
{
    lemma_first_terminal_skip(rs, max_attempts, max_attempts);
}

/// Looks the named voice up: the token of the first catalog entry with that
/// exact title.
pub fn find_voice_token(voices: &Vec<Voice>, voice_name: &str) -> (r: Option<String>)
    ensures
        match r {
            Some(t) => exists|i: int|
                0 <= i < voices@.len() && (#[trigger] voices@[i]).title@ == voice_name@
                    && voices@[i].model_token@ == t@,
            None => forall|i: int|
                0 <= i < voices@.len() ==> (#[trigger] voices@[i]).title@ != voice_name@,
        },
{
    let name = String::from_str(voice_name);
    let mut i: usize = 0;
    while i < voices.len()
        invariant
            name@ == voice_name@,
            i <= voices@.len(),
            forall|j: int| 0 <= j < i ==> (#[trigger] voices@[j]).title@ != voice_name@,
        decreases voices@.len() - i,
    {
        if voices[i].title == name {
            return Some(voices[i].model_token.clone());
        }
        i = i + 1;
    }
    None
}

/// Relies on `uuid::Uuid::new_v4` and its `Display` rendering: a fresh
/// random token in the 36-character hyphenated form. Nothing is promised of
/// which one.
#[verifier::external_body]
fn new_idempotency_token() -> (r: String)
    ensures
        r@.len() == 36,
{
    uuid::Uuid::new_v4().to_string()
}

/// The inference-job request body: the text to speak, the voice's model
/// token, and the idempotency token that keeps a retried submission from
/// creating a second job.
pub open spec fn spec_inference_payload(
    message: Seq<char>,
    model_token: Seq<char>,
    idempotency_token: Seq<char>,
) -> Seq<char> {
    "{\"inference_text\":\""@ + escaped(message) + "\",\"tts_model_token\":\""@ + escaped(
        model_token,
    ) + "\",\"uuid_idempotency_token\":\""@ + escaped(idempotency_token) + "\"}"@
}

/// Builds the inference-job request body under a fresh idempotency token.
pub fn build_inference_request(message: &str, model_token: &str) -> (r: String)
    ensures
        exists|idem: Seq<char>|
            idem.len() == 36 && r@ == spec_inference_payload(message@, model_token@, idem),
{
    let idem = new_idempotency_token();
    let mut body = String::from_str("{\"inference_text\":\"");
    let escaped_message = json_escape(message);
    body.append(escaped_message.as_str());
    body.append("\",\"tts_model_token\":\"");
    let escaped_token = json_escape(model_token);
    body.append(escaped_token.as_str());
    body.append("\",\"uuid_idempotency_token\":\"");
    let escaped_idem = json_escape(idem.as_str());
    body.append(escaped_idem.as_str());
    body.append("\"}");
    proof {
        assert(body@ =~= spec_inference_payload(message@, model_token@, idem@));
    }
    body
}

/// The voice catalog's entries as (model token, title) pairs, in catalog
/// order, when `body` parses as the list response.
pub uninterp spec fn voices_of(body: Seq<char>) -> Option<Seq<(Seq<char>, Seq<char>)>>;

/// Relies on `serde_json::from_str`, `Value::get`, `Value::as_array` and
/// `Value::as_str`: reads the voice catalog out of the list response; the
/// result depends on `body` alone.
#[verifier::external_body]
pub fn parse_voice_list(body: &str) -> (r: Option<Vec<Voice>>)
    ensures
        match r {
            Some(v) => voices_of(body@) == Some(v.deep_view()),
            None => voices_of(body@) is None,
        },
{
    let value: serde_json::Value = serde_json::from_str(body).ok()?;
    let models = value.get("models")?.as_array()?;
    let mut out = Vec::new();
    for m in models {
        let model_token = m.get("model_token")?.as_str()?.to_string();
        let title = m.get("title")?.as_str()?.to_string();
        out.push(Voice { model_token, title });
    }
    Some(out)
}

/// The ten best fuzzy matches for a query among the voice titles, best
/// first, as the trigram search orders them.
pub uninterp spec fn fuzzy_best_of(query: Seq<char>, titles: Seq<Seq<char>>, n: int) -> Seq<
    Seq<char>,
>;

/// Relies on `rust_fuzzy_search::fuzzy_search_best_n`: scores every title
/// against the query by trigram similarity, orders them best first and keeps
/// the first `n`; the result depends on the arguments alone. The scores are
/// dropped here.
#[verifier::external_body]
fn fuzzy_best(query: &str, titles: &Vec<String>, n: usize) -> (r: Vec<String>)
    ensures
        r.deep_view() == fuzzy_best_of(query@, titles.deep_view(), n as int),
        r@.len() == vstd::math::min(n as int, titles@.len() as int),
{
    let refs: Vec<&str> = titles.iter().map(String::as_str).collect();
    rust_fuzzy_search::fuzzy_search_best_n(query, &refs, n)
        .into_iter()
        .map(|(word, _)| word.to_string())
        .collect()
}

/// The ten closest voice titles to the query, one per line, best first.
pub fn fuzzy_search_voices(query: &str, titles: &Vec<String>) -> (r: String)
    ensures
        r@ == joined_lines(fuzzy_best_of(query@, titles.deep_view(), 10)),
{
    let best = fuzzy_best(query, titles, 10);
    join_lines(&best)
}

} // verus!
