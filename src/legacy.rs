//! The legacy resource/task protocol: submission with a base-path fallback,
//! polling of `/tasks/{id}`, and the download descriptor of a finished task.
use vstd::prelude::*;
use vstd::string::*;
use crate::client::{RemoteFile, RemoteFileModel};
use crate::error::{extract_http_status, RetrieveError};
use crate::policy::{backoff, next_delay, MIN_DELAY_MS};
use crate::text::{lemma_strip_end_last, opt_view, chars_of, contains, contains_exec, ends_with, same_chars, string_of, strip_end, strip_end_len};
use crate::url::{api_v2_variant, join, urljoin, v2_variant};

verus! {

/// The `error` object of a failed task.
#[derive(Clone, Debug)]
pub struct ApiError {
    pub message: Option<String>,
    pub reason: Option<String>,
}

/// The nested `result` object of a completed task.
#[derive(Clone, Debug)]
pub struct ResultLocation {
    pub location: String,
    pub content_length: u64,
    pub content_type: Option<String>,
}

/// A reply of the legacy API.
#[derive(Clone, Debug)]
pub struct ApiReply {
    pub state: String,
    pub request_id: Option<String>,
    pub location: Option<String>,
    pub content_length: Option<u64>,
    pub content_type: Option<String>,
    /// The nested result, when the reply holds one in the expected shape.
    pub result: Option<ResultLocation>,
    pub error: Option<ApiError>,
}

/// The states of a legacy task.
#[derive(PartialEq, Eq, Structural, Clone, Copy, Debug)]
pub enum JobState {
    Queued,
    Running,
    Completed,
    Failed,
}

/// The task state a string names.
pub open spec fn job_state_of(s: Seq<char>) -> Option<JobState> {
    if s == "queued"@ {
        Some(JobState::Queued)
    } else if s == "running"@ {
        Some(JobState::Running)
    } else if s == "completed"@ {
        Some(JobState::Completed)
    } else if s == "failed"@ {
        Some(JobState::Failed)
    } else {
        None
    }
}

/// Reads a task state; `None` for a string outside the protocol.
pub fn parse_job_state(s: &str) -> (r: Option<JobState>)
    ensures
        r == job_state_of(s@),
{
    let v = chars_of(s);
    if same_chars(&v, &chars_of("queued")) {
        Some(JobState::Queued)
    } else if same_chars(&v, &chars_of("running")) {
        Some(JobState::Running)
    } else if same_chars(&v, &chars_of("completed")) {
        Some(JobState::Completed)
    } else if same_chars(&v, &chars_of("failed")) {
        Some(JobState::Failed)
    } else {
        None
    }
}

/// The download descriptor of a completed reply: the nested result first,
/// then the top-level fields; locations are joined onto `base`.
pub open spec fn reply_file(reply: ApiReply, base: Seq<char>) -> Option<RemoteFileModel> {
    match reply.result {
        Some(r) => Some(
            RemoteFileModel {
                location: join(base, r.location@),
                content_length: r.content_length,
                content_type: opt_view(r.content_type),
            },
        ),
        None => match (reply.location, reply.content_length) {
            (Some(l), Some(n)) => Some(
                RemoteFileModel {
                    location: join(base, l@),
                    content_length: n,
                    content_type: opt_view(reply.content_type),
                },
            ),
            _ => None,
        },
    }
}

/// Builds the download descriptor of a completed reply.
pub fn remote_file_from_reply(reply: &ApiReply, base_url: &str) -> (r: Result<
    RemoteFile,
    RetrieveError,
>)
    ensures
        match r {
            Ok(f) => reply_file(*reply, base_url@) == Some(f.model()),
            Err(e) => reply_file(*reply, base_url@) is None && e == RetrieveError::MissingDownloadInfo,
        },
{
    if let Some(res) = &reply.result {
        let content_type = match &res.content_type {
            Some(t) => Some(t.clone()),
            None => None,
        };
        return Ok(
            RemoteFile {
                location: urljoin(base_url, res.location.as_str()),
                content_length: res.content_length,
                content_type,
            },
        );
    }
    match (&reply.location, reply.content_length) {
        (Some(location), Some(content_length)) => {
            let content_type = match &reply.content_type {
                Some(t) => Some(t.clone()),
                None => None,
            };
            Ok(
                RemoteFile {
                    location: urljoin(base_url, location.as_str()),
                    content_length,
                    content_type,
                },
            )
        },
        _ => Err(RetrieveError::MissingDownloadInfo),
    }
}

/// `msg`, then `". "` and `reason` when there is a reason.
pub open spec fn failure_text_of(msg: Seq<char>, reason: Seq<char>) -> Seq<char> {
    if reason.len() == 0 {
        msg
    } else {
        msg + ". "@ + reason
    }
}

/// The message of a failed task, with defaults for missing parts.
pub open spec fn failure_text(err: Option<ApiError>) -> Seq<char> {
    let (m, r) = match err {
        Some(e) => (opt_view(e.message), opt_view(e.reason)),
        None => (None, None),
    };
    failure_text_of(
        match m {
            Some(m) => m,
            None => "request failed"@,
        },
        match r {
            Some(r) => r,
            None => Seq::empty(),
        },
    )
}

fn describe_failure(err: &Option<ApiError>) -> (r: String)
    ensures
        r@ == failure_text(*err),
{
    let (m, rs) = match err {
        Some(e) => (&e.message, &e.reason),
        None => (&None, &None),
    };
    let mut out = match m {
        Some(m) => m.clone(),
        None => String::from_str("request failed"),
    };
    if let Some(rs) = rs {
        if rs.unicode_len() > 0 {
            out.append(". ");
            out.append(rs.as_str());
        }
    }
    out
}

/// The text of a rejection names both the backend's message and its reason.
pub proof fn lemma_rejection_mentions(msg: Seq<char>, reason: Seq<char>)
    ensures
        contains(failure_text_of(msg, reason), msg),
        contains(failure_text_of(msg, reason), reason),
{
    let t = failure_text_of(msg, reason);
    assert(t.subrange(0, msg.len() as int) =~= msg);
    assert(crate::text::occurs_at(t, msg, 0));
    let at = t.len() - reason.len();
    assert(t.subrange(at, at + reason.len()) =~= reason);
    assert(crate::text::occurs_at(t, reason, at));
}

/// `{base}/resources/{dataset}`, with the base's trailing `/` removed.
pub open spec fn resources_url(base: Seq<char>, dataset: Seq<char>) -> Seq<char> {
    strip_end(base, '/') + "/resources/"@ + dataset
}

/// The submission URL of a dataset.
pub fn submission_url(base: &str, dataset: &str) -> (r: String)
    ensures
        r@ == resources_url(base@, dataset@),
{
    let b = chars_of(base);
    let e = strip_end_len(&b, '/');
    let mut out = string_of(&b, 0, e);
    out.append("/resources/");
    out.append(dataset);
    out
}

/// The base to retry a failed submission against: only after a 404, and
/// only when the base is not a `/api/v2` one already.
pub open spec fn fallback_of(base: Seq<char>, status: Option<u16>) -> Option<Seq<char>> {
    let b = strip_end(base, '/');
    if status == Some(404u16) && !contains(b, "/api/v2"@) {
        v2_variant(b)
    } else {
        None
    }
}

/// The HTTP status an error carries.
pub open spec fn status_of(e: RetrieveError) -> Option<u16> {
    match e {
        RetrieveError::HttpError { status, .. } => Some(status),
        _ => None,
    }
}

/// The alternate base to try once after a failed submission.
pub fn fallback_base(base: &str, err: &RetrieveError) -> (r: Option<String>)
    ensures
        opt_view(r) == fallback_of(base@, status_of(*err)),
{
    if extract_http_status(err).is_none() {
        return None;
    }
    let v = chars_of(base);
    let e = strip_end_len(&v, '/');
    let b = string_of(&v, 0, e);
    let bv = chars_of(b.as_str());
    if contains_exec(&bv, &chars_of("/api/v2")) {
        return None;
    }
    api_v2_variant(b.as_str())
}

/// The fallback follows only a 404, and happens at most once: the
/// alternate base is a `/api/v2` base, which has no fallback of its own.
pub proof fn lemma_fallback_once(base: Seq<char>, status: Option<u16>)
    ensures
        fallback_of(base, status) is Some ==> status == Some(404u16),
        fallback_of(base, status) is Some ==> fallback_of(fallback_of(base, status)->0, status)
            is None,
{
    reveal_strlit("/api");
    reveal_strlit("/v2");
    reveal_strlit("/api/v2");
    let b = strip_end(base, '/');
    lemma_strip_end_last(base, '/');
    assert(strip_end(b, '/') == b);
    if fallback_of(base, status) is Some {
        let alt = fallback_of(base, status)->0;
        let at = if ends_with(b, "/api"@) {
            assert(alt == b + "/v2"@);
            let at = b.len() - 4;
            assert(b.subrange(at, b.len() as int) == "/api"@);
            assert forall|k: int| 0 <= k < 7 implies alt.subrange(at, at + 7)[k] == "/api/v2"@[k] by {
                if k < 4 {
                    assert(alt[at + k] == b.subrange(at, b.len() as int)[k]);
                }
            }
            at
        } else {
            assert(alt == b + "/api/v2"@);
            b.len() as int
        };
        assert(alt.len() > 0 && alt.last() == '2');
        assert(strip_end(alt, '/') == alt);
        assert(alt.subrange(at, at + 7) =~= "/api/v2"@);
        assert(crate::text::occurs_at(alt, "/api/v2"@, at));
    }
}

/// What the caller does next in a legacy retrieval.
#[derive(Clone, Debug)]
pub enum LegacyAction {
    /// Wait `delay_ms`, then fetch `url` and hand its reply back.
    Poll { url: String, delay_ms: u64 },
    /// The task completed; this is its file.
    Done(RemoteFile),
}

/// The polling state of one legacy retrieval.
pub struct LegacyPoll {
    /// The base that accepted the submission.
    pub base: String,
    /// The wait before the next poll.
    pub delay_ms: u64,
    /// The ceiling of the wait.
    pub max_delay_ms: u64,
    /// The state last announced.
    pub last_state: Option<String>,
}

/// `{base}/tasks/{id}`.
pub open spec fn task_url(base: Seq<char>, id: Seq<char>) -> Seq<char> {
    strip_end(base, '/') + "/tasks/"@ + id
}

impl LegacyPoll {
    /// A fresh poll of the task submitted under `base`; the first wait is one second.
    pub fn new(base: String, max_delay_ms: u64) -> (r: LegacyPoll)
        ensures
            r.base@ == base@,
            r.delay_ms == MIN_DELAY_MS,
            r.max_delay_ms == max_delay_ms,
            r.last_state is None,
    {
        LegacyPoll { base, delay_ms: MIN_DELAY_MS, max_delay_ms, last_state: None }
    }

    /// Whether `state` differs from the one last announced; it is remembered.
    pub fn observe(&mut self, state: &str) -> (r: bool)
        ensures
            r == (opt_view(old(self).last_state) != Some(state@)),
            opt_view(final(self).last_state) == Some(state@),
            final(self).base == old(self).base,
            final(self).delay_ms == old(self).delay_ms,
            final(self).max_delay_ms == old(self).max_delay_ms,
    {
        let changed = match &self.last_state {
            Some(s) => !same_chars(&chars_of(s.as_str()), &chars_of(state)),
            None => true,
        };
        self.last_state = Some(String::from_str(state));
        changed
    }

    /// Decides what follows a reply: another poll after the current wait
    /// (which then grows), the finished file, or an error.
    pub fn on_reply(&mut self, reply: &ApiReply) -> (r: Result<LegacyAction, RetrieveError>)
        ensures
            final(self).base == old(self).base,
            final(self).max_delay_ms == old(self).max_delay_ms,
            final(self).last_state == old(self).last_state,
            match job_state_of(reply.state@) {
                Some(JobState::Completed) => final(self).delay_ms == old(self).delay_ms && match r {
                    Ok(LegacyAction::Done(f)) => reply_file(*reply, old(self).base@) == Some(
                        f.model(),
                    ),
                    Err(e) => reply_file(*reply, old(self).base@) is None && e
                        == RetrieveError::MissingDownloadInfo,
                    _ => false,
                },
                Some(JobState::Queued) | Some(JobState::Running) => match reply.request_id {
                    Some(id) => final(self).delay_ms == next_delay(
                        old(self).delay_ms as int,
                        old(self).max_delay_ms as int,
                    ) && match r {
                        Ok(LegacyAction::Poll { url, delay_ms }) => url@ == task_url(
                            old(self).base@,
                            id@,
                        ) && delay_ms == old(self).delay_ms,
                        _ => false,
                    },
                    None => final(self).delay_ms == old(self).delay_ms && match r {
                        Err(RetrieveError::MissingRequestId { state }) => state@ == reply.state@,
                        _ => false,
                    },
                },
                Some(JobState::Failed) => final(self).delay_ms == old(self).delay_ms && match r {
                    Err(RetrieveError::BackendRejected { message }) => message@ == failure_text(
                        reply.error,
                    ),
                    _ => false,
                },
                None => final(self).delay_ms == old(self).delay_ms && match r {
                    Err(RetrieveError::UnknownState { state }) => state@ == reply.state@,
                    _ => false,
                },
            },
    {
        match parse_job_state(reply.state.as_str()) {
            Some(JobState::Completed) => {
                match remote_file_from_reply(reply, self.base.as_str()) {
                    Ok(f) => Ok(LegacyAction::Done(f)),
                    Err(e) => Err(e),
                }
            },
            Some(JobState::Queued) | Some(JobState::Running) => {
                match &reply.request_id {
                    Some(id) => {
                        let b = chars_of(self.base.as_str());
                        let e = strip_end_len(&b, '/');
                        let mut url = string_of(&b, 0, e);
                        url.append("/tasks/");
                        url.append(id.as_str());
                        let delay_ms = self.delay_ms;
                        self.delay_ms = backoff(self.delay_ms, self.max_delay_ms);
                        Ok(LegacyAction::Poll { url, delay_ms })
                    },
                    None => Err(
                        RetrieveError::MissingRequestId { state: reply.state.clone() },
                    ),
                }
            },
            Some(JobState::Failed) => Err(
                RetrieveError::BackendRejected { message: describe_failure(&reply.error) },
            ),
            None => Err(RetrieveError::UnknownState { state: reply.state.clone() }),
        }
    }
}

} // verus!
