//! The modern job-execution protocol: submission, the monitor link, status
//! polling and the results asset.
use vstd::prelude::*;
use vstd::string::*;
use crate::client::{RemoteFile, RemoteFileModel};
use crate::error::RetrieveError;
use crate::policy::{backoff, next_delay, MIN_DELAY_MS};
use crate::text::{opt_view, chars_of, same_chars, string_of, strip_end, strip_end_len, trim, trim_bounds};
use crate::url::{join, urljoin};

verus! {

/// A typed hyperlink.
#[derive(Clone, Debug)]
pub struct ProcessingLink {
    pub rel: Option<String>,
    pub href: String,
}

/// The reply to a job submission.
#[derive(Clone, Debug)]
pub struct ProcessingJob {
    pub job_id: Option<String>,
    pub links: Vec<ProcessingLink>,
}

/// A job's status resource.
#[derive(Clone, Debug)]
pub struct ProcessingJobStatus {
    pub status: String,
    pub links: Vec<ProcessingLink>,
}

/// The asset record of a results resource.
#[derive(Clone, Debug)]
pub struct ProcessingAssetValue {
    pub href: String,
    pub file_size: u64,
    pub content_type: String,
}

#[derive(Clone, Debug)]
pub struct ProcessingAsset {
    pub value: ProcessingAssetValue,
}

/// A job's results resource.
#[derive(Clone, Debug)]
pub struct ProcessingResults {
    pub asset: ProcessingAsset,
}

/// The link has relation `rel`.
pub open spec fn has_rel(l: ProcessingLink, rel: Seq<char>) -> bool {
    opt_view(l.rel) == Some(rel)
}

/// `i` is the first link with relation `rel`.
pub open spec fn is_first_link(ls: Seq<ProcessingLink>, rel: Seq<char>, i: int) -> bool {
    0 <= i < ls.len() && has_rel(ls[i], rel) && forall|j: int| 0 <= j < i ==> !has_rel(ls[j], rel)
}

/// The target of the first link with relation `rel`.
pub open spec fn link_of(ls: Seq<ProcessingLink>, rel: Seq<char>) -> Option<Seq<char>> {
    if exists|i: int| is_first_link(ls, rel, i) {
        Some(ls[choose|i: int| is_first_link(ls, rel, i)].href@)
    } else {
        None
    }
}

fn find_link(ls: &Vec<ProcessingLink>, rel: &str) -> (r: Option<String>)
    ensures
        opt_view(r) == link_of(ls@, rel@),
{
    let want = chars_of(rel);
    let mut i: usize = 0;
    while i < ls.len()
        invariant
            i <= ls@.len(),
            want@ == rel@,
            forall|j: int| 0 <= j < i ==> !has_rel(#[trigger] ls@[j], rel@),
        decreases ls.len() - i,
    {
        let hit = match &ls[i].rel {
            Some(r) => same_chars(&chars_of(r.as_str()), &want),
            None => false,
        };
        if hit {
            proof {
                assert(is_first_link(ls@, rel@, i as int));
                let k = choose|k: int| is_first_link(ls@, rel@, k);
                if k < i {
                    assert(!has_rel(ls@[k], rel@));
                } else if i < k {
                    assert(!has_rel(ls@[i as int], rel@));
                }
            }
            return Some(ls[i].href.clone());
        }
        i = i + 1;
    }
    assert(!exists|k: int| is_first_link(ls@, rel@, k)) by {
        if exists|k: int| is_first_link(ls@, rel@, k) {
            let k = choose|k: int| is_first_link(ls@, rel@, k);
            assert(!has_rel(ls@[k], rel@));
        }
    }
    None
}

impl ProcessingJob {
    /// The job's `monitor` link, if it has one.
    pub fn monitor_url(&self) -> (r: Option<String>)
        ensures
            opt_view(r) == link_of(self.links@, "monitor"@),
    {
        find_link(&self.links, "monitor")
    }
}

impl ProcessingJobStatus {
    /// The job's `results` link, if it has one.
    pub fn results_url(&self) -> (r: Option<String>)
        ensures
            opt_view(r) == link_of(self.links@, "results"@),
    {
        find_link(&self.links, "results")
    }
}

impl ProcessingResults {
    /// The download descriptor of the results asset; its `href`, trimmed,
    /// is joined onto `results_url`.
    pub fn to_remote_file(&self, results_url: &str) -> (r: Result<RemoteFile, RetrieveError>)
        ensures
            ({
                let v = self.asset.value;
                match r {
                    Ok(f) => trim(v.href@).len() > 0 && f.model() == (RemoteFileModel {
                        location: join(results_url@, trim(v.href@)),
                        content_length: v.file_size,
                        content_type: Some(v.content_type@),
                    }),
                    Err(e) => trim(v.href@).len() == 0 && e == RetrieveError::MissingHref,
                }
            }),
    {
        let h = chars_of(self.asset.value.href.as_str());
        let (a, b) = trim_bounds(&h);
        if a == b {
            return Err(RetrieveError::MissingHref);
        }
        let href = string_of(&h, a, b);
        Ok(
            RemoteFile {
                location: urljoin(results_url, href.as_str()),
                content_length: self.asset.value.file_size,
                content_type: Some(self.asset.value.content_type.clone()),
            },
        )
    }
}

/// `{base}/retrieve/v1`, with the base's trailing `/` removed.
pub open spec fn retrieve_base(base: Seq<char>) -> Seq<char> {
    strip_end(base, '/') + "/retrieve/v1"@
}

fn retrieve_base_exec(base: &str) -> (r: String)
    ensures
        r@ == retrieve_base(base@),
{
    let b = chars_of(base);
    let e = strip_end_len(&b, '/');
    let mut out = string_of(&b, 0, e);
    out.append("/retrieve/v1");
    out
}

/// `{base}/retrieve/v1/processes/{dataset}/execution`.
pub fn execution_url(base: &str, dataset: &str) -> (r: String)
    ensures
        r@ == retrieve_base(base@) + "/processes/"@ + dataset@ + "/execution"@,
{
    let mut out = retrieve_base_exec(base);
    out.append("/processes/");
    out.append(dataset);
    out.append("/execution");
    out
}

/// The URL to poll for a submitted job: its monitor link, else one made
/// from its job id.
pub open spec fn monitor_of(base: Seq<char>, job: ProcessingJob) -> Option<Seq<char>> {
    match link_of(job.links@, "monitor"@) {
        Some(m) => Some(m),
        None => match job.job_id {
            Some(id) => Some(retrieve_base(base) + "/jobs/"@ + id@),
            None => None,
        },
    }
}

/// The poll URL of a submitted job.
pub fn job_monitor_url(base: &str, job: &ProcessingJob) -> (r: Result<String, RetrieveError>)
    ensures
        match r {
            Ok(u) => monitor_of(base@, *job) == Some(u@),
            Err(e) => monitor_of(base@, *job) is None && e == RetrieveError::MissingMonitorLink,
        },
{
    match job.monitor_url() {
        Some(m) => Ok(m),
        None => match &job.job_id {
            Some(id) => {
                let mut out = retrieve_base_exec(base);
                out.append("/jobs/");
                out.append(id.as_str());
                Ok(out)
            },
            None => Err(RetrieveError::MissingMonitorLink),
        },
    }
}

/// Submission without waiting for completion is refused up front.
pub fn check_wait_mode(wait_until_complete: bool) -> (r: Result<(), RetrieveError>)
    ensures
        wait_until_complete <==> r is Ok,
        !wait_until_complete ==> r == Err::<(), RetrieveError>(RetrieveError::UnsupportedMode),
{
    if wait_until_complete {
        Ok(())
    } else {
        Err(RetrieveError::UnsupportedMode)
    }
}

/// The statuses of a processing job.
#[derive(PartialEq, Eq, Structural, Clone, Copy, Debug)]
pub enum ProcessingStatus {
    Accepted,
    Running,
    Successful,
    Failed,
    Rejected,
    Dismissed,
    Deleted,
}

/// The job status a string names.
pub open spec fn processing_status_of(s: Seq<char>) -> Option<ProcessingStatus> {
    if s == "accepted"@ {
        Some(ProcessingStatus::Accepted)
    } else if s == "running"@ {
        Some(ProcessingStatus::Running)
    } else if s == "successful"@ {
        Some(ProcessingStatus::Successful)
    } else if s == "failed"@ {
        Some(ProcessingStatus::Failed)
    } else if s == "rejected"@ {
        Some(ProcessingStatus::Rejected)
    } else if s == "dismissed"@ {
        Some(ProcessingStatus::Dismissed)
    } else if s == "deleted"@ {
        Some(ProcessingStatus::Deleted)
    } else {
        None
    }
}

/// Reads a job status; `None` for a string outside the protocol.
pub fn parse_processing_status(s: &str) -> (r: Option<ProcessingStatus>)
    ensures
        r == processing_status_of(s@),
{
    let v = chars_of(s);
    if same_chars(&v, &chars_of("accepted")) {
        Some(ProcessingStatus::Accepted)
    } else if same_chars(&v, &chars_of("running")) {
        Some(ProcessingStatus::Running)
    } else if same_chars(&v, &chars_of("successful")) {
        Some(ProcessingStatus::Successful)
    } else if same_chars(&v, &chars_of("failed")) {
        Some(ProcessingStatus::Failed)
    } else if same_chars(&v, &chars_of("rejected")) {
        Some(ProcessingStatus::Rejected)
    } else if same_chars(&v, &chars_of("dismissed")) {
        Some(ProcessingStatus::Dismissed)
    } else if same_chars(&v, &chars_of("deleted")) {
        Some(ProcessingStatus::Deleted)
    } else {
        None
    }
}

/// What the caller does next in a modern retrieval.
#[derive(Clone, Debug)]
pub enum ProcessingAction {
    /// Wait `delay_ms`, then poll the status again.
    Wait { delay_ms: u64 },
    /// The job succeeded: fetch its results from `url`.
    FetchResults { url: String },
}

/// The polling state of one modern retrieval.
pub struct ProcessingPoll {
    /// The job's monitor URL.
    pub monitor_url: String,
    /// The wait before the next poll.
    pub delay_ms: u64,
    /// The ceiling of the wait.
    pub max_delay_ms: u64,
}

/// Where the results of a successful job are: its results link, else
/// `{monitor}/results`.
pub open spec fn results_of(monitor: Seq<char>, st: ProcessingJobStatus) -> Seq<char> {
    match link_of(st.links@, "results"@) {
        Some(u) => u,
        None => strip_end(monitor, '/') + "/results"@,
    }
}

impl ProcessingPoll {
    /// A fresh poll of the job at `monitor_url`; the first wait is one second.
    pub fn new(monitor_url: String, max_delay_ms: u64) -> (r: ProcessingPoll)
        ensures
            r.monitor_url@ == monitor_url@,
            r.delay_ms == MIN_DELAY_MS,
            r.max_delay_ms == max_delay_ms,
    {
        ProcessingPoll { monitor_url, delay_ms: MIN_DELAY_MS, max_delay_ms }
    }

    /// The status URL: the monitor URL with `log=true&request=true`.
    pub fn status_url(&self) -> (r: String)
        ensures
            r@ == crate::url::with_query(self.monitor_url@, seq![("log", "true"), ("request", "true")]),
    {
        let params = [("log", "true"), ("request", "true")];
        let r = crate::url::append_query(self.monitor_url.as_str(), &params);
        assert(params@ =~= seq![("log", "true"), ("request", "true")]);
        r
    }

    /// Decides what follows a status: another poll after the current wait
    /// (which then grows), the results fetch, or an error.
    pub fn on_status(&mut self, st: &ProcessingJobStatus) -> (r: Result<ProcessingAction, RetrieveError>)
        ensures
            final(self).monitor_url == old(self).monitor_url,
            final(self).max_delay_ms == old(self).max_delay_ms,
            match processing_status_of(st.status@) {
                Some(ProcessingStatus::Successful) => final(self).delay_ms == old(self).delay_ms
                    && match r {
                    Ok(ProcessingAction::FetchResults { url }) => url@ == results_of(
                        old(self).monitor_url@,
                        *st,
                    ),
                    _ => false,
                },
                Some(ProcessingStatus::Accepted) | Some(ProcessingStatus::Running) => {
                    &&& final(self).delay_ms == next_delay(old(self).delay_ms as int, old(self).max_delay_ms as int)
                    &&& r == Ok::<ProcessingAction, RetrieveError>(ProcessingAction::Wait { delay_ms: old(self).delay_ms })
                },
                Some(_) => final(self).delay_ms == old(self).delay_ms && match r {
                    Err(RetrieveError::BackendRejected { message }) => message@
                        == "processing failed with status "@ + st.status@,
                    _ => false,
                },
                None => final(self).delay_ms == old(self).delay_ms && match r {
                    Err(RetrieveError::UnknownState { state }) => state@ == st.status@,
                    _ => false,
                },
            },
    {
        match parse_processing_status(st.status.as_str()) {
            Some(ProcessingStatus::Successful) => {
                let url = match st.results_url() {
                    Some(u) => u,
                    None => {
                        let m = chars_of(self.monitor_url.as_str());
                        let e = strip_end_len(&m, '/');
                        let mut out = string_of(&m, 0, e);
                        out.append("/results");
                        out
                    },
                };
                Ok(ProcessingAction::FetchResults { url })
            },
            Some(ProcessingStatus::Accepted) | Some(ProcessingStatus::Running) => {
                let delay_ms = self.delay_ms;
                self.delay_ms = backoff(self.delay_ms, self.max_delay_ms);
                Ok(ProcessingAction::Wait { delay_ms })
            },
            Some(_) => {
                let mut message = String::from_str("processing failed with status ");
                message.append(st.status.as_str());
                Err(RetrieveError::BackendRejected { message })
            },
            None => Err(RetrieveError::UnknownState { state: st.status.clone() }),
        }
    }
}

} // verus!
