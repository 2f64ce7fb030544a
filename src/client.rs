//! The resolved download target and the client's settings.
use vstd::prelude::*;
use crate::config::ClientConfig;
use crate::credentials::{auth_for, auth_matches, protocol_of, select_protocol, Auth, Protocol};
use crate::error::RetrieveError;
use crate::policy::{is_success, success_status};

verus! {

/// A file ready for download.
#[derive(Clone, Debug)]
pub struct RemoteFile {
    /// Download URL.
    pub location: String,
    /// Expected content length (bytes).
    pub content_length: u64,
    /// Optional content type.
    pub content_type: Option<String>,
}

/// A `RemoteFile` as values.
pub struct RemoteFileModel {
    pub location: Seq<char>,
    pub content_length: u64,
    pub content_type: Option<Seq<char>>,
}

impl RemoteFile {
    pub open spec fn model(&self) -> RemoteFileModel {
        RemoteFileModel {
            location: self.location@,
            content_length: self.content_length,
            content_type: match self.content_type {
                Some(t) => Some(t@),
                None => None,
            },
        }
    }
}

/// The settings of a retrieval client.
#[derive(Clone, Debug)]
pub struct Client {
    url: String,
    key: String,
    verify: bool,
    timeout_ms: u64,
    retry_max: usize,
    sleep_max_ms: u64,
    wait_until_complete: bool,
    progress: bool,
}

/// The default overall HTTP timeout.
pub const DEFAULT_TIMEOUT_MS: u64 = 60000;

/// The default attempt budget.
pub const DEFAULT_RETRY_MAX: usize = 500;

/// The default backoff ceiling.
pub const DEFAULT_SLEEP_MAX_MS: u64 = 120000;

impl Client {
    pub closed spec fn spec_url(&self) -> Seq<char> {
        self.url@
    }

    pub closed spec fn spec_key(&self) -> Seq<char> {
        self.key@
    }

    pub closed spec fn spec_verify(&self) -> bool {
        self.verify
    }

    pub closed spec fn spec_timeout_ms(&self) -> u64 {
        self.timeout_ms
    }

    pub closed spec fn spec_retry_max(&self) -> usize {
        self.retry_max
    }

    pub closed spec fn spec_sleep_max_ms(&self) -> u64 {
        self.sleep_max_ms
    }

    pub closed spec fn spec_wait(&self) -> bool {
        self.wait_until_complete
    }

    pub closed spec fn spec_progress(&self) -> bool {
        self.progress
    }

    /// A client for resolved settings, with the default timeout (60 s),
    /// attempt budget (500) and backoff ceiling (120 s); it waits for
    /// completion and reports progress.
    pub fn new(cfg: ClientConfig) -> (r: Client)
        ensures
            r.spec_url() == cfg.url@,
            r.spec_key() == cfg.key@,
            r.spec_verify() == cfg.verify,
            r.spec_timeout_ms() == DEFAULT_TIMEOUT_MS,
            r.spec_retry_max() == DEFAULT_RETRY_MAX,
            r.spec_sleep_max_ms() == DEFAULT_SLEEP_MAX_MS,
            r.spec_wait(),
            r.spec_progress(),
    {
        Client {
            url: cfg.url,
            key: cfg.key,
            verify: cfg.verify,
            timeout_ms: DEFAULT_TIMEOUT_MS,
            retry_max: DEFAULT_RETRY_MAX,
            sleep_max_ms: DEFAULT_SLEEP_MAX_MS,
            wait_until_complete: true,
            progress: true,
        }
    }

    pub open spec fn same_connection(&self, o: Client) -> bool {
        self.spec_url() == o.spec_url() && self.spec_key() == o.spec_key() && self.spec_verify()
            == o.spec_verify()
    }

    pub fn with_timeout(self, timeout_ms: u64) -> (r: Client)
        ensures
            r.spec_timeout_ms() == timeout_ms,
            r.same_connection(self),
            r.spec_retry_max() == self.spec_retry_max(),
            r.spec_sleep_max_ms() == self.spec_sleep_max_ms(),
            r.spec_wait() == self.spec_wait(),
            r.spec_progress() == self.spec_progress(),
    {
        Client { timeout_ms, ..self }
    }

    pub fn with_retry_max(self, retry_max: usize) -> (r: Client)
        ensures
            r.spec_retry_max() == retry_max,
            r.same_connection(self),
            r.spec_timeout_ms() == self.spec_timeout_ms(),
            r.spec_sleep_max_ms() == self.spec_sleep_max_ms(),
            r.spec_wait() == self.spec_wait(),
            r.spec_progress() == self.spec_progress(),
    {
        Client { retry_max, ..self }
    }

    pub fn with_sleep_max(self, sleep_max_ms: u64) -> (r: Client)
        ensures
            r.spec_sleep_max_ms() == sleep_max_ms,
            r.same_connection(self),
            r.spec_timeout_ms() == self.spec_timeout_ms(),
            r.spec_retry_max() == self.spec_retry_max(),
            r.spec_wait() == self.spec_wait(),
            r.spec_progress() == self.spec_progress(),
    {
        Client { sleep_max_ms, ..self }
    }

    pub fn with_wait_until_complete(self, wait: bool) -> (r: Client)
        ensures
            r.spec_wait() == wait,
            r.same_connection(self),
            r.spec_timeout_ms() == self.spec_timeout_ms(),
            r.spec_retry_max() == self.spec_retry_max(),
            r.spec_sleep_max_ms() == self.spec_sleep_max_ms(),
            r.spec_progress() == self.spec_progress(),
    {
        Client { wait_until_complete: wait, ..self }
    }

    pub fn with_progress(self, progress: bool) -> (r: Client)
        ensures
            r.spec_progress() == progress,
            r.same_connection(self),
            r.spec_timeout_ms() == self.spec_timeout_ms(),
            r.spec_retry_max() == self.spec_retry_max(),
            r.spec_sleep_max_ms() == self.spec_sleep_max_ms(),
            r.spec_wait() == self.spec_wait(),
    {
        Client { progress, ..self }
    }

    pub fn url(&self) -> (r: &str)
        ensures
            r@ == self.spec_url(),
    {
        self.url.as_str()
    }

    pub fn key(&self) -> (r: &str)
        ensures
            r@ == self.spec_key(),
    {
        self.key.as_str()
    }

    pub fn verify(&self) -> (r: bool)
        ensures
            r == self.spec_verify(),
    {
        self.verify
    }

    pub fn timeout_ms(&self) -> (r: u64)
        ensures
            r == self.spec_timeout_ms(),
    {
        self.timeout_ms
    }

    pub fn retry_max(&self) -> (r: usize)
        ensures
            r == self.spec_retry_max(),
    {
        self.retry_max
    }

    pub fn sleep_max_ms(&self) -> (r: u64)
        ensures
            r == self.spec_sleep_max_ms(),
    {
        self.sleep_max_ms
    }

    pub fn wait_until_complete(&self) -> (r: bool)
        ensures
            r == self.spec_wait(),
    {
        self.wait_until_complete
    }

    pub fn progress(&self) -> (r: bool)
        ensures
            r == self.spec_progress(),
    {
        self.progress
    }

    /// The protocol that this client's credential selects.
    pub fn protocol(&self) -> (r: Protocol)
        ensures
            r == protocol_of(self.spec_key()),
    {
        select_protocol(self.key.as_str())
    }

    /// How this client authenticates its requests.
    pub fn auth(&self) -> (r: Auth)
        ensures
            auth_matches(r, self.spec_key()),
    {
        auth_for(self.key.as_str())
    }
}

/// Accepts a response whose status is a success; any other status becomes
/// an `HttpError` carrying the status, the URL and the body.
pub fn check_response(status: u16, url: &str, body: &str) -> (r: Result<(), RetrieveError>)
    ensures
        is_success(status) <==> r is Ok,
        !is_success(status) ==> match r {
            Err(RetrieveError::HttpError { status: s, url: u, body: b }) => s == status && u@ == url@
                && b@ == body@,
            _ => false,
        },
{
    if success_status(status) {
        Ok(())
    } else {
        Err(
            RetrieveError::HttpError {
                status,
                url: String::from_str(url),
                body: String::from_str(body),
            },
        )
    }
}

} // verus!
