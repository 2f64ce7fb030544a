//! The resumable downloader's decisions: where the file goes, which byte
//! range each attempt asks for, and when to retry, finish or give up.
//!
//! The size of the file on disk is the truth: after every interruption the
//! caller measures it and hands it back, and the next range starts there.
use vstd::prelude::*;
use vstd::string::*;
use crate::error::RetrieveError;
use crate::policy::{backoff, bump, next_delay, MIN_DELAY_MS};
use crate::text::push_char;
use crate::url::{filename_of, guess_filename_from_url};

verus! {

/// The decimal digit `d`.
pub open spec fn digit_char(d: nat) -> char {
    if d == 0 {
        '0'
    } else if d == 1 {
        '1'
    } else if d == 2 {
        '2'
    } else if d == 3 {
        '3'
    } else if d == 4 {
        '4'
    } else if d == 5 {
        '5'
    } else if d == 6 {
        '6'
    } else if d == 7 {
        '7'
    } else if d == 8 {
        '8'
    } else {
        '9'
    }
}

/// `n` written in decimal, without leading zeros.
pub open spec fn decimal_of(n: nat) -> Seq<char>
    decreases n,
{
    if n < 10 {
        seq![digit_char(n)]
    } else {
        decimal_of(n / 10) + seq![digit_char(n % 10)]
    }
}

fn digit(d: u64) -> (r: char)
    requires
        d < 10,
    ensures
        r == digit_char(d as nat),
{
    if d == 0 {
        '0'
    } else if d == 1 {
        '1'
    } else if d == 2 {
        '2'
    } else if d == 3 {
        '3'
    } else if d == 4 {
        '4'
    } else if d == 5 {
        '5'
    } else if d == 6 {
        '6'
    } else if d == 7 {
        '7'
    } else if d == 8 {
        '8'
    } else {
        '9'
    }
}

fn push_decimal(out: &mut String, n: u64)
    ensures
        final(out)@ == old(out)@ + decimal_of(n as nat),
    decreases n,
{
    if n >= 10 {
        push_decimal(out, n / 10);
    }
    push_char(out, digit(n % 10));
    assert(final(out)@ =~= old(out)@ + decimal_of(n as nat));
}

/// The `Range` header value asking for everything from byte `from` on.
pub open spec fn range_text(from: u64) -> Seq<char> {
    "bytes="@ + decimal_of(from as nat) + seq!['-']
}

/// `bytes={from}-`.
pub fn range_header(from: u64) -> (r: String)
    ensures
        r@ == range_text(from),
{
    let mut out = String::from_str("bytes=");
    push_decimal(&mut out, from);
    push_char(&mut out, '-');
    out
}

/// The name used when neither the caller nor the URL gives one.
pub open spec fn fallback_name() -> Seq<char> {
    "download"@
}

/// Where a download goes: the given target, else the URL's file name, else
/// a fixed name.
pub open spec fn target_of(location: Seq<char>, target: Seq<char>) -> Seq<char> {
    if target.len() > 0 {
        target
    } else {
        match filename_of(location) {
            Some(f) => f,
            None => fallback_name(),
        }
    }
}

/// The path a download is written to.
pub fn target_path(location: &str, target: &str) -> (r: String)
    ensures
        r@ == target_of(location@, target@),
{
    if target.unicode_len() > 0 {
        return String::from_str(target);
    }
    match guess_filename_from_url(location) {
        Some(f) => f,
        None => String::from_str("download"),
    }
}

/// The state of one transfer.
pub struct Downloader {
    /// The size the finished file must reach.
    pub content_length: u64,
    /// Bytes known to be on disk, for progress reporting.
    pub downloaded: u64,
    /// The first byte the next request asks for, if not the whole file.
    pub range_from: Option<u64>,
    /// Whether the next attempt appends to the file rather than truncating it.
    pub append: bool,
    /// Failed attempts so far.
    pub tries: usize,
    /// The attempt budget.
    pub max_tries: usize,
    /// The wait before the next retry.
    pub delay_ms: u64,
    /// The ceiling of the wait.
    pub max_delay_ms: u64,
}

impl Downloader {
    /// Starts a transfer. A shorter file already on disk is resumed from its
    /// end; otherwise the file is written afresh.
    pub fn new(content_length: u64, existing: Option<u64>, max_tries: usize, max_delay_ms: u64) -> (r: Downloader)
        ensures
            r.content_length == content_length,
            r.max_tries == max_tries,
            r.max_delay_ms == max_delay_ms,
            r.tries == 0,
            r.delay_ms == MIN_DELAY_MS,
            match existing {
                Some(n) => r.downloaded == n && if n < content_length {
                    r.append && r.range_from == Some(n)
                } else {
                    !r.append && r.range_from is None
                },
                None => r.downloaded == 0 && !r.append && r.range_from is None,
            },
    {
        let (downloaded, append, range_from) = match existing {
            Some(n) => if n < content_length {
                (n, true, Some(n))
            } else {
                (n, false, None)
            },
            None => (0, false, None),
        };
        Downloader {
            content_length,
            downloaded,
            range_from,
            append,
            tries: 0,
            max_tries,
            delay_ms: MIN_DELAY_MS,
            max_delay_ms,
        }
    }

    /// Whether the budget allows another attempt.
    pub fn can_attempt(&self) -> (r: bool)
        ensures
            r == (self.tries < self.max_tries),
    {
        self.tries < self.max_tries
    }

    /// The `Range` header of the next request, if it asks for a part.
    pub fn range(&self) -> (r: Option<String>)
        ensures
            match self.range_from {
                Some(n) => r is Some && r->0@ == range_text(n),
                None => r is None,
            },
    {
        match self.range_from {
            Some(n) => Some(range_header(n)),
            None => None,
        }
    }

    /// Takes the status of a successful response and says whether to append.
    /// A server that answers a ranged request with the whole file (200, not
    /// 206) sends it from byte 0, so the file is then written afresh.
    pub fn on_response(&mut self, status: u16) -> (r: bool)
        ensures
            final(self).content_length == old(self).content_length,
            final(self).tries == old(self).tries,
            final(self).max_tries == old(self).max_tries,
            final(self).delay_ms == old(self).delay_ms,
            final(self).max_delay_ms == old(self).max_delay_ms,
            r == final(self).append,
            if old(self).range_from is Some && status == 200 {
                !final(self).append && final(self).downloaded == 0 && final(self).range_from is None
            } else {
                final(self).append == old(self).append && final(self).downloaded
                    == old(self).downloaded && final(self).range_from == old(self).range_from
            },
    {
        if self.range_from.is_some() && status == 200 {
            self.append = false;
            self.downloaded = 0;
            self.range_from = None;
        }
        self.append
    }

    /// Counts `n` bytes written.
    pub fn on_chunk(&mut self, n: u64)
        ensures
            final(self).downloaded == if old(self).downloaded + n > u64::MAX {
                u64::MAX as int
            } else {
                old(self).downloaded + n
            },
            final(self).content_length == old(self).content_length,
            final(self).range_from == old(self).range_from,
            final(self).append == old(self).append,
            final(self).tries == old(self).tries,
            final(self).max_tries == old(self).max_tries,
            final(self).delay_ms == old(self).delay_ms,
            final(self).max_delay_ms == old(self).max_delay_ms,
    {
        self.downloaded = self.downloaded.saturating_add(n);
    }

    /// Records a failed attempt (no connection, a bad status, a broken
    /// stream, or a short file), with `on_disk` bytes on disk. The next
    /// attempt resumes there. Returns the wait before it, or `None` when the
    /// budget is spent.
    pub fn on_interrupted(&mut self, on_disk: u64) -> (r: Option<u64>)
        ensures
            final(self).tries == bump(old(self).tries),
            final(self).downloaded == on_disk,
            final(self).range_from == Some(on_disk),
            final(self).append,
            final(self).content_length == old(self).content_length,
            final(self).max_tries == old(self).max_tries,
            final(self).max_delay_ms == old(self).max_delay_ms,
            match r {
                Some(w) => final(self).tries < final(self).max_tries && w == old(self).delay_ms
                    && final(self).delay_ms == next_delay(
                    old(self).delay_ms as int,
                    old(self).max_delay_ms as int,
                ),
                None => final(self).tries >= final(self).max_tries && final(self).delay_ms
                    == old(self).delay_ms,
            },
    {
        if self.tries < usize::MAX {
            self.tries = self.tries + 1;
        }
        self.downloaded = on_disk;
        self.range_from = Some(on_disk);
        self.append = true;
        if self.tries < self.max_tries {
            let w = self.delay_ms;
            self.delay_ms = backoff(self.delay_ms, self.max_delay_ms);
            Some(w)
        } else {
            None
        }
    }

    /// Takes the size on disk after a stream ended cleanly. Returns `None`
    /// when the file is complete; otherwise the attempt counts as failed, as
    /// in `on_interrupted`.
    pub fn on_eof(&mut self, on_disk: u64) -> (r: Option<Option<u64>>)
        ensures
            on_disk >= old(self).content_length ==> r is None && final(self).downloaded == on_disk
                && final(self).tries == old(self).tries,
            on_disk < old(self).content_length ==> r is Some && final(self).range_from == Some(
                on_disk,
            ) && final(self).tries == bump(old(self).tries) && (r->0 is None <==> final(self).tries >= final(self).max_tries),
            final(self).content_length == old(self).content_length,
            final(self).max_tries == old(self).max_tries,
    {
        if on_disk >= self.content_length {
            self.downloaded = on_disk;
            None
        } else {
            Some(self.on_interrupted(on_disk))
        }
    }

    /// The error reported when the budget is spent.
    pub fn give_up(&self) -> (r: RetrieveError)
        ensures
            r == (RetrieveError::TransferIncomplete {
                downloaded: self.downloaded,
                expected: self.content_length,
            }),
    {
        RetrieveError::TransferIncomplete {
            downloaded: self.downloaded,
            expected: self.content_length,
        }
    }
}

} // verus!
