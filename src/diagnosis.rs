//! Classification of the service's error payloads, so that a caller can
//! print a remedy: licences not accepted, bad credentials, a wrong base URL.
use vstd::prelude::*;
use vstd::string::*;
use crate::text::{chars_of, contains, contains_exec, is_space, occurs_at, occurs_at_exec, space_char, string_of};

verus! {

/// The error payload of a failed API call; every field may be absent.
#[derive(Clone, Debug)]
pub struct CdsErrorResponse {
    pub kind: Option<String>,
    pub title: Option<String>,
    pub status: Option<u16>,
    pub detail: Option<String>,
    pub instance: Option<String>,
    pub trace_id: Option<String>,
    pub message: Option<String>,
}

/// What went wrong, as far as a remedy is concerned.
#[derive(PartialEq, Eq, Structural, Clone, Copy, Debug)]
pub enum ErrorClass {
    /// 403 naming licences that were not accepted.
    LicenceNotAccepted,
    /// 401, or another 403.
    AuthFailed,
    /// 404: the API path or base URL is wrong.
    NotFound,
    /// Anything else.
    Other,
}

/// What `str::to_lowercase` makes of a string.
pub uninterp spec fn lower_of(s: Seq<char>) -> Seq<char>;

/// Relies on `str::to_lowercase`: the result depends on the characters alone.
#[verifier::external_body]
fn lowercase(s: &str) -> (r: String)
    ensures
        r@ == lower_of(s@),
{
    s.to_lowercase()
}

/// The class of an error, from the status and the lower-cased title and detail.
pub open spec fn class_of(status: u16, title_lower: Seq<char>, detail_lower: Seq<char>) -> ErrorClass {
    if status == 403 && (contains(title_lower, "required licences"@) || contains(
        detail_lower,
        "required licence"@,
    ) || contains(detail_lower, "manage-licences"@)) {
        ErrorClass::LicenceNotAccepted
    } else if status == 401 || status == 403 {
        ErrorClass::AuthFailed
    } else if status == 404 {
        ErrorClass::NotFound
    } else {
        ErrorClass::Other
    }
}

/// Classifies an error whose title and detail are already lower-cased.
pub fn classify_folded(status: u16, title_lower: &str, detail_lower: &str) -> (r: ErrorClass)
    ensures
        r == class_of(status, title_lower@, detail_lower@),
{
    let t = chars_of(title_lower);
    let d = chars_of(detail_lower);
    if status == 403 && (contains_exec(&t, &chars_of("required licences")) || contains_exec(
        &d,
        &chars_of("required licence"),
    ) || contains_exec(&d, &chars_of("manage-licences"))) {
        ErrorClass::LicenceNotAccepted
    } else if status == 401 || status == 403 {
        ErrorClass::AuthFailed
    } else if status == 404 {
        ErrorClass::NotFound
    } else {
        ErrorClass::Other
    }
}

/// Classifies an error by its status, title and detail, ignoring case.
pub fn classify_cds_error(status: u16, title: &str, detail: &str) -> (r: ErrorClass)
    ensures
        r == class_of(status, lower_of(title@), lower_of(detail@)),
{
    let t = lowercase(title);
    let d = lowercase(detail);
    classify_folded(status, t.as_str(), d.as_str())
}

/// `i` is where `p` first occurs in `s`.
pub open spec fn is_first_occurrence(s: Seq<char>, p: Seq<char>, i: int) -> bool {
    occurs_at(s, p, i) && forall|j: int| 0 <= j < i ==> !occurs_at(s, p, j)
}

/// `e` ends the run of non-space characters that starts at `i`.
pub open spec fn is_token_end(s: Seq<char>, i: int, e: int) -> bool {
    i <= e <= s.len() && (forall|j: int| i <= j < e ==> !is_space(s[j])) && (e == s.len() || is_space(
        s[e],
    ))
}

/// The page that explains how to accept licences when the detail names none.
pub open spec fn default_licence_page() -> Seq<char> {
    "https://cds.climate.copernicus.eu/how-to-api"@
}

/// The first `https://` link in `detail`, up to the next white space, or the
/// default page.
pub open spec fn licence_link_of(detail: Seq<char>) -> Seq<char> {
    if exists|i: int| is_first_occurrence(detail, "https://"@, i) {
        let i = choose|i: int| is_first_occurrence(detail, "https://"@, i);
        detail.subrange(i, choose|e: int| is_token_end(detail, i, e))
    } else {
        default_licence_page()
    }
}

/// The link a licence error points the user to.
pub fn licence_link(detail: &str) -> (r: String)
    ensures
        r@ == licence_link_of(detail@),
{
    let d = chars_of(detail);
    let p = chars_of("https://");
    proof {
        reveal_strlit("https://");
    }
    assert(p@.len() == 8);
    let n = d.len();
    let mut i: usize = 0;
    while i < n
        invariant
            n == d@.len(),
            d@ == detail@,
            p@ == "https://"@,
            i <= n,
            forall|j: int| 0 <= j < i ==> !occurs_at(d@, p@, j),
        decreases n - i,
    {
        if occurs_at_exec(&d, &p, i) {
            let mut e: usize = i;
            while e < n && !space_char(d[e])
                invariant
                    n == d@.len(),
                    i <= e <= n,
                    forall|j: int| i <= j < e ==> !is_space(d@[j]),
                decreases n - e,
            {
                e = e + 1;
            }
            proof {
                assert(is_first_occurrence(d@, p@, i as int));
                let k = choose|k: int| is_first_occurrence(d@, p@, k);
                if k < i {
                    assert(!occurs_at(d@, p@, k));
                } else if i < k {
                    assert(!occurs_at(d@, p@, i as int));
                }
                assert(k == i as int);
                assert(is_token_end(d@, i as int, e as int));
                let f = choose|f: int| is_token_end(d@, i as int, f);
                if f < e {
                    assert(!is_space(d@[f]));
                } else if e < f {
                    assert(!is_space(d@[e as int]));
                }
                assert(f == e as int);
            }
            return string_of(&d, i, e);
        }
        i = i + 1;
    }
    assert(!exists|k: int| is_first_occurrence(d@, p@, k)) by {
        if exists|k: int| is_first_occurrence(d@, p@, k) {
            let k = choose|k: int| is_first_occurrence(d@, p@, k);
            assert(!occurs_at(d@, p@, k));
        }
    }
    String::from_str("https://cds.climate.copernicus.eu/how-to-api")
}

/// The fields of an error payload, resolved for display.
#[derive(Clone, Debug)]
pub struct ErrorReport {
    pub class: ErrorClass,
    /// The status named in the payload, else the response's.
    pub status: u16,
    /// The title, else the message, else empty.
    pub title: String,
    pub detail: String,
    pub kind: String,
    pub instance: String,
    pub trace_id: String,
    /// For a licence error, where to accept the licences; else empty.
    pub link: String,
}

/// The view of an optional string, empty when absent.
pub open spec fn or_empty(o: Option<String>) -> Seq<char> {
    match o {
        Some(s) => s@,
        None => Seq::empty(),
    }
}

fn text_or_empty(o: &Option<String>) -> (r: String)
    ensures
        r@ == or_empty(*o),
{
    match o {
        Some(s) => s.clone(),
        None => String::new(),
    }
}

/// Resolves an error payload received with `status`.
pub fn describe_cds_error(status: u16, e: &CdsErrorResponse) -> (r: ErrorReport)
    ensures
        r.title@ == (if e.title is Some { or_empty(e.title) } else { or_empty(e.message) }),
        r.detail@ == or_empty(e.detail),
        r.kind@ == or_empty(e.kind),
        r.instance@ == or_empty(e.instance),
        r.trace_id@ == or_empty(e.trace_id),
        r.status == match e.status {
            Some(s) => s,
            None => status,
        },
        r.class == class_of(status, lower_of(r.title@), lower_of(r.detail@)),
        r.class == ErrorClass::LicenceNotAccepted ==> r.link@ == licence_link_of(r.detail@),
        r.class != ErrorClass::LicenceNotAccepted ==> r.link@.len() == 0,
{
    let title = if e.title.is_some() {
        text_or_empty(&e.title)
    } else {
        text_or_empty(&e.message)
    };
    let detail = text_or_empty(&e.detail);
    let class = classify_cds_error(status, title.as_str(), detail.as_str());
    let link = if class == ErrorClass::LicenceNotAccepted {
        licence_link(detail.as_str())
    } else {
        String::new()
    };
    ErrorReport {
        class,
        status: match e.status {
            Some(s) => s,
            None => status,
        },
        title,
        detail,
        kind: text_or_empty(&e.kind),
        instance: text_or_empty(&e.instance),
        trace_id: text_or_empty(&e.trace_id),
        link,
    }
}

} // verus!
