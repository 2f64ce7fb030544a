//! The credential string and the protocol it selects.
use vstd::prelude::*;
use vstd::string::*;
use crate::text::{chars_of, find_char, first_index, slice_of, string_of, trim, trim_bounds};

verus! {

/// The `(id, secret)` pair of a legacy `id:secret` credential: the trimmed
/// sides of its first colon, when both are non-empty.
pub open spec fn basic_pair(key: Seq<char>) -> Option<(Seq<char>, Seq<char>)> {
    let i = first_index(key, ':');
    if i < 0 {
        None
    } else {
        let user = trim(key.subrange(0, i));
        let secret = trim(key.subrange(i + 1, key.len() as int));
        if user.len() > 0 && secret.len() > 0 {
            Some((user, secret))
        } else {
            None
        }
    }
}

/// Splits a legacy `id:secret` credential.
pub fn split_key_basic(key: &str) -> (r: Option<(String, String)>)
    ensures
        match r {
            Some(p) => basic_pair(key@) == Some((p.0@, p.1@)),
            None => basic_pair(key@) is None,
        },
{
    let k = chars_of(key);
    let n = k.len();
    let i = match find_char(&k, ':') {
        Some(i) => i,
        None => {
            return None;
        },
    };
    let left = slice_of(&k, 0, i);
    assert(i < n);
    let right = slice_of(&k, i + 1, n);
    let (a, b) = trim_bounds(&left);
    let (c, d) = trim_bounds(&right);
    if a < b && c < d {
        Some((string_of(&left, a, b), string_of(&right, c, d)))
    } else {
        None
    }
}

/// The two submission protocols of the service.
#[derive(PartialEq, Eq, Structural, Clone, Copy, Debug)]
pub enum Protocol {
    /// Resource/task flow, keyed by an `id:secret` credential.
    Legacy,
    /// Job-execution flow, keyed by a bare token.
    Modern,
}

/// The protocol a credential selects.
pub open spec fn protocol_of(key: Seq<char>) -> Protocol {
    if basic_pair(key) is Some {
        Protocol::Legacy
    } else {
        Protocol::Modern
    }
}

/// Chooses the protocol that a credential belongs to.
pub fn select_protocol(key: &str) -> (r: Protocol)
    ensures
        r == protocol_of(key@),
{
    match split_key_basic(key) {
        Some(_) => Protocol::Legacy,
        None => Protocol::Modern,
    }
}

/// A credential holds a colon whose two sides are not blank.
pub open spec fn has_legacy_shape(key: Seq<char>) -> bool {
    exists|i: int|
        0 <= i < key.len() && key[i] == ':' && (forall|j: int| 0 <= j < i ==> key[j] != ':')
            && trim(key.subrange(0, i)).len() > 0 && trim(key.subrange(i + 1, key.len() as int)).len()
            > 0
}

/// A credential with a colon whose sides are not blank selects the legacy
/// protocol; every other credential selects the modern one.
pub proof fn lemma_protocol_choice(key: Seq<char>)
    ensures
        has_legacy_shape(key) ==> protocol_of(key) == Protocol::Legacy,
        !has_legacy_shape(key) ==> protocol_of(key) == Protocol::Modern,
{
    if has_legacy_shape(key) {
        let i = choose|i: int|
            0 <= i < key.len() && key[i] == ':' && (forall|j: int| 0 <= j < i ==> key[j] != ':')
                && trim(key.subrange(0, i)).len() > 0 && trim(
                key.subrange(i + 1, key.len() as int),
            ).len() > 0;
        assert(crate::text::is_first(key, ':', i));
        let k = first_index(key, ':');
        assert(crate::text::is_first(key, ':', k));
        if k < i {
            assert(key[k] != ':');
        } else if i < k {
            assert(key[i] != ':');
        }
    } else {
        let k = first_index(key, ':');
        if k >= 0 {
            assert(crate::text::is_first(key, ':', k));
        }
    }
}

/// How requests are authenticated.
#[derive(Clone, Debug)]
pub enum Auth {
    /// HTTP Basic with the two sides of the credential.
    Basic { user: String, secret: String },
    /// The whole trimmed credential in a token header.
    Token(String),
}

/// `a` is the authentication that `key` calls for.
pub open spec fn auth_matches(a: Auth, key: Seq<char>) -> bool {
    match a {
        Auth::Basic { user, secret } => basic_pair(key) == Some((user@, secret@)),
        Auth::Token(t) => basic_pair(key) is None && t@ == trim(key),
    }
}

/// The authentication that a credential calls for.
pub fn auth_for(key: &str) -> (r: Auth)
    ensures
        auth_matches(r, key@),
{
    match split_key_basic(key) {
        Some((user, secret)) => Auth::Basic { user, secret },
        None => {
            let k = chars_of(key);
            let (a, b) = trim_bounds(&k);
            Auth::Token(string_of(&k, a, b))
        },
    }
}

} // verus!
