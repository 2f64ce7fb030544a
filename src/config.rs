//! Connection settings: the configuration-file format and the precedence of
//! explicit values, environment and file.
use vstd::prelude::*;
use vstd::string::*;
use crate::error::{ConfigField, RetrieveError};
use crate::text::{opt_view, 
    chars_of, find_char, first_index, same_chars, slice_of, string_of, trim, trim_bounds,
};

verus! {

/// Resolved connection settings.
#[derive(Clone, Debug)]
pub struct ClientConfig {
    /// Base API URL.
    pub url: String,
    /// Credential: `id:secret` (legacy) or a bare token (modern).
    pub key: String,
    /// Whether TLS certificates are checked.
    pub verify: bool,
}

/// What a configuration file sets.
#[derive(Clone, Debug)]
pub struct RcConfig {
    pub url: Option<String>,
    pub key: Option<String>,
    pub verify: Option<bool>,
}

/// A key whose value is expected on the next line.
#[derive(PartialEq, Eq, Structural, Clone, Copy, Debug)]
pub enum PendingKey {
    Nothing,
    Url,
    Key,
}

/// The parser's state, as values.
pub struct RcModel {
    pub url: Option<Seq<char>>,
    pub key: Option<Seq<char>>,
    pub verify: Option<bool>,
    pub pending: PendingKey,
}

impl RcConfig {
    pub open spec fn model(&self, pending: PendingKey) -> RcModel {
        RcModel { url: opt_view(self.url), key: opt_view(self.key), verify: self.verify, pending }
    }
}

/// `s` trimmed, without one pair of matching surrounding quotes.
pub open spec fn unquote(s: Seq<char>) -> Seq<char> {
    let t = trim(s);
    if t.len() >= 2 && ((t[0] == '"' && t.last() == '"') || (t[0] == '\'' && t.last() == '\'')) {
        t.subrange(1, t.len() - 1)
    } else {
        t
    }
}

/// Trims a value and removes one pair of matching quotes around it.
pub fn strip_quotes(s: &str) -> (r: String)
    ensures
        r@ == unquote(s@),
{
    let v = chars_of(s);
    let (a, b) = trim_bounds(&v);
    if b - a >= 2 && ((v[a] == '"' && v[b - 1] == '"') || (v[a] == '\'' && v[b - 1] == '\'')) {
        string_of(&v, a + 1, b - 1)
    } else {
        string_of(&v, a, b)
    }
}

fn unquote_vec(v: &Vec<char>) -> (r: Vec<char>)
    ensures
        r@ == unquote(v@),
{
    let (a, b) = trim_bounds(v);
    if b - a >= 2 && ((v[a] == '"' && v[b - 1] == '"') || (v[a] == '\'' && v[b - 1] == '\'')) {
        slice_of(v, a + 1, b - 1)
    } else {
        slice_of(v, a, b)
    }
}

/// The effect of one line of a configuration file.
pub open spec fn rc_step(st: RcModel, raw: Seq<char>) -> RcModel {
    let line = trim(raw);
    let colon = first_index(line, ':');
    if line.len() == 0 || line[0] == '#' {
        st
    } else if st.pending != PendingKey::Nothing && colon < 0 {
        let v = unquote(line);
        if st.pending == PendingKey::Url {
            RcModel { url: Some(v), pending: PendingKey::Nothing, ..st }
        } else {
            RcModel { key: Some(v), pending: PendingKey::Nothing, ..st }
        }
    } else if colon < 0 {
        RcModel { pending: PendingKey::Nothing, ..st }
    } else {
        let k = trim(line.subrange(0, colon));
        let v = unquote(line.subrange(colon + 1, line.len() as int));
        let base = RcModel { pending: PendingKey::Nothing, ..st };
        if k == "url"@ {
            if v.len() > 0 {
                RcModel { url: Some(v), ..base }
            } else {
                RcModel { pending: PendingKey::Url, ..base }
            }
        } else if k == "key"@ {
            if v.len() > 0 {
                RcModel { key: Some(v), ..base }
            } else {
                RcModel { pending: PendingKey::Key, ..base }
            }
        } else if k == "verify"@ && v.len() > 0 {
            RcModel { verify: Some(v != "0"@), ..base }
        } else {
            base
        }
    }
}

/// The state after reading `s`, line by line, from `st`.
pub open spec fn rc_lines(st: RcModel, s: Seq<char>) -> RcModel
    decreases s.len(),
{
    let i = first_index(s, '\n');
    if 0 <= i < s.len() {
        rc_lines(rc_step(st, s.subrange(0, i)), s.subrange(i + 1, s.len() as int))
    } else {
        rc_step(st, s)
    }
}

/// What a configuration file's text sets.
pub open spec fn rc_of(text: Seq<char>) -> RcModel {
    rc_lines(RcModel { url: None, key: None, verify: None, pending: PendingKey::Nothing }, text)
}

fn rc_line(cfg: &mut RcConfig, pending: PendingKey, raw: &Vec<char>) -> (r: PendingKey)
    ensures
        final(cfg).model(r) == rc_step(old(cfg).model(pending), raw@),
{
    let (a, b) = trim_bounds(raw);
    let line = slice_of(raw, a, b);
    if line.len() == 0 || line[0] == '#' {
        return pending;
    }
    let colon = find_char(&line, ':');
    match colon {
        None => {
            if pending != PendingKey::Nothing {
                let v = unquote_vec(&line);
                let s = string_of(&v, 0, v.len());
                assert(s@ =~= v@);
                if pending == PendingKey::Url {
                    cfg.url = Some(s);
                } else {
                    cfg.key = Some(s);
                }
            }
            PendingKey::Nothing
        },
        Some(c) => {
            let (ka, kb) = trim_bounds(&slice_of(&line, 0, c));
            let kv = slice_of(&slice_of(&line, 0, c), ka, kb);
            let v = unquote_vec(&slice_of(&line, c + 1, line.len()));
            let s = string_of(&v, 0, v.len());
            assert(s@ =~= v@);
            if same_chars(&kv, &chars_of("url")) {
                if v.len() > 0 {
                    cfg.url = Some(s);
                    PendingKey::Nothing
                } else {
                    PendingKey::Url
                }
            } else if same_chars(&kv, &chars_of("key")) {
                if v.len() > 0 {
                    cfg.key = Some(s);
                    PendingKey::Nothing
                } else {
                    PendingKey::Key
                }
            } else if same_chars(&kv, &chars_of("verify")) && v.len() > 0 {
                cfg.verify = Some(!same_chars(&v, &chars_of("0")));
                PendingKey::Nothing
            } else {
                PendingKey::Nothing
            }
        },
    }
}

/// Reads the settings out of a configuration file's text.
///
/// Each line is `name: value`; a name with an empty value takes its value
/// from the next line when that line holds no colon. Blank lines and lines
/// starting with `#` are skipped.
pub fn parse_rc(text: &str) -> (r: RcConfig)
    ensures
        r.model(rc_of(text@).pending) == rc_of(text@),
{
    let all = chars_of(text);
    let mut cfg = RcConfig { url: None, key: None, verify: None };
    let mut pending = PendingKey::Nothing;
    let mut pos: usize = 0;
    assert(all@.subrange(0, all@.len() as int) =~= text@);
    loop
        invariant
            pos <= all@.len(),
            rc_lines(cfg.model(pending), all@.subrange(pos as int, all@.len() as int))
                == rc_of(text@),
        decreases all@.len() - pos,
    {
        let rest = slice_of(&all, pos, all.len());
        match find_char(&rest, '\n') {
            Some(i) => {
                let line = slice_of(&rest, 0, i);
                pending = rc_line(&mut cfg, pending, &line);
                assert(rest@.subrange(i + 1, rest@.len() as int) =~= all@.subrange(
                    pos + i + 1,
                    all@.len() as int,
                ));
                pos = pos + i + 1;
            },
            None => {
                pending = rc_line(&mut cfg, pending, &rest);
                return cfg;
            },
        }
    }
}

/// The first of three optional values that is present.
pub open spec fn first_some(a: Option<Seq<char>>, b: Option<Seq<char>>, c: Option<Seq<char>>) -> Option<Seq<char>> {
    if a is Some {
        a
    } else if b is Some {
        b
    } else {
        c
    }
}

fn pick(a: Option<String>, b: Option<String>, c: Option<String>) -> (r: Option<String>)
    ensures
        opt_view(r) == first_some(opt_view(a), opt_view(b), opt_view(c)),
{
    match a {
        Some(v) => Some(v),
        None => match b {
            Some(v) => Some(v),
            None => c,
        },
    }
}

/// Resolves the settings: an explicit value wins over the environment, which
/// wins over the configuration file; TLS checking defaults to on.
pub fn load_config(
    url: Option<String>,
    key: Option<String>,
    verify: Option<bool>,
    env_url: Option<String>,
    env_key: Option<String>,
    file: Option<RcConfig>,
) -> (r: Result<ClientConfig, RetrieveError>)
    ensures
        ({
            let (furl, fkey, fverify) = match file {
                Some(f) => (opt_view(f.url), opt_view(f.key), f.verify),
                None => (None, None, None),
            };
            let u = first_some(opt_view(url), opt_view(env_url), furl);
            let k = first_some(opt_view(key), opt_view(env_key), fkey);
            match r {
                Ok(c) => u == Some(c.url@) && k == Some(c.key@) && c.verify == (match verify {
                    Some(v) => v,
                    None => match fverify {
                        Some(v) => v,
                        None => true,
                    },
                }),
                Err(e) => (u is None && e == RetrieveError::ConfigurationMissing {
                    field: ConfigField::Url,
                }) || (u is Some && k is None && e == RetrieveError::ConfigurationMissing {
                    field: ConfigField::Key,
                }),
            }
        }),
{
    let (furl, fkey, fverify) = match file {
        Some(f) => (f.url, f.key, f.verify),
        None => (None, None, None),
    };
    let u = pick(url, env_url, furl);
    let k = pick(key, env_key, fkey);
    let u = match u {
        Some(v) => v,
        None => {
            return Err(RetrieveError::ConfigurationMissing { field: ConfigField::Url });
        },
    };
    let k = match k {
        Some(v) => v,
        None => {
            return Err(RetrieveError::ConfigurationMissing { field: ConfigField::Key });
        },
    };
    let v = match verify {
        Some(v) => v,
        None => match fverify {
            Some(v) => v,
            None => true,
        },
    };
    Ok(ClientConfig { url: u, key: k, verify: v })
}

} // verus!
