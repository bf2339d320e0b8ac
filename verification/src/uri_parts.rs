//! Splitting a URI string into scheme, authority and path, and deriving the
//! userinfo and host pieces of an authority.
//!
//! The grammar is the common object-store shape
//! `scheme://[userinfo@]host[:port]/path`. A string without `://` is treated
//! as a bare path with no scheme; the provider resolvers then reject it as
//! missing its scheme. The `path` of a split result is either empty (no `/`
//! followed the authority) or starts with `/`.

use vstd::prelude::*;

use crate::strutil::find_char;
use crate::strutil::find_char_from;
use crate::strutil::find_scheme_sep;
use crate::strutil::find_scheme_sep_from;

verus! {

/// The view of an optional owned string.
pub open spec fn opt_string_view(o: &Option<String>) -> Option<Seq<char>> {
    match o {
        Some(s) => Some(s@),
        None => None,
    }
}

/// Why a string could not be split into URI parts.
#[derive(Debug, Clone, Copy, PartialEq, Eq, Structural)]
pub enum UriSplitError {
    /// The input was empty.
    Empty,
    /// `://` was found but nothing stood before it.
    EmptyScheme,
    /// `://` was found but no authority followed it.
    EmptyAuthority,
}

impl UriSplitError {
    /// The diagnostic text of this cause.
    pub open spec fn cause_view(self) -> Seq<char> {
        match self {
            UriSplitError::Empty => "empty string"@,
            UriSplitError::EmptyScheme => "empty scheme"@,
            UriSplitError::EmptyAuthority => "empty authority"@,
        }
    }

    /// Render the diagnostic text of this cause.
    pub fn cause(&self) -> (r: String)
        ensures
            r@ == self.cause_view(),
    {
        match self {
            UriSplitError::Empty => String::from_str("empty string"),
            UriSplitError::EmptyScheme => String::from_str("empty scheme"),
            UriSplitError::EmptyAuthority => String::from_str("empty authority"),
        }
    }
}

/// The spec-level result of splitting a URI string.
pub struct UriView {
    pub scheme: Option<Seq<char>>,
    pub authority: Option<Seq<char>>,
    pub path: Seq<char>,
}

/// What splitting a URI string yields: the mathematical definition the exec
/// splitter is proved against.
pub open spec fn spec_split_uri(s: Seq<char>) -> Result<UriView, UriSplitError> {
    if s.len() == 0 {
        Err(UriSplitError::Empty)
    } else {
        match find_scheme_sep_from(s, 0) {
            Some(i) => if i == 0 {
                Err(UriSplitError::EmptyScheme)
            } else {
                let rest = s.subrange(i + 3, s.len() as int);
                let auth = match find_char_from(rest, '/', 0) {
                    Some(j) => rest.subrange(0, j),
                    None => rest,
                };
                let path = match find_char_from(rest, '/', 0) {
                    Some(j) => rest.subrange(j, rest.len() as int),
                    None => Seq::<char>::empty(),
                };
                if auth.len() == 0 {
                    Err(UriSplitError::EmptyAuthority)
                } else {
                    Ok(UriView { scheme: Some(s.subrange(0, i)), authority: Some(auth), path })
                }
            },
            None => Ok(UriView { scheme: None, authority: None, path: s }),
        }
    }
}

/// The userinfo of an authority: what stands before its first `@`, if any.
pub open spec fn spec_userinfo(auth: Seq<char>) -> Option<Seq<char>> {
    match find_char_from(auth, '@', 0) {
        Some(i) => Some(auth.subrange(0, i)),
        None => None,
    }
}

/// The host-and-port of an authority: what follows its first `@`, or all of
/// it when it has none.
pub open spec fn spec_hostport(auth: Seq<char>) -> Seq<char> {
    match find_char_from(auth, '@', 0) {
        Some(i) => auth.subrange(i + 1, auth.len() as int),
        None => auth,
    }
}

/// The host of an authority: its host-and-port up to the first `:`. Empty
/// means the authority names no host.
pub open spec fn spec_host(auth: Seq<char>) -> Seq<char> {
    let hp = spec_hostport(auth);
    match find_char_from(hp, ':', 0) {
        Some(i) => hp.subrange(0, i),
        None => hp,
    }
}

/// The owned pieces of a split URI string.
pub struct UriParts {
    pub scheme: Option<String>,
    pub authority: Option<String>,
    pub path: String,
}

/// Split a URI string into scheme, authority and path.
pub fn split_uri(s: &str) -> (r: Result<UriParts, UriSplitError>)
    ensures
        match r {
            Ok(p) => spec_split_uri(s@) matches Ok(v) && opt_string_view(&p.scheme) == v.scheme
                && opt_string_view(&p.authority) == v.authority && p.path@ == v.path,
            Err(e) => spec_split_uri(s@) == Err::<UriView, UriSplitError>(e),
        },
{
    let n = s.unicode_len();
    if n == 0 {
        return Err(UriSplitError::Empty);
    }
    match find_scheme_sep(s) {
        Some(i) => {
            if i == 0 {
                return Err(UriSplitError::EmptyScheme);
            }
            let scheme = s.substring_char(0, i);
            let rest = s.substring_char(i + 3, n);
            let rest_len = rest.unicode_len();
            match find_char(rest, '/') {
                Some(j) => {
                    if j == 0 {
                        return Err(UriSplitError::EmptyAuthority);
                    }
                    let auth = rest.substring_char(0, j);
                    let path = rest.substring_char(j, rest_len);
                    Ok(UriParts {
                        scheme: Some(String::from_str(scheme)),
                        authority: Some(String::from_str(auth)),
                        path: String::from_str(path),
                    })
                },
                None => {
                    if rest_len == 0 {
                        return Err(UriSplitError::EmptyAuthority);
                    }
                    Ok(UriParts {
                        scheme: Some(String::from_str(scheme)),
                        authority: Some(String::from_str(rest)),
                        path: String::new(),
                    })
                },
            }
        },
        None => Ok(UriParts { scheme: None, authority: None, path: String::from_str(s) }),
    }
}

/// Extract the host named by an authority.
pub fn host_of(auth: &str) -> (r: String)
    ensures
        r@ == spec_host(auth@),
{
    let n = auth.unicode_len();
    let hostport = match find_char(auth, '@') {
        Some(i) => auth.substring_char(i + 1, n),
        None => auth,
    };
    match find_char(hostport, ':') {
        Some(i) => String::from_str(hostport.substring_char(0, i)),
        None => String::from_str(hostport),
    }
}

/// Extract the userinfo of an authority.
pub fn userinfo_of(auth: &str) -> (r: Option<String>)
    ensures
        opt_string_view(&r) == spec_userinfo(auth@),
{
    match find_char(auth, '@') {
        Some(i) => Some(String::from_str(auth.substring_char(0, i))),
        None => None,
    }
}

} // verus!
