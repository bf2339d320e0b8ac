//! Resolution of Amazon S3 object URIs.
//!
//! Three families of forms are accepted:
//! - native schemes `s3://<bucket>/<key>`, `s3a://…`, `s3n://…`: the host is
//!   the bucket, the path with its leading `/` stripped is the key;
//! - virtual-hosted-style `http(s)://<bucket>.s3[.-]<region>.<…>/<key>`: the
//!   host prefix before the `s3` endpoint marker, minus its trailing dot, is
//!   the bucket;
//! - path-style `http(s)://s3[.-]<region>.<…>/<bucket>/<key>`: the host is a
//!   bare `s3` endpoint and the first path segment is the bucket.
//!
//! A host matches the `s3` endpoint pattern at position `i` when `s3` stands
//! there, followed by `.` or `-`, a non-empty run of `[a-z0-9-]` (the region,
//! parsed but not retained), and a `.`. The prefix before `i`, when there is
//! one, must end with `.`. Of all matching positions the largest wins, so the
//! longest possible bucket prefix is taken.

use vstd::prelude::*;

use crate::error::SignerError;
use crate::error::SignerErrorKind;
use crate::strutil::find_char;
use crate::strutil::find_char_from;
use crate::strutil::str_eq;
use crate::uri_parts::spec_host;
use crate::uri_parts::spec_split_uri;
use crate::uri_parts::split_uri;
use crate::uri_parts::host_of;

verus! {

/// A canonical Amazon S3 object address. The region, when the URI carries
/// one, is parsed but not retained as an invariant-bearing field.
#[derive(Debug, Clone, PartialEq, Eq, Hash)]
pub struct S3Uri {
    pub bucket: String,
    pub key: String,
    pub region: Option<String>,
}

/// The characters allowed in the region piece of an `s3` endpoint host.
pub open spec fn s3_endpoint_char(c: char) -> bool {
    ('a' <= c && c <= 'z') || ('0' <= c && c <= '9') || c == '-'
}

/// The first index at or after `j` whose character falls outside the region
/// character class, or the length of `h` if none does.
pub open spec fn run_end(h: Seq<char>, j: int) -> int
    decreases h.len() - j,
{
    if j < 0 || j >= h.len() {
        h.len() as int
    } else if !s3_endpoint_char(h[j]) {
        j
    } else {
        run_end(h, j + 1)
    }
}

/// Any index with the run-end property is the one `run_end` returns.
pub proof fn lemma_run_end_is(h: Seq<char>, j: int, k: int)
    requires
        0 <= j <= k <= h.len(),
        forall|m: int| j <= m < k ==> s3_endpoint_char(h[m]),
        k < h.len() ==> !s3_endpoint_char(h[k]),
    ensures
        run_end(h, j) == k,
    decreases h.len() - j,
{
    if j < h.len() && s3_endpoint_char(h[j]) {
        lemma_run_end_is(h, j + 1, k);
    }
}

/// Whether the `s3` endpoint marker matches at position `i` of host `h`:
/// `s3`, then `.` or `-`, then a non-empty region run, then a `.`.
pub open spec fn s3_tail_match(h: Seq<char>, i: int) -> bool {
    &&& 0 <= i
    &&& i + 3 <= h.len()
    &&& h[i] == 's'
    &&& h[i + 1] == '3'
    &&& (h[i + 2] == '.' || h[i + 2] == '-')
    &&& run_end(h, i + 3) > i + 3
    &&& run_end(h, i + 3) < h.len()
    &&& h[run_end(h, i + 3)] == '.'
}

/// Whether host `h` matches the endpoint pattern with the (possibly empty)
/// bucket prefix ending at `i`: a non-empty prefix must end with a dot.
pub open spec fn s3_match_at(h: Seq<char>, i: int) -> bool {
    &&& (i == 0 || (i >= 2 && h[i - 1] == '.'))
    &&& s3_tail_match(h, i)
}

/// The largest `k <= i` at which the endpoint pattern matches, if any. The
/// largest is taken so that the longest possible bucket prefix wins.
pub open spec fn s3_best_from(h: Seq<char>, i: int) -> Option<int>
    decreases i + 1,
{
    if i < 0 {
        None
    } else if s3_match_at(h, i) {
        Some(i)
    } else {
        s3_best_from(h, i - 1)
    }
}

/// The endpoint-pattern match position of host `h`, if any.
pub open spec fn s3_host_match(h: Seq<char>) -> Option<int> {
    s3_best_from(h, h.len() - 3)
}

/// A position returned by `s3_best_from` does match the endpoint pattern.
pub proof fn lemma_s3_best_from_sound(h: Seq<char>, i: int)
    ensures
        s3_best_from(h, i) matches Some(j) ==> 0 <= j <= i && s3_match_at(h, j),
    decreases i + 1,
{
    if i >= 0 && !s3_match_at(h, i) {
        lemma_s3_best_from_sound(h, i - 1);
    }
}

/// Any position with the largest-match property is the one `s3_best_from`
/// returns.
pub proof fn lemma_s3_best_from_is(h: Seq<char>, i: int, r: Option<int>)
    requires
        match r {
            Some(j) => 0 <= j <= i && s3_match_at(h, j) && (forall|k: int|
                j < k <= i ==> !s3_match_at(h, k)),
            None => forall|k: int| 0 <= k <= i ==> !s3_match_at(h, k),
        },
    ensures
        s3_best_from(h, i) == r,
    decreases i + 1,
{
    if i >= 0 && !s3_match_at(h, i) {
        lemma_s3_best_from_is(h, i - 1, r);
    }
}

/// No position beyond `h.len() - 3` can match, so `s3_host_match` is the
/// largest matching position overall.
pub proof fn lemma_s3_host_match(h: Seq<char>, r: Option<int>)
    requires
        match r {
            Some(j) => 0 <= j && s3_match_at(h, j) && (forall|k: int| k > j ==> !s3_match_at(h, k)),
            None => forall|k: int| !s3_match_at(h, k),
        },
    ensures
        s3_host_match(h) == r,
{
    lemma_s3_best_from_is(h, h.len() - 3, r);
}

/// Whether `c` falls in the region character class.
fn is_endpoint_char(c: char) -> (r: bool)
    ensures
        r == s3_endpoint_char(c),
{
    ('a' <= c && c <= 'z') || ('0' <= c && c <= '9') || c == '-'
}

/// Whether the endpoint pattern matches host `h` at position `i`.
fn match_at(h: &str, n: usize, i: usize) -> (r: bool)
    requires
        n == h@.len(),
        i + 3 <= n,
    ensures
        r == s3_match_at(h@, i as int),
{
    if !(i == 0 || (i >= 2 && h.get_char(i - 1) == '.')) {
        return false;
    }
    if !(h.get_char(i) == 's' && h.get_char(i + 1) == '3') {
        return false;
    }
    let sep = h.get_char(i + 2);
    if !(sep == '.' || sep == '-') {
        return false;
    }
    let mut k: usize = i + 3;
    while k < n && is_endpoint_char(h.get_char(k))
        invariant
            i + 3 <= k <= n,
            n == h@.len(),
            forall|m: int| i + 3 <= m < k ==> s3_endpoint_char(h@[m]),
        decreases n - k,
    {
        k = k + 1;
    }
    proof {
        lemma_run_end_is(h@, i + 3, k as int);
    }
    k > i + 3 && k < n && h.get_char(k) == '.'
}

/// Find the endpoint-pattern match position of host `h`, preferring the
/// largest.
fn host_match(h: &str) -> (r: Option<usize>)
    ensures
        match r {
            Some(i) => s3_host_match(h@) == Some(i as int),
            None => s3_host_match(h@) is None,
        },
{
    let n = h.unicode_len();
    if n < 3 {
        proof {
            lemma_s3_host_match(h@, None);
        }
        return None;
    }
    let mut i: usize = n - 3;
    loop
        invariant
            0 <= i <= n - 3,
            n == h@.len(),
            n >= 3,
            forall|k: int| i < k <= n - 3 ==> !s3_match_at(h@, k),
        decreases i,
    {
        if match_at(h, n, i) {
            proof {
                lemma_s3_host_match(h@, Some(i as int));
            }
            return Some(i);
        }
        if i == 0 {
            proof {
                lemma_s3_host_match(h@, None);
            }
            return None;
        }
        i = i - 1;
    }
}

/// The message of a failure to split the URI string at all.
pub open spec fn s3_msg_invalid(cause: Seq<char>, s: Seq<char>) -> Seq<char> {
    "Invalid URI. Cause: "@ + cause + ". Received URI: `"@ + s + "`."@
}

/// What resolving a native-scheme (`s3`, `s3a`, `s3n`) authority and path
/// yields.
pub open spec fn spec_s3_from_native(auth: Seq<char>, path: Seq<char>, s: Seq<char>) -> Result<
    (Seq<char>, Seq<char>),
    Seq<char>,
> {
    let host = spec_host(auth);
    if host.len() == 0 {
        Err(
            "Invalid URI: Couldn't extract the S3 bucket name. Format the URI as `s3://<bucket_name>/<key>`. Received: "@
                + s,
        )
    } else if path.len() == 0 {
        Err(
            "Invalid URI: Couldn't extract the S3 object key. Format the URI as `s3://<bucket_name>/<key>`. Received: "@
                + s,
        )
    } else {
        Ok((host, path.subrange(1, path.len() as int)))
    }
}

/// What resolving an `http(s)` authority and path yields: virtual-hosted
/// style when the endpoint pattern matches with a non-empty prefix,
/// path style when it matches at the host start.
pub open spec fn spec_s3_from_url(auth: Seq<char>, path: Seq<char>) -> Result<
    (Seq<char>, Seq<char>),
    Seq<char>,
> {
    let host = spec_host(auth);
    if host.len() == 0 {
        Err("Invalid URI"@)
    } else {
        match s3_host_match(host) {
            None => Err("Invalid URI. Hostname does not appear to be a valid S3 endpoint"@),
            Some(i) => if i > 0 {
                if path.len() == 0 {
                    Err("Invalid URI: bad path"@)
                } else {
                    Ok((host.subrange(0, i - 1), path.subrange(1, path.len() as int)))
                }
            } else {
                if path.len() == 0 {
                    Err("Invalid URI: Couldn't extract bucket name."@)
                } else {
                    let p = path.subrange(1, path.len() as int);
                    match find_char_from(p, '/', 0) {
                        Some(j) => Ok((p.subrange(0, j), p.subrange(j + 1, p.len() as int))),
                        None => Err("Invalid URI: Couldn't extract key."@),
                    }
                }
            },
        }
    }
}

/// What resolving an S3 URI string yields: `(bucket, key)` on success, the
/// error message otherwise. Every failure is a `CloudUriParseError`.
pub open spec fn spec_parse_s3(s: Seq<char>) -> Result<(Seq<char>, Seq<char>), Seq<char>> {
    match spec_split_uri(s) {
        Err(e) => Err(s3_msg_invalid(e.cause_view(), s)),
        Ok(u) => match u.scheme {
            None => Err(
                "Invalid URI: missing scheme. The URI should start with `S3`, `S3a`, `S3n`, `http` or `https`. Received URI: `"@
                    + s + "`."@,
            ),
            Some(sch) => if sch == "s3"@ || sch == "s3a"@ || sch == "s3n"@ {
                spec_s3_from_native(u.authority->Some_0, u.path, s)
            } else if sch == "http"@ || sch == "https"@ {
                spec_s3_from_url(u.authority->Some_0, u.path)
            } else {
                Err(
                    "Unsupported URI scheme. Supported schemas are `S3`, `S3a`, `S3n`, `http` and `https`. Received scheme: `"@
                        + sch + "`."@,
                )
            },
        },
    }
}

impl S3Uri {
    /// Assemble an address from its parts.
    pub fn new(bucket: String, key: String, region: Option<String>) -> (r: Self)
        ensures
            r.bucket@ == bucket@,
            r.key@ == key@,
            r.region == region,
    {
        Self { bucket, key, region }
    }

    /// The bucket holding the object.
    pub fn bucket(&self) -> (r: &str)
        ensures
            r@ == self.bucket@,
    {
        self.bucket.as_str()
    }

    /// The key of the object within its bucket.
    pub fn key(&self) -> (r: &str)
        ensures
            r@ == self.key@,
    {
        self.key.as_str()
    }

    /// Resolve a native-scheme URI's authority and path.
    fn from_s3_uri(auth: &str, path: &str, s: &str) -> (r: Result<Self, SignerError>)
        ensures
            match r {
                Ok(u) => spec_s3_from_native(auth@, path@, s@) == Ok::<_, Seq<char>>(
                    (u.bucket@, u.key@),
                ) && u.region is None,
                Err(e) => e.kind == SignerErrorKind::CloudUriParseError && spec_s3_from_native(
                    auth@,
                    path@,
                    s@,
                ) == Err::<(Seq<char>, Seq<char>), _>(e.message@),
            },
    {
        let host = host_of(auth);
        if host.as_str().unicode_len() == 0 {
            let mut m = String::from_str(
                "Invalid URI: Couldn't extract the S3 bucket name. Format the URI as `s3://<bucket_name>/<key>`. Received: ",
            );
            m.append(s);
            return Err(SignerError::uri_parse_error(m));
        }
        let plen = path.unicode_len();
        if plen == 0 {
            let mut m = String::from_str(
                "Invalid URI: Couldn't extract the S3 object key. Format the URI as `s3://<bucket_name>/<key>`. Received: ",
            );
            m.append(s);
            return Err(SignerError::uri_parse_error(m));
        }
        let key = String::from_str(path.substring_char(1, plen));
        Ok(S3Uri { bucket: host, key, region: None })
    }

    /// Resolve an `http(s)` URI's authority and path against the endpoint
    /// pattern.
    fn from_url(auth: &str, path: &str) -> (r: Result<Self, SignerError>)
        ensures
            match r {
                Ok(u) => spec_s3_from_url(auth@, path@) == Ok::<_, Seq<char>>((u.bucket@, u.key@))
                    && u.region is None,
                Err(e) => e.kind == SignerErrorKind::CloudUriParseError && spec_s3_from_url(
                    auth@,
                    path@,
                ) == Err::<(Seq<char>, Seq<char>), _>(e.message@),
            },
    {
        let host = host_of(auth);
        let hlen = host.as_str().unicode_len();
        if hlen == 0 {
            return Err(SignerError::uri_parse_error(String::from_str("Invalid URI")));
        }
        let plen = path.unicode_len();
        match host_match(host.as_str()) {
            None => Err(SignerError::uri_parse_error(String::from_str(
                "Invalid URI. Hostname does not appear to be a valid S3 endpoint",
            ))),
            Some(i) => {
                proof {
                    lemma_s3_best_from_sound(host@, host@.len() - 3);
                }
                if i > 0 {
                    if plen == 0 {
                        return Err(SignerError::uri_parse_error(String::from_str(
                            "Invalid URI: bad path",
                        )));
                    }
                    let bucket = String::from_str(host.as_str().substring_char(0, i - 1));
                    let key = String::from_str(path.substring_char(1, plen));
                    Ok(S3Uri { bucket, key, region: None })
                } else {
                    if plen == 0 {
                        return Err(SignerError::uri_parse_error(String::from_str(
                            "Invalid URI: Couldn't extract bucket name.",
                        )));
                    }
                    let p = path.substring_char(1, plen);
                    match find_char(p, '/') {
                        Some(j) => {
                            let bucket = String::from_str(p.substring_char(0, j));
                            let key = String::from_str(
                                p.substring_char(j + 1, p.unicode_len()),
                            );
                            Ok(S3Uri { bucket, key, region: None })
                        },
                        None => Err(SignerError::uri_parse_error(String::from_str(
                            "Invalid URI: Couldn't extract key.",
                        ))),
                    }
                }
            },
        }
    }

    /// Resolve an S3 URI string in any accepted form.
    pub fn parse(s: &str) -> (r: Result<Self, SignerError>)
        ensures
            match r {
                Ok(u) => spec_parse_s3(s@) == Ok::<_, Seq<char>>((u.bucket@, u.key@)) && u.region
                    is None,
                Err(e) => e.kind == SignerErrorKind::CloudUriParseError && spec_parse_s3(s@)
                    == Err::<(Seq<char>, Seq<char>), _>(e.message@),
            },
    {
        let parts = match split_uri(s) {
            Ok(p) => p,
            Err(e) => {
                let mut m = String::from_str("Invalid URI. Cause: ");
                m.append(e.cause().as_str());
                m.append(". Received URI: `");
                m.append(s);
                m.append("`.");
                return Err(SignerError::uri_parse_error(m));
            },
        };
        match &parts.scheme {
            None => {
                let mut m = String::from_str(
                    "Invalid URI: missing scheme. The URI should start with `S3`, `S3a`, `S3n`, `http` or `https`. Received URI: `",
                );
                m.append(s);
                m.append("`.");
                Err(SignerError::uri_parse_error(m))
            },
            Some(sch) => {
                let auth = parts.authority.as_ref().unwrap().as_str();
                if str_eq(sch.as_str(), "s3") || str_eq(sch.as_str(), "s3a") || str_eq(
                    sch.as_str(),
                    "s3n",
                ) {
                    Self::from_s3_uri(auth, parts.path.as_str(), s)
                } else if str_eq(sch.as_str(), "http") || str_eq(sch.as_str(), "https") {
                    Self::from_url(auth, parts.path.as_str())
                } else {
                    let mut m = String::from_str(
                        "Unsupported URI scheme. Supported schemas are `S3`, `S3a`, `S3n`, `http` and `https`. Received scheme: `",
                    );
                    m.append(sch.as_str());
                    m.append("`.");
                    Err(SignerError::uri_parse_error(m))
                }
            },
        }
    }
}

impl core::str::FromStr for S3Uri {
    type Err = SignerError;

    fn from_str(s: &str) -> Result<Self, SignerError> {
        S3Uri::parse(s)
    }
}

} // verus!
