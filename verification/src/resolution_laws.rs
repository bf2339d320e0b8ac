//! Round-trip laws of the address resolvers: resolving a URI assembled from
//! given pieces yields exactly those pieces back.
//!
//! Each law requires of the pieces only what keeps the assembled string
//! unambiguous: a bucket, container or account must not contain the
//! delimiters that bound it in the URI form at hand, and a host prefix must
//! not itself mimic the `s3` endpoint marker.

use vstd::prelude::*;

use crate::strutil::lemma_find_char_from_is;
use crate::strutil::lemma_find_scheme_sep_from_is;
use crate::strutil::scheme_sep_at;
use crate::uri_parts::UriView;
use crate::uri_parts::spec_host;
use crate::uri_parts::spec_hostport;
use crate::uri_parts::spec_split_uri;
use crate::azure_uri::spec_parse_azure;
use crate::gcp_uri::spec_parse_gcp;
use crate::s3_uri::spec_parse_s3;
use crate::s3_uri::s3_endpoint_char;
use crate::s3_uri::s3_match_at;
use crate::s3_uri::s3_tail_match;
use crate::s3_uri::lemma_run_end_is;
use crate::s3_uri::lemma_s3_host_match;

verus! {

/// Splitting `scheme://authority/tail` recovers the scheme, the authority
/// and the path `/tail`, provided the scheme contains neither `:` nor `/`
/// and the authority contains no `/`.
pub proof fn lemma_split_uri_of(sch: Seq<char>, auth: Seq<char>, tail: Seq<char>)
    requires
        sch.len() > 0,
        forall|i: int| 0 <= i < sch.len() ==> sch[i] != ':' && sch[i] != '/',
        auth.len() > 0,
        forall|i: int| 0 <= i < auth.len() ==> auth[i] != '/',
    ensures
        spec_split_uri(sch + "://"@ + auth + "/"@ + tail) == Ok::<
            UriView,
            crate::uri_parts::UriSplitError,
        >(UriView { scheme: Some(sch), authority: Some(auth), path: "/"@ + tail }),
{
    reveal_strlit("://");
    reveal_strlit("/");
    let s = sch + "://"@ + auth + "/"@ + tail;
    let l = sch.len() as int;
    assert(s[l] == ':' && s[l + 1] == '/' && s[l + 2] == '/');
    assert(scheme_sep_at(s, l));
    assert forall|k: int| 0 <= k < l implies !scheme_sep_at(s, k) by {
        assert(s[k] == sch[k]);
    }
    lemma_find_scheme_sep_from_is(s, 0, Some(l));
    let rest = s.subrange(l + 3, s.len() as int);
    assert(rest =~= auth + "/"@ + tail);
    let b = auth.len() as int;
    assert(rest[b] == '/');
    assert forall|k: int| 0 <= k < b implies rest[k] != '/' by {
        assert(rest[k] == auth[k]);
    }
    lemma_find_char_from_is(rest, '/', 0, Some(b));
    assert(rest.subrange(0, b) =~= auth);
    assert(rest.subrange(b, rest.len() as int) =~= "/"@ + tail);
    assert(s.subrange(0, l) =~= sch);
}

/// An authority containing neither `@` nor `:` is its own host.
pub proof fn lemma_plain_host(auth: Seq<char>)
    requires
        forall|i: int| 0 <= i < auth.len() ==> auth[i] != '@' && auth[i] != ':',
    ensures
        spec_host(auth) == auth,
{
    lemma_find_char_from_is(auth, '@', 0, None);
    lemma_find_char_from_is(auth, ':', 0, None);
}

/// A path `/tail` stripped of its leading slash is `tail`.
proof fn lemma_strip_slash(tail: Seq<char>)
    ensures
        ("/"@ + tail).len() >= 1,
        ("/"@ + tail).subrange(1, ("/"@ + tail).len() as int) == tail,

{
    reveal_strlit("/");
    assert(("/"@ + tail).subrange(1, ("/"@ + tail).len() as int) =~= tail);
}

/// Resolving `s3://bucket/key` (or the `s3a`, `s3n` forms) yields exactly
/// that bucket and key.
pub proof fn lemma_s3_native_roundtrip(sch: Seq<char>, bucket: Seq<char>, key: Seq<char>)
    requires
        sch == "s3"@ || sch == "s3a"@ || sch == "s3n"@,
        bucket.len() > 0,
        forall|i: int| 0 <= i < bucket.len() ==> bucket[i] != '/' && bucket[i] != '@' && bucket[i]
            != ':',
    ensures
        spec_parse_s3(sch + "://"@ + bucket + "/"@ + key) == Ok::<_, Seq<char>>((bucket, key)),
{
    reveal_strlit("s3");
    reveal_strlit("s3a");
    reveal_strlit("s3n");
    lemma_split_uri_of(sch, bucket, key);
    lemma_plain_host(bucket);
    lemma_strip_slash(key);
}

/// Resolving `gs://bucket/key` yields exactly that bucket and key.
pub proof fn lemma_gcp_roundtrip(bucket: Seq<char>, key: Seq<char>)
    requires
        bucket.len() > 0,
        forall|i: int| 0 <= i < bucket.len() ==> bucket[i] != '/' && bucket[i] != '@' && bucket[i]
            != ':',
    ensures
        spec_parse_gcp("gs"@ + "://"@ + bucket + "/"@ + key) == Ok::<_, Seq<char>>((bucket, key)),
{
    reveal_strlit("gs");
    lemma_split_uri_of("gs"@, bucket, key);
    lemma_plain_host(bucket);
    lemma_strip_slash(key);
}

/// Resolving `abfss://container@account.host/blob` (or the `abfs` form)
/// yields exactly that account, container and blob.
pub proof fn lemma_azure_roundtrip(
    sch: Seq<char>,
    container: Seq<char>,
    account: Seq<char>,
    host_rest: Seq<char>,
    blob: Seq<char>,
)
    requires
        sch == "abfss"@ || sch == "abfs"@,
        container.len() > 0,
        forall|i: int| 0 <= i < container.len() ==> container[i] != '/' && container[i] != '@',
        forall|i: int| 0 <= i < account.len() ==> account[i] != '/' && account[i] != '.'
            && account[i] != ':' && account[i] != '@',
        forall|i: int| 0 <= i < host_rest.len() ==> host_rest[i] != '/' && host_rest[i] != ':'
            && host_rest[i] != '@',
    ensures
        spec_parse_azure(sch + "://"@ + (container + "@"@ + account + "."@ + host_rest) + "/"@
            + blob) == Ok::<_, Seq<char>>((account, container, blob)),
{
    reveal_strlit("abfss");
    reveal_strlit("abfs");
    reveal_strlit("@");
    reveal_strlit(".");
    let auth = container + "@"@ + account + "."@ + host_rest;
    assert forall|i: int| 0 <= i < auth.len() implies auth[i] != '/' by {
        if i < container.len() {
            assert(auth[i] == container[i]);
        }
    }
    lemma_split_uri_of(sch, auth, blob);
    lemma_strip_slash(blob);
    // The userinfo is the container: the first `@` is the one after it.
    let c = container.len() as int;
    assert(auth[c] == '@');
    assert forall|k: int| 0 <= k < c implies auth[k] != '@' by {
        assert(auth[k] == container[k]);
    }
    lemma_find_char_from_is(auth, '@', 0, Some(c));
    assert(auth.subrange(0, c) =~= container);
    // The host is everything after that `@`: it contains no `:`.
    let hp = spec_hostport(auth);
    assert(hp =~= account + "."@ + host_rest);
    lemma_find_char_from_is(hp, ':', 0, None);
    let host = spec_host(auth);
    assert(host == hp);
    // The storage account is the host up to its first `.`.
    let a = account.len() as int;
    assert(host[a] == '.');
    assert forall|k: int| 0 <= k < a implies host[k] != '.' by {
        assert(host[k] == account[k]);
    }
    lemma_find_char_from_is(host, '.', 0, Some(a));
    assert(host.subrange(0, a) =~= account);
}

/// A well-formed region piece: non-empty, in the region character class, and
/// not itself opening an `s3` endpoint marker.
pub open spec fn region_ok(region: Seq<char>) -> bool {
    &&& region.len() > 0
    &&& (forall|i: int| 0 <= i < region.len() ==> s3_endpoint_char(region[i]))
    &&& !(region[0] == 's' && region.len() >= 2 && region[1] == '3' && (region.len() == 2
        || region[2] == '-'))
}

/// No `s3` endpoint marker (`s3.` or `s3-` at the start or after a dot)
/// opens anywhere in `rest`.
pub open spec fn no_endpoint_marker(rest: Seq<char>) -> bool {
    forall|j: int| 0 <= j && j + 3 <= rest.len() ==> !((j == 0 || rest[j - 1] == '.')
        && #[trigger] rest[j] == 's' && rest[j + 1] == '3' && (rest[j + 2] == '.' || rest[j + 2]
        == '-'))
}

/// The rest of a host contains none of the characters that would change how
/// the authority is carved up.
pub open spec fn host_piece_plain(p: Seq<char>) -> bool {
    forall|i: int| 0 <= i < p.len() ==> p[i] != '/' && p[i] != '@' && p[i] != ':'
}

/// On a host of the shape `<pre>s3.<region>.<rest>`, where `pre` is empty or
/// ends in a dot, the endpoint pattern matches exactly at the end of `pre`,
/// so the longest-prefix rule recovers `pre` whole.
#[verifier::rlimit(100)]
proof fn lemma_s3_endpoint_host_match(
    pre: Seq<char>,
    region: Seq<char>,
    rest: Seq<char>,
    host: Seq<char>,
)
    requires
        host == pre + "s3."@ + region + "."@ + rest,
        pre.len() == 0 || (pre.len() >= 2 && pre[pre.len() - 1] == '.'),
        region_ok(region),
        no_endpoint_marker(rest),
    ensures
        crate::s3_uri::s3_host_match(host) == Some(pre.len() as int),
{
    reveal_strlit("s3.");
    reveal_strlit(".");
    let p = pre.len() as int;
    let r = region.len() as int;
    // The intended match: `s3` at p, its separating dot, the region run, and
    // the dot that ends the run.
    assert(host[p] == 's' && host[p + 1] == '3' && host[p + 2] == '.');
    assert forall|m: int| p + 3 <= m < p + 3 + r implies s3_endpoint_char(host[m]) by {
        assert(host[m] == region[m - (p + 3)]);
    }
    assert(host[p + 3 + r] == '.');
    assert(!s3_endpoint_char('.')) by {
        assert(!('a' <= '.' && '.' <= 'z'));
    }
    lemma_run_end_is(host, p + 3, p + 3 + r);
    assert(s3_tail_match(host, p));
    assert(s3_match_at(host, p));
    // ... and nothing matches beyond it.
    assert forall|j: int| j > p implies !s3_match_at(host, j) by {
        if s3_match_at(host, j) {
            assert(host[j] == 's' && host[j + 1] == '3' && (host[j + 2] == '.' || host[j + 2]
                == '-'));
            assert(j == 0 || host[j - 1] == '.');
            if j == p + 1 {
                assert(host[j] == '3');
            } else if j == p + 2 {
                assert(host[j] == '.');
            } else if p + 3 < j && j < p + 3 + r {
                assert(host[j - 1] == region[j - 1 - (p + 3)]);
                assert(s3_endpoint_char(host[j - 1]));
                assert(!('a' <= '.' && '.' <= 'z'));
            } else if j == p + 3 {
                assert(host[j] == region[0]);
                if r == 1 {
                    assert(host[j + 1] == '.');
                } else {
                    assert(host[j + 1] == region[1]);
                    if r == 2 {
                        assert(host[j + 2] == '.');
                    } else {
                        assert(host[j + 2] == region[2]);
                        assert(s3_endpoint_char(region[2]));
                        assert(!('a' <= '.' && '.' <= 'z'));
                    }
                }
            } else if j == p + 3 + r {
                assert(host[j] == '.');
            } else {
                assert(j > p + 3 + r);
                let jr = j - (p + 4 + r);
                assert(host[j] == rest[jr] && host[j + 1] == rest[jr + 1] && host[j + 2] == rest[jr
                    + 2]);
                if jr == 0 {
                    assert(host[j - 1] == '.');
                    assert(!((0int == 0 || rest[0int - 1] == '.') && rest[0int] == 's'
                        && rest[1int] == '3' && (rest[2int] == '.' || rest[2int] == '-')));
                } else {
                    assert(host[j - 1] == rest[jr - 1]);
                    assert(!((jr == 0 || rest[jr - 1] == '.') && rest[jr] == 's' && rest[jr + 1]
                        == '3' && (rest[jr + 2] == '.' || rest[jr + 2] == '-')));
                }
            }
        }
    }
    lemma_s3_host_match(host, Some(p));
}

/// Resolving a virtual-hosted-style URL
/// `http(s)://bucket.s3.<region>.<rest>/key` yields exactly that bucket and
/// key. The global-endpoint form `bucket.s3.amazonaws.com` is the instance
/// with region `amazonaws` and rest `com`.
#[verifier::rlimit(100)]
pub proof fn lemma_s3_virtual_hosted_roundtrip(
    sch: Seq<char>,
    bucket: Seq<char>,
    region: Seq<char>,
    rest: Seq<char>,
    key: Seq<char>,
)
    requires
        sch == "http"@ || sch == "https"@,
        bucket.len() > 0,
        host_piece_plain(bucket),
        region_ok(region),
        host_piece_plain(rest),
        no_endpoint_marker(rest),
    ensures
        spec_parse_s3(sch + "://"@ + (bucket + ".s3."@ + region + "."@ + rest) + "/"@ + key)
            == Ok::<_, Seq<char>>((bucket, key)),
{
    reveal_strlit("http");
    reveal_strlit("https");
    reveal_strlit("s3");
    reveal_strlit("s3a");
    reveal_strlit("s3n");
    reveal_strlit(".s3.");
    reveal_strlit(".");
    let auth = bucket + ".s3."@ + region + "."@ + rest;
    let b = bucket.len() as int;
    let r = region.len() as int;
    assert forall|i: int| 0 <= i < auth.len() implies auth[i] != '/' && auth[i] != '@' && auth[i]
        != ':' by {
        if i < b {
            assert(auth[i] == bucket[i]);
        } else if b + 4 <= i < b + 4 + r {
            assert(auth[i] == region[i - (b + 4)]);
            assert(s3_endpoint_char(auth[i]));
            assert(!('a' <= '/' && '/' <= 'z') && !('0' <= '/' && '/' <= '9'));
            assert(!('a' <= '@' && '@' <= 'z') && !('0' <= '@' && '@' <= '9'));
            assert(!('a' <= ':' && ':' <= 'z') && !('0' <= ':' && ':' <= '9'));
        } else if i > b + 4 + r {
            assert(auth[i] == rest[i - (b + 5 + r)]);
        }
    }
    lemma_split_uri_of(sch, auth, key);
    lemma_plain_host(auth);
    lemma_strip_slash(key);
    let pre = bucket + "."@;
    assert(auth =~= pre + "s3."@ + region + "."@ + rest) by {
        reveal_strlit("s3.");
    }
    assert(pre[pre.len() - 1] == '.');
    lemma_s3_endpoint_host_match(pre, region, rest, auth);
    assert(auth.subrange(0, b) =~= bucket);
    assert(sch != "s3"@ && sch != "s3a"@ && sch != "s3n"@);
}

/// Resolving a path-style URL `http(s)://s3.<region>.<rest>/bucket/key`
/// yields exactly that bucket and key. The global-endpoint form
/// `s3.amazonaws.com` is the instance with region `amazonaws` and rest
/// `com`.
#[verifier::rlimit(100)]
pub proof fn lemma_s3_path_style_roundtrip(
    sch: Seq<char>,
    region: Seq<char>,
    rest: Seq<char>,
    bucket: Seq<char>,
    key: Seq<char>,
)
    requires
        sch == "http"@ || sch == "https"@,
        region_ok(region),
        host_piece_plain(rest),
        no_endpoint_marker(rest),
        forall|i: int| 0 <= i < bucket.len() ==> bucket[i] != '/',
    ensures
        spec_parse_s3(sch + "://"@ + ("s3."@ + region + "."@ + rest) + "/"@ + (bucket + "/"@
            + key)) == Ok::<_, Seq<char>>((bucket, key)),
{
    reveal_strlit("http");
    reveal_strlit("https");
    reveal_strlit("s3");
    reveal_strlit("s3a");
    reveal_strlit("s3n");
    reveal_strlit("s3.");
    reveal_strlit(".");
    reveal_strlit("/");
    let auth = "s3."@ + region + "."@ + rest;
    let r = region.len() as int;
    assert forall|i: int| 0 <= i < auth.len() implies auth[i] != '/' && auth[i] != '@' && auth[i]
        != ':' by {
        if 3 <= i < 3 + r {
            assert(auth[i] == region[i - 3]);
            assert(s3_endpoint_char(auth[i]));
            assert(!('a' <= '/' && '/' <= 'z') && !('0' <= '/' && '/' <= '9'));
            assert(!('a' <= '@' && '@' <= 'z') && !('0' <= '@' && '@' <= '9'));
            assert(!('a' <= ':' && ':' <= 'z') && !('0' <= ':' && ':' <= '9'));
        } else if i > 3 + r {
            assert(auth[i] == rest[i - (4 + r)]);
        }
    }
    let tail = bucket + "/"@ + key;
    lemma_split_uri_of(sch, auth, tail);
    lemma_plain_host(auth);
    lemma_strip_slash(tail);
    assert(auth =~= Seq::<char>::empty() + "s3."@ + region + "."@ + rest);
    lemma_s3_endpoint_host_match(Seq::<char>::empty(), region, rest, auth);
    // The first path segment is the bucket.
    let p = tail;
    let bl = bucket.len() as int;
    assert(p[bl] == '/');
    assert forall|k: int| 0 <= k < bl implies p[k] != '/' by {
        assert(p[k] == bucket[k]);
    }
    lemma_find_char_from_is(p, '/', 0, Some(bl));
    assert(p.subrange(0, bl) =~= bucket);
    assert(p.subrange(bl + 1, p.len() as int) =~= key);
    assert(sch != "s3"@ && sch != "s3a"@ && sch != "s3n"@);
}

} // verus!
