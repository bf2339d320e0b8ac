//! Resolution of Google Cloud Storage object URIs.
//!
//! The accepted form is `gs://<bucket>/<key>`: the host is the bucket and the
//! path, with its leading `/` stripped, is the key.

use vstd::prelude::*;

use crate::error::SignerError;
use crate::error::SignerErrorKind;
use crate::strutil::str_eq;
use crate::uri_parts::spec_host;
use crate::uri_parts::spec_split_uri;
use crate::uri_parts::split_uri;
use crate::uri_parts::host_of;

verus! {

/// A canonical Google Cloud Storage object address.
#[derive(Debug, Clone, PartialEq, Eq, Hash)]
pub struct GcpUri {
    pub bucket: String,
    pub key: String,
}

/// What resolving a GCS URI yields: `(bucket, key)` on success, the error
/// message otherwise. Every failure is a `CloudUriParseError`.
pub open spec fn spec_parse_gcp(s: Seq<char>) -> Result<(Seq<char>, Seq<char>), Seq<char>> {
    match spec_split_uri(s) {
        Err(e) => Err(e.cause_view()),
        Ok(u) => match u.scheme {
            None => Err(
                "Invalid URI: missing scheme. The URI should start with `gs`. Received URI: `"@ + s
                    + "`."@,
            ),
            Some(sch) => if sch == "gs"@ {
                let host = spec_host(u.authority->Some_0);
                if host.len() == 0 {
                    Err("Invalid URI: missing bucket"@)
                } else if u.path.len() == 0 {
                    Err("Invalid URI: bad key"@)
                } else {
                    Ok((host, u.path.subrange(1, u.path.len() as int)))
                }
            } else {
                Err(
                    "Unsupported URI scheme. Supported schemas is `gs`. Received scheme: `"@ + sch
                        + "`."@,
                )
            },
        },
    }
}

impl GcpUri {
    /// Assemble an address from its parts.
    pub fn new(bucket: String, key: String) -> (r: Self)
        ensures
            r.bucket@ == bucket@,
            r.key@ == key@,
    {
        Self { bucket, key }
    }

    /// The bucket holding the object.
    pub fn bucket(&self) -> (r: &str)
        ensures
            r@ == self.bucket@,
    {
        self.bucket.as_str()
    }

    /// The key of the object within its bucket.
    pub fn key(&self) -> (r: &str)
        ensures
            r@ == self.key@,
    {
        self.key.as_str()
    }

    /// Resolve a `gs://<bucket>/<key>` URI string.
    pub fn parse(s: &str) -> (r: Result<Self, SignerError>)
        ensures
            match r {
                Ok(u) => spec_parse_gcp(s@) == Ok::<_, Seq<char>>((u.bucket@, u.key@)),
                Err(e) => e.kind == SignerErrorKind::CloudUriParseError && spec_parse_gcp(s@)
                    == Err::<(Seq<char>, Seq<char>), _>(e.message@),
            },
{
        let parts = match split_uri(s) {
            Ok(p) => p,
            Err(e) => {
                return Err(SignerError::uri_parse_error(e.cause()));
            },
        };
        match parts.scheme {
            None => {
                let mut m = String::from_str(
                    "Invalid URI: missing scheme. The URI should start with `gs`. Received URI: `",
                );
                m.append(s);
                m.append("`.");
                Err(SignerError::uri_parse_error(m))
            },
            Some(sch) => {
                if str_eq(sch.as_str(), "gs") {
                    let auth = parts.authority.unwrap();
                    let host = host_of(auth.as_str());
                    if host.unicode_len() == 0 {
                        Err(SignerError::uri_parse_error(String::from_str(
                            "Invalid URI: missing bucket",
                        )))
                    } else {
                        let plen = parts.path.as_str().unicode_len();
                        if plen == 0 {
                            Err(SignerError::uri_parse_error(String::from_str(
                                "Invalid URI: bad key",
                            )))
                        } else {
                            let key = String::from_str(
                                parts.path.as_str().substring_char(1, plen),
                            );
                            Ok(GcpUri { bucket: host, key })
                        }
                    }
                } else {
                    let mut m = String::from_str(
                        "Unsupported URI scheme. Supported schemas is `gs`. Received scheme: `",
                    );
                    m.append(sch.as_str());
                    m.append("`.");
                    Err(SignerError::uri_parse_error(m))
                }
            },
        }
    }
}

impl core::str::FromStr for GcpUri {
    type Err = SignerError;

    fn from_str(s: &str) -> Result<Self, SignerError> {
        GcpUri::parse(s)
    }
}

} // verus!
