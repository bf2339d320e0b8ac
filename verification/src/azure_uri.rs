//! Resolution of Azure Blob Storage object URIs.
//!
//! The accepted form is
//! `abfss://<container>@<storage_account>.dfs.core.windows.net/<blob>` (or the
//! `abfs` scheme): the storage account is the host up to its first `.`, the
//! container is the authority up to its first `@`, and the blob is the path
//! with its leading `/` stripped.

use vstd::prelude::*;

use crate::error::SignerError;
use crate::error::SignerErrorKind;
use crate::strutil::find_char;
use crate::strutil::find_char_from;
use crate::strutil::str_eq;
use crate::uri_parts::UriParts;
use crate::uri_parts::spec_host;
use crate::uri_parts::spec_userinfo;
use crate::uri_parts::spec_split_uri;
use crate::uri_parts::split_uri;
use crate::uri_parts::host_of;
use crate::uri_parts::userinfo_of;

verus! {

/// A canonical Azure Blob Storage object address.
#[derive(Debug, Clone, PartialEq, Eq, Hash)]
pub struct AzureUri {
    pub storage_account: String,
    pub container: String,
    pub blob: String,
}

/// The format reminder appended to every piece-extraction failure.
pub open spec fn azure_format_hint() -> Seq<char> {
    "Format the URI as `abfss://<container>@<storage_account>.dfs.core.windows.net/path/to/blob`"@
}

/// What resolving the authority and path of an `abfss` URI yields:
/// `(storage_account, container, blob)` on success, the error message
/// otherwise.
pub open spec fn spec_parse_azure_pieces(auth: Seq<char>, path: Seq<char>) -> Result<
    (Seq<char>, Seq<char>, Seq<char>),
    Seq<char>,
> {
    let host = spec_host(auth);
    if find_char_from(host, '.', 0) is None {
        Err("Invalid URI: couldn't extract storage account name. "@ + azure_format_hint())
    } else {
        let account = host.subrange(0, find_char_from(host, '.', 0)->Some_0);
        match spec_userinfo(auth) {
            None => Err("Invalid URI: couldn't extract container name. "@ + azure_format_hint()),
            Some(container) => if path.len() == 0 {
                Err("Invalid URI: couldn't extract blob name. "@ + azure_format_hint())
            } else {
                Ok((account, container, path.subrange(1, path.len() as int)))
            },
        }
    }
}

/// What resolving an Azure URI string yields. Every failure is a
/// `CloudUriParseError`.
pub open spec fn spec_parse_azure(s: Seq<char>) -> Result<
    (Seq<char>, Seq<char>, Seq<char>),
    Seq<char>,
> {
    match spec_split_uri(s) {
        Err(_) => Err("Invalid URI. Could not parse URI string into URI"@),
        Ok(u) => match u.scheme {
            None => Err(
                "Invalid URI: missing scheme. The URI should start with `abfs` or `abfss`. Received URI: `"@
                    + s + "`."@,
            ),
            Some(sch) => if sch == "abfss"@ || sch == "abfs"@ {
                spec_parse_azure_pieces(u.authority->Some_0, u.path)
            } else {
                Err(
                    "Unsupported URI scheme. Supported schemas are `abfss` and `abfs`. Received scheme: `"@
                        + sch + "`."@,
                )
            },
        },
    }
}

impl AzureUri {
    /// Assemble an address from its parts.
    pub fn new(storage_account: String, container: String, blob: String) -> (r: Self)
        ensures
            r.storage_account@ == storage_account@,
            r.container@ == container@,
            r.blob@ == blob@,
    {
        Self { storage_account, container, blob }
    }

    /// The storage account holding the blob.
    pub fn storage_account(&self) -> (r: &str)
        ensures
            r@ == self.storage_account@,
    {
        self.storage_account.as_str()
    }

    /// The container holding the blob.
    pub fn container(&self) -> (r: &str)
        ensures
            r@ == self.container@,
    {
        self.container.as_str()
    }

    /// The blob's path within its container.
    pub fn blob(&self) -> (r: &str)
        ensures
            r@ == self.blob@,
    {
        self.blob.as_str()
    }

    /// Resolve the authority and path of a URI already known to carry an
    /// `abfss` or `abfs` scheme.
    pub fn parse_abfss_uri(parts: &UriParts) -> (r: Result<Self, SignerError>)
        requires
            parts.authority is Some,
        ensures
            match r {
                Ok(u) => spec_parse_azure_pieces(parts.authority->Some_0@, parts.path@) == Ok::<
                    _,
                    Seq<char>,
                >((u.storage_account@, u.container@, u.blob@)),
                Err(e) => e.kind == SignerErrorKind::CloudUriParseError
                    && spec_parse_azure_pieces(parts.authority->Some_0@, parts.path@) == Err::<
                    (Seq<char>, Seq<char>, Seq<char>),
                    _,
                >(e.message@),
            },
    {
        let auth: &str = parts.authority.as_ref().unwrap().as_str();
        let host = host_of(auth);
        let dot = match find_char(host.as_str(), '.') {
            Some(d) => d,
            None => {
                let mut m = String::from_str(
                    "Invalid URI: couldn't extract storage account name. ",
                );
                m.append(
                    "Format the URI as `abfss://<container>@<storage_account>.dfs.core.windows.net/path/to/blob`",
                );
                return Err(SignerError::uri_parse_error(m));
            },
        };
        let account = String::from_str(host.as_str().substring_char(0, dot));
        let container = match userinfo_of(auth) {
            Some(c) => c,
            None => {
                let mut m = String::from_str("Invalid URI: couldn't extract container name. ");
                m.append(
                    "Format the URI as `abfss://<container>@<storage_account>.dfs.core.windows.net/path/to/blob`",
                );
                return Err(SignerError::uri_parse_error(m));
            },
        };
        let plen = parts.path.as_str().unicode_len();
        if plen == 0 {
            let mut m = String::from_str("Invalid URI: couldn't extract blob name. ");
            m.append(
                "Format the URI as `abfss://<container>@<storage_account>.dfs.core.windows.net/path/to/blob`",
            );
            return Err(SignerError::uri_parse_error(m));
        }
        let blob = String::from_str(parts.path.as_str().substring_char(1, plen));
        Ok(AzureUri { storage_account: account, container, blob })
    }

    /// Resolve an `abfss://<container>@<storage_account>...` URI string.
    pub fn parse(s: &str) -> (r: Result<Self, SignerError>)
        ensures
            match r {
                Ok(u) => spec_parse_azure(s@) == Ok::<_, Seq<char>>(
                    (u.storage_account@, u.container@, u.blob@),
                ),
                Err(e) => e.kind == SignerErrorKind::CloudUriParseError && spec_parse_azure(s@)
                    == Err::<(Seq<char>, Seq<char>, Seq<char>), _>(e.message@),
            },
    {
        let parts = match split_uri(s) {
            Ok(p) => p,
            Err(_) => {
                return Err(SignerError::uri_parse_error(String::from_str(
                    "Invalid URI. Could not parse URI string into URI",
                )));
            },
        };
        match &parts.scheme {
            None => {
                let mut m = String::from_str(
                    "Invalid URI: missing scheme. The URI should start with `abfs` or `abfss`. Received URI: `",
                );
                m.append(s);
                m.append("`.");
                Err(SignerError::uri_parse_error(m))
            },
            Some(sch) => {
                if str_eq(sch.as_str(), "abfss") || str_eq(sch.as_str(), "abfs") {
                    Self::parse_abfss_uri(&parts)
                } else {
                    let mut m = String::from_str(
                        "Unsupported URI scheme. Supported schemas are `abfss` and `abfs`. Received scheme: `",
                    );
                    m.append(sch.as_str());
                    m.append("`.");
                    Err(SignerError::uri_parse_error(m))
                }
            },
        }
    }
}

impl core::str::FromStr for AzureUri {
    type Err = SignerError;

    fn from_str(s: &str) -> Result<Self, SignerError> {
        AzureUri::parse(s)
    }
}

} // verus!
