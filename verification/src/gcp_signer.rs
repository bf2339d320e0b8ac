//! The validation pipeline of the Google Cloud Storage signer.
//!
//! The signer resolves the path and admits only the read permission: GCS
//! write signing is outside this signer's capability matrix. A validated
//! request carries the `X-Goog-Date` query parameter for the delegate, the
//! window's start rendered as an RFC 3339 UTC timestamp.

use vstd::prelude::*;

use crate::error::SignerError;
use crate::error::SignerErrorKind;
use crate::gcp_uri::GcpUri;
use crate::gcp_uri::spec_parse_gcp;
use crate::permissions::Permission;

verus! {

/// The RFC 3339 rendering of a timestamp: UTC, whole seconds, `Z` suffix.
/// What `format_rfc3339_utc` returns.
pub uninterp spec fn rfc3339_utc_of(secs: u64) -> Seq<char>;

/// The last timestamp of year 9999, well within chrono's representable range.
pub const RFC3339_MAX_SECS: u64 = 253402300799;

/// Render a timestamp as RFC 3339 text.
///
/// Relies on chrono's `DateTime::<Utc>::from_timestamp` and
/// `to_rfc3339_opts(SecondsFormat::Secs, true)`: the text depends on the
/// timestamp alone (UTC, whole seconds, `Z` suffix), `from_timestamp` returns
/// `None` only on an out-of-range number of seconds, and chrono represents
/// every date up to year 9999 and far beyond.
#[verifier::external_body]
fn format_rfc3339_utc(secs: u64) -> (r: Option<String>)
    ensures
        r matches Some(t) ==> t@ == rfc3339_utc_of(secs),
        secs <= RFC3339_MAX_SECS ==> r is Some,
{
    i64::try_from(secs)
        .ok()
        .and_then(|s| chrono::DateTime::<chrono::Utc>::from_timestamp(s, 0))
        .map(|dt| dt.to_rfc3339_opts(chrono::SecondsFormat::Secs, true))
}

/// A validated GCS signing request, ready for the delegate call: the
/// resolved address and the `X-Goog-Date` query parameter.
#[derive(Debug)]
pub struct GcpSignRequest {
    pub uri: GcpUri,
    pub goog_date_name: String,
    pub goog_date_value: String,
}

/// Run the pre-delegation pipeline of the GCS signer: resolve the path,
/// refuse the write permission, and render the window's start for the
/// `X-Goog-Date` query parameter.
pub fn plan_gcp_sign(path: &str, valid_from: u64, permission: Permission) -> (r: Result<
    GcpSignRequest,
    SignerError,
>)
    ensures
        match r {
            Ok(p) => spec_parse_gcp(path@) == Ok::<_, Seq<char>>((p.uri.bucket@, p.uri.key@))
                && permission == Permission::Read && p.goog_date_name@ == "X-Goog-Date"@
                && p.goog_date_value@ == rfc3339_utc_of(valid_from),
            Err(e) => match spec_parse_gcp(path@) {
                Err(m) => e.kind == SignerErrorKind::CloudUriParseError && e.message@ == m,
                Ok(_) => if permission == Permission::Write {
                    e.kind == SignerErrorKind::PermissionNotSupported && e.message@
                        == "GCP does not support write permissions"@
                } else {
                    valid_from > RFC3339_MAX_SECS && e.kind == SignerErrorKind::Other && e.message@
                        == "timestamp out of range for the X-Goog-Date parameter"@
                },
            },
        },
{
    let uri = match GcpUri::parse(path) {
        Ok(u) => u,
        Err(e) => {
            return Err(e);
        },
    };
    match permission {
        Permission::Write => Err(SignerError::permission_not_supported(String::from_str(
            "GCP does not support write permissions",
        ))),
        Permission::Read => {
            match format_rfc3339_utc(valid_from) {
                Some(goog_date_value) => Ok(GcpSignRequest {
                    uri,
                    goog_date_name: String::from_str("X-Goog-Date"),
                    goog_date_value,
                }),
                None => Err(SignerError::other_error(String::from_str(
                    "timestamp out of range for the X-Goog-Date parameter",
                ))),
            }
        },
    }
}

} // verus!
