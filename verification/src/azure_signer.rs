//! The validation pipeline of the Azure Blob Storage signer.
//!
//! The signer is configured for one storage account. It resolves the path,
//! refuses an address naming a different account than the signer is
//! authorized against, and selects the shared-access-signature capability
//! (read or write) for the delegate. Azure supports both permissions, so no
//! capability check can fail. The delegate's failures are re-wrapped by the
//! translation function here.

use vstd::prelude::*;

use crate::azure_uri::AzureUri;
use crate::azure_uri::spec_parse_azure;
use crate::error::SignerError;
use crate::error::SignerErrorKind;
use crate::permissions::Permission;
use crate::strutil::str_eq;

verus! {

/// A validated Azure signing request, ready for the delegate call: the
/// resolved address and the shared-access-signature capability to grant.
#[derive(Debug)]
pub struct AzureSignRequest {
    pub uri: AzureUri,
    pub read: bool,
    pub write: bool,
    pub valid_from: u64,
    pub expires_in: u64,
}

/// Run the pre-delegation pipeline of the Azure signer: resolve the path,
/// check that the address names the signer's own storage account, and select
/// the capability to grant.
pub fn plan_azure_sign(
    storage_account: &str,
    path: &str,
    valid_from: u64,
    expires_in: u64,
    permission: Permission,
) -> (r: Result<AzureSignRequest, SignerError>)
    ensures
        match r {
            Ok(p) => spec_parse_azure(path@) == Ok::<_, Seq<char>>(
                (p.uri.storage_account@, p.uri.container@, p.uri.blob@),
            ) && p.uri.storage_account@ == storage_account@ && p.read == (permission
                == Permission::Read) && p.write == (permission == Permission::Write)
                && p.valid_from == valid_from && p.expires_in == expires_in,
            Err(e) => match spec_parse_azure(path@) {
                Err(m) => e.kind == SignerErrorKind::CloudUriParseError && e.message@ == m,
                Ok(acb) => acb.0 != storage_account@ && e.kind == SignerErrorKind::Other
                    && e.message@ == "Storage account name in URI does not match signer"@,
            },
        },
{
    let uri = match AzureUri::parse(path) {
        Ok(u) => u,
        Err(e) => {
            return Err(e);
        },
    };
    if !str_eq(uri.storage_account(), storage_account) {
        return Err(SignerError::other_error(String::from_str(
            "Storage account name in URI does not match signer",
        )));
    }
    let read = matches!(permission, Permission::Read);
    let write = matches!(permission, Permission::Write);
    Ok(AzureSignRequest { uri, read, write, valid_from, expires_in })
}

/// Translate a failure of the Azure delegate.
pub fn azure_storage_error(cause: &str) -> (r: SignerError)
    ensures
        r.kind == SignerErrorKind::Other,
        r.message@ == "Azure Storage Error: "@ + cause@,
{
    let mut m = String::from_str("Azure Storage Error: ");
    m.append(cause);
    SignerError::other_error(m)
}

} // verus!
