//! The validation pipeline of the Amazon S3 signer.
//!
//! The signer resolves the path, then delegates the signature computation to
//! the S3 client: a read permission becomes a presigned GET of the object, a
//! write permission a presigned PUT. S3 supports both permissions, so no
//! capability check can fail. The delegate's failures are re-wrapped into the
//! uniform error taxonomy by the translation functions here.

use vstd::prelude::*;

use crate::error::SignerError;
use crate::error::SignerErrorKind;
use crate::permissions::Permission;
use crate::s3_uri::S3Uri;
use crate::s3_uri::spec_parse_s3;

verus! {

/// A validated S3 signing request, ready for the delegate call.
#[derive(Debug)]
pub struct S3SignRequest {
    pub uri: S3Uri,
    pub valid_from: u64,
    pub expires_in: u64,
    pub permission: Permission,
}

/// Run the pre-delegation pipeline of the S3 signer: resolve the path and
/// admit either permission.
pub fn plan_s3_sign(
    path: &str,
    valid_from: u64,
    expires_in: u64,
    permission: Permission,
) -> (r: Result<S3SignRequest, SignerError>)
    ensures
        match r {
            Ok(p) => spec_parse_s3(path@) == Ok::<_, Seq<char>>((p.uri.bucket@, p.uri.key@))
                && p.uri.region is None && p.valid_from == valid_from && p.expires_in == expires_in
                && p.permission == permission,
            Err(e) => e.kind == SignerErrorKind::CloudUriParseError && spec_parse_s3(path@)
                == Err::<(Seq<char>, Seq<char>), _>(e.message@),
        },
{
    let uri = match S3Uri::parse(path) {
        Ok(u) => u,
        Err(e) => {
            return Err(e);
        },
    };
    Ok(S3SignRequest { uri, valid_from, expires_in, permission })
}

/// Translate a failure to build the delegate's presigning configuration.
/// S3 rejects validity windows longer than one week.
pub fn s3_presigning_config_error(cause: &str) -> (r: SignerError)
    ensures
        r.kind == SignerErrorKind::ExpirationTooLong,
        r.message@ == "AWS S3 presigned URLs cannot be valid for longer than 1 week. Cause: "@
            + cause@,
{
    let mut m = String::from_str(
        "AWS S3 presigned URLs cannot be valid for longer than 1 week. Cause: ",
    );
    m.append(cause);
    SignerError::expiration_too_long(m)
}

/// Translate any other failure of the S3 delegate.
pub fn s3_sdk_error(cause: &str) -> (r: SignerError)
    ensures
        r.kind == SignerErrorKind::Other,
        r.message@ == "Other error. Cause: "@ + cause@,
{
    let mut m = String::from_str("Other error. Cause: ");
    m.append(cause);
    SignerError::other_error(m)
}

} // verus!
