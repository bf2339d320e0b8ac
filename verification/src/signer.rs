//! The uniform signing contract every provider signer honors.

use vstd::prelude::*;

use crate::clock::now_unix_secs;
use crate::error::SignerError;
use crate::permissions::Permission;
use crate::presigned_url::PresignedUrl;

verus! {

/// A trait for signing URLs for files in a cloud object store.
///
/// `sign` resolves the path, validates the request against the provider's
/// capability matrix, delegates the signature computation to the provider's
/// own client, and wraps the returned URL together with the validity window
/// that was requested: a successful result always carries exactly the
/// `valid_from` and `expires_in` it was asked for.
///
/// The two convenience operations are sugar over `sign` with the wall clock
/// read once as the start of the window.
pub trait CloudFileSigner {
    /// Sign a URL for a file in a cloud object store. The URL is valid for
    /// the specified window and grants the specified permission.
    fn sign(
        &self,
        path: &str,
        valid_from: u64,
        expires_in: u64,
        permission: Permission,
    ) -> (r: Result<PresignedUrl, SignerError>)
        ensures
            r matches Ok(u) ==> u.wf() && u.valid_from == valid_from && u.valid_for_duration
                == expires_in,
    ;

    /// Sign a URL valid for the specified duration starting now, granting
    /// read permission. The clock is read once, here.
    fn sign_read_only_starting_now(&self, path: &str, expiration: u64) -> (r: Result<
        PresignedUrl,
        SignerError,
    >)
        ensures
            r matches Ok(u) ==> u.wf() && u.valid_for_duration == expiration,
    {
        let now = now_unix_secs();
        self.sign(path, now, expiration, Permission::Read)
    }

    /// Sign a URL valid for the specified duration starting now, granting
    /// write permission. The clock is read once, here.
    fn sign_write_only_starting_now(&self, path: &str, expiration: u64) -> (r: Result<
        PresignedUrl,
        SignerError,
    >)
        ensures
            r matches Ok(u) ==> u.wf() && u.valid_for_duration == expiration,
    {
        let now = now_unix_secs();
        self.sign(path, now, expiration, Permission::Write)
    }
}

} // verus!
