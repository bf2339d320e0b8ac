//! A presigned URL for a file in a (cloud) object store.

use vstd::prelude::*;

use crate::clock::now_unix_secs;

verus! {

/// A presigned URL for a file in a (cloud) object store.
///
/// A presigned URL grants temporary access to a file in a cloud object store:
/// it is signed by the cloud provider and can be used to access the file
/// without further authentication, until its validity window ends.
///
/// Timestamps and durations are whole seconds; `valid_from` counts seconds
/// since the Unix epoch. The validity window recorded here is the window that
/// was requested of the provider, not one re-derived from the signed URL's
/// own query parameters. A `PresignedUrl` is immutable; its validity queries
/// are a cheap local signal, not an authoritative revocation check.
#[derive(Debug, Clone, PartialEq, Eq, Hash)]
pub struct PresignedUrl {
    pub url: String,
    pub valid_from: u64,
    pub valid_for_duration: u64,
}

impl PresignedUrl {
    /// The invariant every constructed value carries: a positive validity
    /// duration whose end does not overflow the timestamp range.
    pub open spec fn wf(self) -> bool {
        self.valid_for_duration > 0 && self.valid_from + self.valid_for_duration <= u64::MAX
    }

    /// The instant the validity window ends.
    pub open spec fn spec_valid_until(self) -> int {
        self.valid_from + self.valid_for_duration
    }

    /// Whether the validity window has ended at instant `now`.
    pub open spec fn spec_is_expired_at(self, now: u64) -> bool {
        now > self.spec_valid_until()
    }

    /// Create a new `PresignedUrl` from the signed URL string and the
    /// validity window that was requested of the provider.
    pub fn new(url: String, valid_from: u64, valid_for_duration: u64) -> (r: Self)
        requires
            valid_for_duration > 0,
            valid_from + valid_for_duration <= u64::MAX,
        ensures
            r.url@ == url@,
            r.valid_from == valid_from,
            r.valid_for_duration == valid_for_duration,
            r.wf(),
    {
        Self { url, valid_from, valid_for_duration }
    }

    /// Return the presigned URL as a string.
    pub fn url(&self) -> (r: &str)
        ensures
            r@ == self.url@,
    {
        self.url.as_str()
    }

    /// Return the time at which the URL became valid.
    pub fn valid_from(&self) -> (r: u64)
        ensures
            r == self.valid_from,
    {
        self.valid_from
    }

    /// Return the time at which the URL expires: always exactly `valid_from`
    /// plus the validity duration, independent of the wall clock.
    pub fn valid_until(&self) -> (r: u64)
        requires
            self.wf(),
        ensures
            r == self.spec_valid_until(),
    {
        self.valid_from + self.valid_for_duration
    }

    /// Return whether the URL is expired at instant `now`.
    pub fn is_expired_at(&self, now: u64) -> (r: bool)
        requires
            self.wf(),
        ensures
            r == self.spec_is_expired_at(now),
    {
        now > self.valid_until()
    }

    /// Return whether the URL is still valid at instant `now`.
    pub fn is_valid_at(&self, now: u64) -> (r: bool)
        requires
            self.wf(),
        ensures
            r == !self.spec_is_expired_at(now),
    {
        !self.is_expired_at(now)
    }

    /// Return whether the URL is expired, against the wall clock read at the
    /// moment of the call. What this returns depends on that reading; see
    /// `is_expired_at` for the clock-independent statement.
    pub fn is_expired(&self) -> bool
        requires
            self.wf(),
    {
        let now = now_unix_secs();
        self.is_expired_at(now)
    }

    /// Return whether the URL is still valid, against the wall clock read at
    /// the moment of the call. What this returns depends on that reading; see
    /// `is_valid_at` for the clock-independent statement.
    pub fn is_valid(&self) -> bool
        requires
            self.wf(),
    {
        !self.is_expired()
    }
}

/// A presigned URL is valid throughout its requested window and expired
/// after it: valid at `valid_from` itself, valid at the window's end, and
/// expired at every later instant.
pub proof fn lemma_validity_window(u: PresignedUrl)
    requires
        u.wf(),
    ensures
        u.spec_valid_until() == u.valid_from + u.valid_for_duration,
        !u.spec_is_expired_at(u.valid_from),
        forall|now: u64| u.valid_from <= now <= u.spec_valid_until() ==> !u.spec_is_expired_at(now),
        forall|now: u64| now > u.spec_valid_until() ==> u.spec_is_expired_at(now),
{
}

} // verus!
