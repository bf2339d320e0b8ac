use cloud_file_signer::azure_signer::azure_storage_error;
use cloud_file_signer::azure_signer::plan_azure_sign;
use cloud_file_signer::error::SignerError;
use cloud_file_signer::gcp_signer::plan_gcp_sign;
use cloud_file_signer::s3_signer::plan_s3_sign;
use cloud_file_signer::s3_signer::s3_presigning_config_error;
use cloud_file_signer::s3_signer::s3_sdk_error;
use cloud_file_signer::CloudFileSigner;
use cloud_file_signer::Permission;
use cloud_file_signer::PresignedUrl;
use cloud_file_signer::SignerErrorKind;

#[test]
fn plan_s3_sign_carries_request_through() {
    let plan = plan_s3_sign("s3://bucket/key", 100, 3600, Permission::Write).unwrap();
    assert_eq!(plan.uri.bucket(), "bucket");
    assert_eq!(plan.uri.key(), "key");
    assert_eq!(plan.valid_from, 100);
    assert_eq!(plan.expires_in, 3600);
    assert_eq!(plan.permission, Permission::Write);
}

#[test]
fn plan_s3_sign_rejects_bad_path() {
    let err = plan_s3_sign("gs://bucket/key", 100, 3600, Permission::Read).unwrap_err();
    assert_eq!(err.kind(), SignerErrorKind::CloudUriParseError);
}

#[test]
fn plan_azure_sign_selects_capability() {
    let plan = plan_azure_sign(
        "myaccount",
        "abfss://c@myaccount.dfs.core.windows.net/b",
        50,
        60,
        Permission::Read,
    )
    .unwrap();
    assert_eq!(plan.uri.storage_account(), "myaccount");
    assert_eq!(plan.uri.container(), "c");
    assert_eq!(plan.uri.blob(), "b");
    assert!(plan.read);
    assert!(!plan.write);
    assert_eq!(plan.valid_from, 50);
    assert_eq!(plan.expires_in, 60);

    let plan = plan_azure_sign(
        "myaccount",
        "abfss://c@myaccount.dfs.core.windows.net/b",
        50,
        60,
        Permission::Write,
    )
    .unwrap();
    assert!(!plan.read);
    assert!(plan.write);
}

#[test]
fn plan_azure_sign_rejects_foreign_account() {
    let err = plan_azure_sign(
        "myaccount",
        "abfss://c@otheraccount.dfs.core.windows.net/b",
        50,
        60,
        Permission::Read,
    )
    .unwrap_err();
    assert_eq!(err.kind(), SignerErrorKind::Other);
    assert_eq!(
        err.message(),
        "Storage account name in URI does not match signer"
    );
}

#[test]
fn plan_gcp_sign_renders_goog_date() {
    // 2015-05-15T00:00:00Z, the timestamp of chrono's own documentation
    // examples: a wrapper that handed its argument back unchanged would
    // fail here.
    let plan = plan_gcp_sign("gs://bucket/key", 1_431_648_000, Permission::Read).unwrap();
    assert_eq!(plan.uri.bucket(), "bucket");
    assert_eq!(plan.uri.key(), "key");
    assert_eq!(&plan.goog_date_name, "X-Goog-Date");
    assert_eq!(&plan.goog_date_value, "2015-05-15T00:00:00Z");
}

#[test]
fn plan_gcp_sign_rejects_write() {
    let err = plan_gcp_sign("gs://bucket/key", 100, Permission::Write).unwrap_err();
    assert_eq!(err.kind(), SignerErrorKind::PermissionNotSupported);
    assert_eq!(err.message(), "GCP does not support write permissions");
}

#[test]
fn error_translations_keep_cause() {
    let e = s3_presigning_config_error("window too wide");
    assert_eq!(e.kind(), SignerErrorKind::ExpirationTooLong);
    assert_eq!(
        e.message(),
        "AWS S3 presigned URLs cannot be valid for longer than 1 week. Cause: window too wide"
    );

    let e = s3_sdk_error("connection reset");
    assert_eq!(e.kind(), SignerErrorKind::Other);
    assert_eq!(e.message(), "Other error. Cause: connection reset");

    let e = azure_storage_error("no delegation key");
    assert_eq!(e.kind(), SignerErrorKind::Other);
    assert_eq!(e.message(), "Azure Storage Error: no delegation key");
}

#[test]
fn signer_error_constructors() {
    let e = SignerError::uri_parse_error("m1".to_string());
    assert_eq!(e.kind(), SignerErrorKind::CloudUriParseError);
    assert_eq!(e.message(), "m1");
    let e = SignerError::expiration_too_long("m2".to_string());
    assert_eq!(e.kind(), SignerErrorKind::ExpirationTooLong);
    assert_eq!(e.message(), "m2");
    let e = SignerError::permission_not_supported("m3".to_string());
    assert_eq!(e.kind(), SignerErrorKind::PermissionNotSupported);
    assert_eq!(e.message(), "m3");
    let e = SignerError::other_error("m4".to_string());
    assert_eq!(e.kind(), SignerErrorKind::Other);
    assert_eq!(e.message(), "m4");
}

/// A test double of the S3 collaborator: "signs" by tagging the object's
/// address and window into a URL string, as a provider client would, and
/// "serves" a fetch only within the window.
struct DoubleS3Store {
    object_bucket: String,
    object_key: String,
    object_bytes: &'static [u8],
}

impl DoubleS3Store {
    /// What the provider does at request time: authorize, then serve.
    fn fetch(&self, url: &str, now: u64) -> Result<&'static [u8], &'static str> {
        let (address, window) = url.split_once('?').ok_or("unsigned request")?;
        let expected = format!("https://{}.s3.test/{}", self.object_bucket, self.object_key);
        if address != expected {
            return Err("no such object");
        }
        let until: u64 = window
            .strip_prefix("until=")
            .and_then(|w| w.parse().ok())
            .ok_or("bad signature")?;
        if now > until {
            return Err("request has expired");
        }
        Ok(self.object_bytes)
    }
}

impl CloudFileSigner for DoubleS3Store {
    fn sign(
        &self,
        path: &str,
        valid_from: u64,
        expires_in: u64,
        permission: Permission,
    ) -> Result<PresignedUrl, SignerError> {
        let plan = plan_s3_sign(path, valid_from, expires_in, permission)?;
        if expires_in == 0 || valid_from > u64::MAX - expires_in {
            return Err(s3_presigning_config_error("window is empty or unbounded"));
        }
        let url = format!(
            "https://{}.s3.test/{}?until={}",
            plan.uri.bucket(),
            plan.uri.key(),
            valid_from + expires_in
        );
        Ok(PresignedUrl::new(url, valid_from, expires_in))
    }
}

#[test]
fn sign_and_fetch_within_window() {
    // Put an object at a known key, sign a read URL valid for an hour, and
    // fetch with nothing but the signed URL.
    let store = DoubleS3Store {
        object_bucket: "bucket".to_string(),
        object_key: "my-read-only-key".to_string(),
        object_bytes: b"hello world",
    };
    let now = 1_700_000_000;
    let url = store
        .sign("s3://bucket/my-read-only-key", now, 3600, Permission::Read)
        .unwrap();
    assert_eq!(url.valid_from(), now);
    assert_eq!(url.valid_until(), now + 3600);
    assert_eq!(store.fetch(url.url(), now + 5).unwrap(), b"hello world");
}

#[test]
fn fetch_after_window_is_refused_by_provider() {
    // Sign a URL valid for one second, wait five, and watch the provider
    // (not this layer) refuse the fetch.
    let store = DoubleS3Store {
        object_bucket: "bucket".to_string(),
        object_key: "my-expired-key".to_string(),
        object_bytes: b"hello world",
    };
    let now = 1_700_000_000;
    let url = store
        .sign("s3://bucket/my-expired-key", now, 1, Permission::Read)
        .unwrap();
    assert_eq!(store.fetch(url.url(), now + 5).unwrap_err(), "request has expired");
    assert!(url.is_expired_at(now + 5));
}

#[test]
fn convenience_operations_delegate_to_sign() {
    let store = DoubleS3Store {
        object_bucket: "bucket".to_string(),
        object_key: "key".to_string(),
        object_bytes: b"hello world",
    };
    let url = store
        .sign_read_only_starting_now("s3://bucket/key", 3600)
        .unwrap();
    assert_eq!(url.valid_until(), url.valid_from() + 3600);
    let err = store
        .sign_write_only_starting_now("gs://bucket/key", 3600)
        .unwrap_err();
    assert_eq!(err.kind(), SignerErrorKind::CloudUriParseError);
}
