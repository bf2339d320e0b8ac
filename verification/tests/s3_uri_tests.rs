use std::str::FromStr;

use cloud_file_signer::s3_uri::S3Uri;
use cloud_file_signer::SignerErrorKind;

#[test]
fn parse_s3_scheme() {
    let uri = "s3://bucket/key";
    let s3_uri = S3Uri::from_str(uri).unwrap();
    assert_eq!(s3_uri.bucket(), "bucket");
    assert_eq!(s3_uri.key(), "key");
}

#[test]
fn parse_s3a_scheme() {
    let uri = "s3a://bucket/key";
    let s3_uri = S3Uri::from_str(uri).unwrap();
    assert_eq!(s3_uri.bucket(), "bucket");
    assert_eq!(s3_uri.key(), "key");
}

#[test]
fn parse_s3n_scheme() {
    let uri = "s3n://bucket/key";
    let s3_uri = S3Uri::from_str(uri).unwrap();
    assert_eq!(s3_uri.bucket(), "bucket");
    assert_eq!(s3_uri.key(), "key");
}

#[test]
fn parse_s3_nested_key() {
    let uri = "s3://bucket/key/nested";
    let s3_uri = S3Uri::from_str(uri).unwrap();
    assert_eq!(s3_uri.bucket(), "bucket");
    assert_eq!(s3_uri.key(), "key/nested");
}

#[test]
fn parse_http_scheme() {
    let uri = "http://bucket.s3.us-east-1.amazonaws.com/key";
    let s3_uri = S3Uri::from_str(uri).unwrap();
    assert_eq!(s3_uri.bucket(), "bucket");
    assert_eq!(s3_uri.key(), "key");
}

#[test]
fn parse_https_scheme() {
    let uri = "https://bucket.s3.us-east-1.amazonaws.com/key";
    let s3_uri = S3Uri::from_str(uri).unwrap();
    assert_eq!(s3_uri.bucket(), "bucket");
    assert_eq!(s3_uri.key(), "key");
}

#[test]
fn parse_virtual_hosted_global() {
    let uri = "https://bucket.s3.amazonaws.com/key/nested";
    let s3_uri = S3Uri::from_str(uri).unwrap();
    assert_eq!(s3_uri.bucket(), "bucket");
    assert_eq!(s3_uri.key(), "key/nested");
}

#[test]
fn parse_virtual_hosted_regional() {
    let uri = "https://bucket.s3.us-east-1.amazonaws.com/key/nested";
    let s3_uri = S3Uri::from_str(uri).unwrap();
    assert_eq!(s3_uri.bucket(), "bucket");
    assert_eq!(s3_uri.key(), "key/nested");
}

#[test]
fn parse_path_style_global() {
    let uri = "https://s3.amazonaws.com/bucket/key";
    let s3_uri = S3Uri::from_str(uri).unwrap();
    assert_eq!(s3_uri.bucket(), "bucket");
    assert_eq!(s3_uri.key(), "key");
}

#[test]
fn parse_path_style_regional() {
    let uri = "https://s3.us-east-1.amazonaws.com/bucket/key";
    let s3_uri = S3Uri::from_str(uri).unwrap();
    assert_eq!(s3_uri.bucket(), "bucket");
    assert_eq!(s3_uri.key(), "key");
}

#[test]
fn parse_invalid_uri() {
    let uri = "";
    let uri_err = S3Uri::from_str(uri).unwrap_err();
    assert_eq!(uri_err.kind(), SignerErrorKind::CloudUriParseError);
    assert_eq!(
        uri_err.message(),
        "Invalid URI. Cause: empty string. Received URI: ``."
    );
}

#[test]
fn parse_uri_without_scheme() {
    let uri = "bucket";
    let uri_err = S3Uri::from_str(uri).unwrap_err();
    assert_eq!(uri_err.kind(), SignerErrorKind::CloudUriParseError);
    assert_eq!(
        uri_err.message(),
        "Invalid URI: missing scheme. The URI should start with `S3`, `S3a`, `S3n`, `http` or `https`. Received URI: `bucket`."
    );
}

#[test]
fn parse_unsupported_scheme() {
    let uri = "abfss://bucket.s3.us-east-1.amazonaws.com/key";
    let uri_err = S3Uri::from_str(uri).unwrap_err();
    assert_eq!(uri_err.kind(), SignerErrorKind::CloudUriParseError);
    assert_eq!(
        uri_err.message(),
        "Unsupported URI scheme. Supported schemas are `S3`, `S3a`, `S3n`, `http` and `https`. Received scheme: `abfss`."
    );
}

#[test]
fn parse_s3_missing_key() {
    let uri = "s3://bucket";
    let uri_err = S3Uri::from_str(uri).unwrap_err();
    assert_eq!(uri_err.kind(), SignerErrorKind::CloudUriParseError);
    assert_eq!(
        uri_err.message(),
        "Invalid URI: Couldn't extract the S3 object key. Format the URI as `s3://<bucket_name>/<key>`. Received: s3://bucket"
    );
}

#[test]
fn parse_http_host_not_an_endpoint() {
    let uri = "https://example.com/key";
    let uri_err = S3Uri::from_str(uri).unwrap_err();
    assert_eq!(uri_err.kind(), SignerErrorKind::CloudUriParseError);
    assert_eq!(
        uri_err.message(),
        "Invalid URI. Hostname does not appear to be a valid S3 endpoint"
    );
}

#[test]
fn parse_path_style_missing_key() {
    let uri = "https://s3.us-east-1.amazonaws.com/bucketonly";
    let uri_err = S3Uri::from_str(uri).unwrap_err();
    assert_eq!(uri_err.kind(), SignerErrorKind::CloudUriParseError);
    assert_eq!(uri_err.message(), "Invalid URI: Couldn't extract key.");
}

#[test]
fn parse_virtual_hosted_dotted_bucket() {
    // The longest host prefix before the endpoint marker wins, so a bucket
    // with dots is recovered whole.
    let uri = "https://my.logs.bucket.s3.eu-west-1.amazonaws.com/archive/jan";
    let s3_uri = S3Uri::from_str(uri).unwrap();
    assert_eq!(s3_uri.bucket(), "my.logs.bucket");
    assert_eq!(s3_uri.key(), "archive/jan");
}

#[test]
fn s3_uri_new_keeps_parts() {
    let s3_uri = S3Uri::new("bucket".to_string(), "key".to_string(), None);
    assert_eq!(s3_uri.bucket(), "bucket");
    assert_eq!(s3_uri.key(), "key");
}
