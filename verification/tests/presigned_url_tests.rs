use cloud_file_signer::PresignedUrl;

#[test]
fn presigned_url_roundtrip() {
    // Reading back what was passed in: no normalization of the URL string,
    // and the window is exactly the requested one.
    let url = "https://my_bucket.s3.eu-west-1.amazonaws.com/my_key?sig=abc";
    let presigned = PresignedUrl::new(url.to_string(), 1_700_000_000, 3600);
    assert_eq!(presigned.url(), url);
    assert_eq!(presigned.valid_from(), 1_700_000_000);
    assert_eq!(presigned.valid_until(), 1_700_000_000 + 3600);
}

#[test]
fn valid_until_is_clock_independent() {
    let presigned = PresignedUrl::new("u".to_string(), 10, 5);
    assert_eq!(presigned.valid_until(), 15);
}

#[test]
fn validity_window_simulated_time() {
    let presigned = PresignedUrl::new("u".to_string(), 100, 60);
    // Valid from construction throughout the window...
    assert!(presigned.is_valid_at(100));
    assert!(!presigned.is_expired_at(100));
    assert!(presigned.is_valid_at(160));
    // ... and expired at any later instant.
    assert!(presigned.is_expired_at(161));
    assert!(!presigned.is_valid_at(161));
    assert!(presigned.is_expired_at(1_000_000));
}

#[test]
fn validity_against_wall_clock() {
    // A window that ended a second after the epoch is long expired.
    let expired = PresignedUrl::new("u".to_string(), 0, 1);
    assert!(expired.is_expired());
    assert!(!expired.is_valid());

    // A window covering the whole timestamp range is still open.
    let open = PresignedUrl::new("u".to_string(), 0, u64::MAX);
    assert!(open.is_valid());
    assert!(!open.is_expired());
}
