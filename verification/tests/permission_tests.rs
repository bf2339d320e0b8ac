use cloud_file_signer::Permission;
use cloud_file_signer::SignerErrorKind;

#[test]
fn display_permission() {
    let read_only = Permission::Read;
    assert_eq!(&read_only.name(), "ReadOnly");

    let write_only = Permission::Write;
    assert_eq!(&write_only.name(), "WriteOnly");
}

#[test]
fn parse_permission() {
    let parsed_read = ["r", "read", "readonly"]
        .into_iter()
        .map(|s| s.parse::<Permission>().unwrap());
    assert!(parsed_read.into_iter().all(|p| p == Permission::Read));

    let parsed_write = ["w", "write", "writeonly"]
        .into_iter()
        .map(|s| s.parse::<Permission>().unwrap());
    assert!(parsed_write.into_iter().all(|p| p == Permission::Write));

    let failed_parse = "unknown permission".parse::<Permission>().unwrap_err();
    assert_eq!(failed_parse.kind(), SignerErrorKind::PermissionNotSupported);
    assert_eq!(
        failed_parse.message(),
        "`unknown permission` is not recognized as a valid permission for a presigned url."
    )
}
