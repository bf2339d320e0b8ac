use std::str::FromStr;

use cloud_file_signer::azure_uri::AzureUri;
use cloud_file_signer::SignerErrorKind;

#[test]
fn parse_abfss_scheme() {
    let uri = "abfss://mycontainer@mystorageaccount.dfs.core.windows.net/myblob";
    let azure_uri = AzureUri::from_str(uri).unwrap();
    assert_eq!(azure_uri.storage_account(), "mystorageaccount");
    assert_eq!(azure_uri.container(), "mycontainer");
    assert_eq!(azure_uri.blob(), "myblob");
}

#[test]
fn parse_abfs_scheme() {
    let uri = "abfs://mycontainer@mystorageaccount.dfs.core.windows.net/myblob";
    let azure_uri = AzureUri::from_str(uri).unwrap();
    assert_eq!(azure_uri.storage_account(), "mystorageaccount");
    assert_eq!(azure_uri.container(), "mycontainer");
    assert_eq!(azure_uri.blob(), "myblob");
}

#[test]
fn uri_parse_unsupported_scheme() {
    let uri = "invalid://mystorageaccount.dfs.core.windows.net/mycontainer/myblob";
    let uri_err = AzureUri::from_str(uri).unwrap_err();
    assert_eq!(uri_err.kind(), SignerErrorKind::CloudUriParseError);
    assert_eq!(
        uri_err.message(),
        "Unsupported URI scheme. Supported schemas are `abfss` and `abfs`. Received scheme: `invalid`."
    )
}

#[test]
fn parse_abfss_nested_blob() {
    let uri = "abfss://mycontainer@mystorageaccount.dfs.core.windows.net/path/to/blob";
    let azure_uri = AzureUri::from_str(uri).unwrap();
    assert_eq!(azure_uri.storage_account(), "mystorageaccount");
    assert_eq!(azure_uri.container(), "mycontainer");
    assert_eq!(azure_uri.blob(), "path/to/blob");
}

#[test]
fn parse_abfss_missing_container() {
    let uri = "abfss://mystorageaccount.dfs.core.windows.net/myblob";
    let uri_err = AzureUri::from_str(uri).unwrap_err();
    assert_eq!(uri_err.kind(), SignerErrorKind::CloudUriParseError);
    assert_eq!(
        uri_err.message(),
        "Invalid URI: couldn't extract container name. Format the URI as `abfss://<container>@<storage_account>.dfs.core.windows.net/path/to/blob`"
    );
}

#[test]
fn parse_abfss_missing_account_dot() {
    let uri = "abfss://mycontainer@host/myblob";
    let uri_err = AzureUri::from_str(uri).unwrap_err();
    assert_eq!(uri_err.kind(), SignerErrorKind::CloudUriParseError);
    assert_eq!(
        uri_err.message(),
        "Invalid URI: couldn't extract storage account name. Format the URI as `abfss://<container>@<storage_account>.dfs.core.windows.net/path/to/blob`"
    );
}

#[test]
fn parse_abfss_missing_blob() {
    let uri = "abfss://mycontainer@mystorageaccount.dfs.core.windows.net";
    let uri_err = AzureUri::from_str(uri).unwrap_err();
    assert_eq!(uri_err.kind(), SignerErrorKind::CloudUriParseError);
    assert_eq!(
        uri_err.message(),
        "Invalid URI: couldn't extract blob name. Format the URI as `abfss://<container>@<storage_account>.dfs.core.windows.net/path/to/blob`"
    );
}

#[test]
fn parse_azure_empty_string() {
    let uri_err = AzureUri::from_str("").unwrap_err();
    assert_eq!(uri_err.kind(), SignerErrorKind::CloudUriParseError);
    assert_eq!(
        uri_err.message(),
        "Invalid URI. Could not parse URI string into URI"
    );
}

#[test]
fn azure_uri_new_keeps_parts() {
    let azure_uri = AzureUri::new(
        "account".to_string(),
        "container".to_string(),
        "blob".to_string(),
    );
    assert_eq!(azure_uri.storage_account(), "account");
    assert_eq!(azure_uri.container(), "container");
    assert_eq!(azure_uri.blob(), "blob");
}
