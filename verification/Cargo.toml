[package]
name = "cloud_file_signer"
version = "0.1.0"
edition = "2021"
publish = false

[dependencies]
chrono = { version = "=0.4.45", default-features = false, features = ["std"] }
async-trait = "=0.1.92"
tokio = { version = "=1.53.2", features = ["rt"] }
aws-config = { version = "=1.12.0", default-features = false }
aws-credential-types = "=1.3.0"
aws-sdk-s3 = "=1.152.0"
azure_storage = "=0.21.0"
azure_storage_blobs = "=0.21.0"
google-cloud-storage = "=1.20.0"
google-cloud-auth = { version = "=1.17.0", default-features = false }
