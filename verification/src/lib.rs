//! Time-boxed, permission-scoped access URLs ("presigned URLs") for objects
//! in cloud object stores (S3-compatible, Azure Blob, GCS).
//!
//! The crate covers the provider-independent core: resolving heterogeneous
//! object-store URI syntaxes into a canonical address, the permission and
//! validation pipeline each provider signer runs before delegating to its
//! provider's native signing primitive, and the immutable presigned-URL value
//! with its validity window. The cryptographic signature itself is computed by
//! the provider's own client library, outside this crate.

pub mod error;
pub mod strutil;
pub mod uri_parts;
pub mod gcp_uri;
pub mod azure_uri;
pub mod s3_uri;
pub mod permissions;
pub mod clock;
pub mod presigned_url;
pub mod signer;
pub mod s3_signer;
pub mod azure_signer;
pub mod gcp_signer;
pub mod resolution_laws;

pub use error::SignerError;
pub use error::SignerErrorKind;
pub use permissions::Permission;
pub use presigned_url::PresignedUrl;
pub use signer::CloudFileSigner;
