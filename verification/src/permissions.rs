//! Permissions that can be granted to a presigned URL.

use vstd::prelude::*;

use crate::error::SignerError;
use crate::error::SignerErrorKind;
use crate::strutil::str_eq;

verus! {

/// Permissions that can be granted to a presigned URL.
///
/// When a URL is signed, the signature also covers the action the bearer of
/// the URL may perform on the object.
#[derive(Debug, Clone, Copy, PartialEq, Eq, Hash, Structural)]
pub enum Permission {
    /// The URL can be used to read the file.
    Read,
    /// The URL can be used to write to the file.
    Write,
}

/// The textual forms accepted for the read permission.
pub open spec fn is_read_word(s: Seq<char>) -> bool {
    s == "r"@ || s == "read"@ || s == "readonly"@
}

/// The textual forms accepted for the write permission.
pub open spec fn is_write_word(s: Seq<char>) -> bool {
    s == "w"@ || s == "write"@ || s == "writeonly"@
}

impl Permission {
    /// The display name of this permission.
    pub open spec fn name_view(self) -> Seq<char> {
        match self {
            Permission::Read => "ReadOnly"@,
            Permission::Write => "WriteOnly"@,
        }
    }

    /// Render the display name of this permission.
    pub fn name(&self) -> (r: String)
        ensures
            r@ == self.name_view(),
    {
        match self {
            Permission::Read => String::from_str("ReadOnly"),
            Permission::Write => String::from_str("WriteOnly"),
        }
    }

    /// Parse the textual form of a permission: `r`, `read` and `readonly`
    /// name the read permission; `w`, `write` and `writeonly` the write
    /// permission. Anything else is `PermissionNotSupported`.
    pub fn parse(s: &str) -> (r: Result<Permission, SignerError>)
        ensures
            match r {
                Ok(p) => (p == Permission::Read && is_read_word(s@)) || (p == Permission::Write
                    && is_write_word(s@)),
                Err(e) => !is_read_word(s@) && !is_write_word(s@) && e.kind
                    == SignerErrorKind::PermissionNotSupported && e.message@ == "`"@ + s@
                    + "` is not recognized as a valid permission for a presigned url."@,
            },
    {
        if str_eq(s, "r") || str_eq(s, "read") || str_eq(s, "readonly") {
            Ok(Permission::Read)
        } else if str_eq(s, "w") || str_eq(s, "write") || str_eq(s, "writeonly") {
            Ok(Permission::Write)
        } else {
            let mut m = String::from_str("`");
            m.append(s);
            m.append("` is not recognized as a valid permission for a presigned url.");
            Err(SignerError::permission_not_supported(m))
        }
    }
}

impl core::str::FromStr for Permission {
    type Err = SignerError;

    fn from_str(s: &str) -> Result<Self, SignerError> {
        Permission::parse(s)
    }
}

} // verus!
