use vstd::prelude::*;
use crate::format_error::FormatError;
use crate::json::Json;

verus! {

/// The `jsonrpc` version marker: always written as the string `"2.0"`.
#[derive(Debug, Clone, Copy, PartialEq, Eq, Structural)]
#[allow(non_camel_case_types)]
pub struct V2_0;

/// Whether a JSON value is the version string `"2.0"`, exactly.
pub open spec fn is_version_json(j: Json) -> bool {
    match j {
        Json::Str(s) => s@ == "2.0"@,
        _ => false,
    }
}

impl V2_0 {
    /// Encode the marker as the string `"2.0"`.
    pub fn to_json(self) -> (r: Json)
        ensures
            is_version_json(r),
    {
        Json::Str("2.0".to_owned())
    }

    /// Decode the marker: succeeds only on the string `"2.0"`.
    pub fn from_json(j: Json) -> (r: Result<V2_0, FormatError>)
        ensures
            r == (if is_version_json(j) {
                Ok::<V2_0, FormatError>(V2_0)
            } else {
                Err(FormatError::UnsupportedVersion)
            }),
    {
        match j {
            Json::Str(s) => {
                let expected = "2.0".to_owned();
                if s == expected {
                    Ok(V2_0)
                } else {
                    Err(FormatError::UnsupportedVersion)
                }
            },
            _ => Err(FormatError::UnsupportedVersion),
        }
    }
}

} // verus!
