//! The errors a resolution can surface. Detection-layer failures never
//! appear here: they degrade to empty version strings instead.

use vstd::prelude::*;
use vstd::string::StringExecFns;

verus! {

/// Why a resolution failed. Fatal only to the resolution at hand: the
/// bridge converts any of these into a user-visible notification.
#[derive(Debug, Clone, PartialEq, Eq)]
pub enum ResolveError {
    /// A location string (an override path, or the plugin's directory URI)
    /// could not be made into a well-formed URL.
    Configuration,
    /// The release registry was unreachable or returned nothing usable;
    /// carries the failure's description.
    Registry(String),
    /// The release string did not match the `MAJOR.MINOR.PATCH+BUILD`
    /// shape the asset selector requires.
    AssetFormat,
}

impl ResolveError {
    /// A user-facing description, for the bridge's error notification.
    pub fn describe(&self) -> (r: String)
        ensures
            match self {
                ResolveError::Configuration => r@ == "could not form a URL from the configured location"@,
                ResolveError::Registry(m) => r@ == "release registry lookup failed: "@ + m@,
                ResolveError::AssetFormat => r@ == "release string does not have the expected MAJOR.MINOR.PATCH+BUILD shape"@,
            },
    {
        match self {
            ResolveError::Configuration => String::from_str(
                "could not form a URL from the configured location",
            ),
            ResolveError::Registry(m) => String::from_str("release registry lookup failed: ")
                .concat(m.as_str()),
            ResolveError::AssetFormat => String::from_str(
                "release string does not have the expected MAJOR.MINOR.PATCH+BUILD shape",
            ),
        }
    }
}

} // verus!
