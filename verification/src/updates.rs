//! What the background update check reports.

use vstd::prelude::*;

verus! {

/// A release that is ready to download.
#[derive(Debug, PartialEq, Eq)]
pub struct Release {
    pub download_url: String,
    pub version: String,
}

impl Release {
    /// A copy of the release, field for field.
    pub fn duplicate(&self) -> (copy: Release)
        ensures
            copy == *self,
    {
        Release { download_url: self.download_url.clone(), version: self.version.clone() }
    }
}

/// One report of the update check: a release, and whether the user should
/// be told about it now.
#[derive(Debug, PartialEq, Eq)]
pub struct Notification {
    pub release: Release,
    pub tell_user: bool,
}

} // verus!
