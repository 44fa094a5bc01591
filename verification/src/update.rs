//! Updates, which are looked for and made only when a person asks.

use vstd::prelude::*;

use crate::text;

verus! {

/// Sent by the settings window when an update has been made and the program is to start anew. It
/// carries nothing: the receiver finds its own executable.
pub const WM_REQUEST_RESTART: u32 = 0x8004;

pub const REPO_OWNER: &'static str = "yuniruyuni";

pub const REPO_NAME: &'static str = "StreamPainter";

pub const BIN_NAME: &'static str = "stream-painter";

/// The part of a release file's name that stands for this system.
pub const TARGET: &'static str = "windows-x64";

/// A release that is newer than the running program.
#[derive(Clone, Debug)]
pub struct AvailableUpdate {
    pub version: String,
    pub notes: String,
}

impl AvailableUpdate {
    /// An update from a release's version and its notes, if it has any.
    pub fn from_release(version: &str, body: Option<&str>) -> (update: Self)
        ensures
            update.version@ == version@,
            body matches Some(body) ==> update.notes@ == text::trimmed(body@),
            body is None ==> update.notes@ == Seq::<char>::empty(),
    {
        let notes = match body {
            Some(body) => text::trim(body).to_owned(),
            None => String::new(),
        };
        AvailableUpdate { version: version.to_owned(), notes }
    }
}

/// The tag under which a version is released.
pub fn release_tag(version: &str) -> (tag: String)
    ensures
        tag@ == "v"@ + version@,
{
    "v".to_owned().concat(version)
}

/// What is said of a version that could not be put in place.
pub fn apply_failure(version: &str) -> (message: String)
    ensures
        message@ == "バージョン "@ + version@ + " の適用に失敗しました"@,
{
    "バージョン ".to_owned().concat(version).concat(" の適用に失敗しました")
}

} // verus!
