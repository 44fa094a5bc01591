//! Where the logs are kept.

use vstd::prelude::*;

verus! {

pub const LOG_FILE_PREFIX: &'static str = "stream-painter";

pub const LOG_FILE_SUFFIX: &'static str = "log";

/// Daily log files that are kept.
pub const MAX_LOG_FILES: usize = 7;

/// A folder below another one, by the names of the folders on the way.
#[derive(Debug)]
pub struct Subfolder<P> {
    pub base: P,
    pub folders: Vec<&'static str>,
}

/// The folder of the logs, below the folder of a user's local application data.
pub fn log_directory_from_local_app_data<P>(local_app_data: P) -> (directory: Subfolder<P>)
    ensures
        directory.base == local_app_data,
        directory.folders@ == seq!["StreamPainter", "logs"],
{
    let mut folders: Vec<&'static str> = Vec::new();
    folders.push("StreamPainter");
    folders.push("logs");
    assert(folders@ =~= seq!["StreamPainter", "logs"]);
    Subfolder { base: local_app_data, folders }
}

} // verus!
