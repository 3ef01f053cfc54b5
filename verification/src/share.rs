//! The shared directory through which the two sides meet, and the names of
//! what it holds.

use vstd::prelude::*;

verus! {

/// The directory that both sides can reach.
#[derive(Debug, Clone)]
pub struct ShareLocation {
    dir: String,
}

impl View for ShareLocation {
    type V = Seq<char>;

    /// The path of the directory.
    closed spec fn view(&self) -> Seq<char> {
        self.dir@
    }
}

impl ShareLocation {
    /// The shared directory at the path `dir`.
    pub fn new(dir: &str) -> (location: ShareLocation)
        ensures
            location@ == dir@,
    {
        ShareLocation { dir: dir.to_owned() }
    }

    /// The directory of the sandbox side where none is configured.
    pub fn sandbox_default() -> (location: ShareLocation)
        ensures
            location@ == "/shared"@,
    {
        ShareLocation::new("/shared")
    }

    /// The directory of the host side where none is configured.
    pub fn host_default() -> (location: ShareLocation)
        ensures
            location@ == "/tmp/container-notify"@,
    {
        ShareLocation::new("/tmp/container-notify")
    }

    /// The path of the directory.
    pub fn dir(&self) -> (dir: &str)
        ensures
            dir@ == self@,
    {
        self.dir.as_str()
    }

    /// The path of the notification endpoint.
    pub fn endpoint(&self) -> (path: String)
        ensures
            path@ == self@ + "/notify.sock"@,
    {
        self.dir.clone().concat("/notify.sock")
    }

    /// The path of the status record.
    pub fn status_record(&self) -> (path: String)
        ensures
            path@ == self@ + "/container-status"@,
    {
        self.dir.clone().concat("/container-status")
    }

    /// The path of the liveness record.
    pub fn liveness_record(&self) -> (path: String)
        ensures
            path@ == self@ + "/container-pid"@,
    {
        self.dir.clone().concat("/container-pid")
    }
}

/// The status record before any notification has arrived.
pub fn starting_record() -> (record: String)
    ensures
        record@ == "STARTING"@,
{
    "STARTING".to_owned()
}

} // verus!
