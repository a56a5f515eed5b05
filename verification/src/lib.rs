//! Presence leases: clients announce where they are, a registry keeps each
//! announcement for a fixed lifetime, and anybody may ask for an account's
//! last known presence.

use vstd::prelude::*;
use vstd::string::*;

pub mod client;
pub mod server;
pub mod storage;
pub mod restful;
pub mod reaper;
pub mod agent;

verus! {

/// Name and version of the registry application.
#[derive(Debug)]
pub struct AppInfo {
    pub name: String,
    pub version: String,
}

impl AppInfo {
    pub fn new(name: &str, version: &str) -> (info: Self)
        ensures
            info.name@ == name@,
            info.version@ == version@,
    {
        Self { name: name.to_owned(), version: version.to_owned() }
    }

    /// The name, then `", version "`, the version and a full stop.
    pub fn to_string(&self) -> (text: String)
        ensures
            text@ == self.name@ + ", version "@ + self.version@ + "."@,
    {
        let mut text = self.name.clone();
        text.append(", version ");
        text.append(self.version.as_str());
        text.append(".");
        text
    }
}

} // verus!
