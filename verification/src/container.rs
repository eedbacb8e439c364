//! The container plugin: its name and what it tells a host about itself.

use vstd::prelude::*;

verus! {

/// Fetches the content of a blob from a storage container.
#[derive(Clone, Copy, Debug, Default, PartialEq, Eq)]
pub struct Container;

impl Container {
    /// The name a host knows the plugin by.
    pub fn symbol() -> (text: &'static str)
        ensures
            text@ == "container"@,
    {
        "container"
    }

    /// What the plugin does, in one sentence.
    pub fn description() -> (text: &'static str)
        ensures
            text@
                == "Fetches content for a blob from a container w/ `container_name` and blob w/ `blob_name`"@,
    {
        "Fetches content for a blob from a container w/ `container_name` and blob w/ `blob_name`"
    }

    /// What a user of the plugin has to know before relying on it.
    pub fn caveats() -> (text: &'static str)
        ensures
            text@
                == "Uses the environment variables STORAGE_ACCOUNT/STORAGE_ACCESS_KEY to authenticate"@,
    {
        "Uses the environment variables STORAGE_ACCOUNT/STORAGE_ACCESS_KEY to authenticate"
    }
}

} // verus!
