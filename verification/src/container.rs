//! Containers whose images are audited, and the per-container status
//! records the audit produces.

use vstd::prelude::*;

use crate::application;

verus! {

/// Configuration details for a container.
pub struct Container {
    /// A full path to the container image.
    pub path: String,
    /// The applications to query inside it, by name.
    pub apps: Vec<String>,
    /// Optional tags used for filtering.
    pub tags: Option<Vec<String>>,
}

impl Default for Container {
    /// A placeholder configuration: one application, no tags.
    fn default() -> (c: Self)
        ensures
            c.path@ == "path"@,
            c.apps@.len() == 1,
            c.apps@[0]@ == "bash"@,
            c.tags is None,
    {
        let mut apps: Vec<String> = Vec::new();
        apps.push("bash".to_owned());
        Container { path: "path".to_owned(), apps, tags: None }
    }
}

/// The currency status of a container: one entry per application that
/// was processed successfully, in processing order.
#[derive(Debug, PartialEq, Eq)]
pub struct Status {
    pub name: String,
    pub apps: Vec<application::Status>,
}

impl Status {
    /// A fresh status record with no application entries yet.
    pub fn new(name: String) -> (s: Self)
        ensures
            s.name@ == name@,
            s.apps@.len() == 0,
    {
        Status { name, apps: Vec::new() }
    }
}

} // verus!
