//! Generic resource subcommands shared by simple command groups.

use vstd::prelude::*;

verus! {

/// Subcommands for working with a generic resource.
#[derive(Clone)]
pub enum SubCommands {
    /// Create a new resource
    Create { project: Option<String> },
    /// List all resources
    List { project: Option<String> },
    /// Delete a resource
    Delete { id: String, project: Option<String> },
    /// Show details of a resource
    Show { id: String, project: Option<String> },
    /// Update a resource
    Update { id: String, project: Option<String> },
}

} // verus!
