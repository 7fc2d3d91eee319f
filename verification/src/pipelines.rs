//! Pipeline subcommands.

use vstd::prelude::*;

verus! {

/// Subcommands for working with pipelines.
#[derive(Clone)]
pub enum PipelinesSubCommands {
    /// List all pipelines in a project
    List { project: Option<String> },
    /// Show builds of a pipeline
    Runs { id: String, project: Option<String> },
    /// Show details of a pipeline build
    Show { id: String, project: Option<String>, build_id: String },
    /// Run a pipeline
    Run { id: String, project: Option<String> },
}

} // verus!
