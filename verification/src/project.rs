//! The default project: reading it from the configuration document and
//! resolving a command's project argument against it.

use crate::json::{json_str_field_of, json_string_field};
use vstd::prelude::*;
use vstd::string::StringExecFns;

verus! {

/// Why a project name could not be resolved.
#[derive(Clone, Copy, Debug, PartialEq, Eq, Structural)]
pub enum ProjectError {
    /// No project argument was given and the configuration holds no
    /// usable default project entry.
    NoDefaultProject,
}

impl ProjectError {
    /// The message shown for this error.
    pub fn message(&self) -> (r: String)
        ensures
            r@ == "No default project configured. Please set one using 'ado project <project_name>' or use the --project argument"@,
    {
        "No default project configured. Please set one using 'ado project <project_name>' or use the --project argument".to_owned()
    }
}

/// The default project read from the configuration document, handed in as
/// the document's text (`None` when the document is absent). A document
/// without a usable default project entry counts as not configured.
pub fn get_default_project(config_content: Option<&String>) -> (r: Result<String, ProjectError>)
    ensures
        config_content is None ==> r == Err::<String, ProjectError>(ProjectError::NoDefaultProject),
        config_content matches Some(c) ==> match json_str_field_of(c@, "default_project"@) {
            Some(s) => r matches Ok(p) && p@ == s,
            None => r == Err::<String, ProjectError>(ProjectError::NoDefaultProject),
        },
{
    match config_content {
        None => Err(ProjectError::NoDefaultProject),
        Some(content) => match json_string_field(content.as_str(), "default_project") {
            Some(project) => Ok(project),
            None => Err(ProjectError::NoDefaultProject),
        },
    }
}

/// The project a command works on: the explicit argument when one was
/// given, else the configured default project.
pub fn get_project_or_default(project_arg: Option<&str>, config_content: Option<&String>) -> (r:
    Result<String, ProjectError>)
    ensures
        project_arg matches Some(p) ==> (r matches Ok(s) && s@ == p@),
        project_arg is None ==> match config_content {
            None => r == Err::<String, ProjectError>(ProjectError::NoDefaultProject),
            Some(c) => match json_str_field_of(c@, "default_project"@) {
                Some(s) => r matches Ok(p) && p@ == s,
                None => r == Err::<String, ProjectError>(ProjectError::NoDefaultProject),
            },
        },
{
    match project_arg {
        Some(project) => Ok(project.to_owned()),
        None => get_default_project(config_content),
    }
}

} // verus!
