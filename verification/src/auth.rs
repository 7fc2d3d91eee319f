//! Credentials: the organization and personal access token read from the
//! two configuration documents that the login flow persists.

use crate::json::{json_str_field_of, json_string_field};
use vstd::prelude::*;
use vstd::string::StringExecFns;

verus! {

/// The stored credentials: an organization name and a personal access
/// token.
#[derive(Clone, Debug, PartialEq, Eq)]
pub struct Credentials {
    pub organization: String,
    pub pat: String,
}

/// Why credentials could not be read.
#[derive(Clone, Copy, Debug, PartialEq, Eq, Structural)]
pub enum AuthError {
    /// The organization configuration document is absent.
    MissingConfig,
    /// The organization configuration document has no organization entry.
    InvalidConfig,
    /// The credentials document is absent.
    MissingCredentials,
    /// The credentials document has no token entry.
    InvalidCredentials,
}

impl AuthError {
    /// The message shown for this error.
    pub fn message(&self) -> (r: String)
        ensures
            *self is MissingConfig ==> r@ == "Not logged in. Please login first with 'azdocli login'"@,
            *self is InvalidConfig ==> r@ == "Invalid config file format"@,
            *self is MissingCredentials ==> r@ == "Not logged in. Please login first with 'ado login'"@,
            *self is InvalidCredentials ==> r@ == "Invalid credentials file format"@,
    {
        match self {
            AuthError::MissingConfig => "Not logged in. Please login first with 'azdocli login'".to_owned(),
            AuthError::InvalidConfig => "Invalid config file format".to_owned(),
            AuthError::MissingCredentials => "Not logged in. Please login first with 'ado login'".to_owned(),
            AuthError::InvalidCredentials => "Invalid credentials file format".to_owned(),
        }
    }
}

/// The organization read from the organization configuration document,
/// handed in as the document's text (`None` when the document is absent).
pub fn get_organization(config_content: Option<&String>) -> (r: Result<String, AuthError>)
    ensures
        config_content is None ==> r == Err::<String, AuthError>(AuthError::MissingConfig),
        config_content matches Some(c) ==> match json_str_field_of(c@, "organization"@) {
            Some(s) => r matches Ok(org) && org@ == s,
            None => r == Err::<String, AuthError>(AuthError::InvalidConfig),
        },
{
    match config_content {
        None => Err(AuthError::MissingConfig),
        Some(content) => match json_string_field(content.as_str(), "organization") {
            Some(org) => Ok(org),
            None => Err(AuthError::InvalidConfig),
        },
    }
}

/// The personal access token read from the credentials document, handed
/// in as the document's text (`None` when the document is absent).
pub fn get_pat(credentials_content: Option<&String>) -> (r: Result<String, AuthError>)
    ensures
        credentials_content is None ==> r == Err::<String, AuthError>(AuthError::MissingCredentials),
        credentials_content matches Some(c) ==> match json_str_field_of(c@, "pat"@) {
            Some(s) => r matches Ok(pat) && pat@ == s,
            None => r == Err::<String, AuthError>(AuthError::InvalidCredentials),
        },
{
    match credentials_content {
        None => Err(AuthError::MissingCredentials),
        Some(content) => match json_string_field(content.as_str(), "pat") {
            Some(pat) => Ok(pat),
            None => Err(AuthError::InvalidCredentials),
        },
    }
}

/// The stored credentials, read from the two configuration documents: the
/// organization from the first, the token from the second. The
/// organization document is consulted first, so its errors take
/// precedence.
pub fn get_credentials(config_content: Option<&String>, credentials_content: Option<&String>) -> (r:
    Result<Credentials, AuthError>)
    ensures
        match config_content {
            None => r == Err::<Credentials, AuthError>(AuthError::MissingConfig),
            Some(c) => match json_str_field_of(c@, "organization"@) {
                None => r == Err::<Credentials, AuthError>(AuthError::InvalidConfig),
                Some(org) => match credentials_content {
                    None => r == Err::<Credentials, AuthError>(AuthError::MissingCredentials),
                    Some(cc) => match json_str_field_of(cc@, "pat"@) {
                        None => r == Err::<Credentials, AuthError>(AuthError::InvalidCredentials),
                        Some(pat) => r matches Ok(creds) && creds.organization@ == org
                            && creds.pat@ == pat,
                    },
                },
            },
        },
{
    let organization = match get_organization(config_content) {
        Ok(org) => org,
        Err(e) => {
            return Err(e);
        },
    };
    let pat = match get_pat(credentials_content) {
        Ok(pat) => pat,
        Err(e) => {
            return Err(e);
        },
    };
    Ok(Credentials { organization, pat })
}

/// The path of the credentials document inside the configuration
/// directory.
pub fn get_credentials_file_path(config_dir: &str) -> (r: String)
    ensures
        r@ == config_dir@ + "/credentials.json"@,
{
    let mut s = config_dir.to_owned();
    s.append("/credentials.json");
    s
}

} // verus!
