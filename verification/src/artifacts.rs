//! Universal artifact helpers: the archive file name and the feed URLs
//! used to download and publish packages.

use vstd::prelude::*;
use vstd::string::StringExecFns;

verus! {

/// Subcommands for working with universal artifacts.
#[derive(Clone)]
pub enum ArtifactsSubCommands {
    /// Download universal artifacts
    Download { name: String, version: String, project: Option<String>, output: Option<String> },
    /// Publish universal artifacts
    Publish {
        name: String,
        version: String,
        file: String,
        project: Option<String>,
        description: Option<String>,
    },
}

/// The file name under which a downloaded artifact is saved.
pub fn artifact_filename(name: &str, version: &str) -> (r: String)
    ensures
        r@ == name@ + "-"@ + version@ + ".zip"@,
{
    let mut s = name.to_owned();
    s.append("-");
    s.append(version);
    s.append(".zip");
    s
}

/// The project-scoped feed URL from which an artifact is downloaded.
pub fn artifact_download_url(organization: &str, project: &str, name: &str, version: &str) -> (r:
    String)
    ensures
        r@ == "https://pkgs.dev.azure.com/"@ + organization@ + "/"@ + project@
            + "/_packaging/Universal/upack/download/"@ + name@ + "/"@ + version@,
{
    let mut url: String = "https://pkgs.dev.azure.com/".to_owned();
    url.append(organization);
    url.append("/");
    url.append(project);
    url.append("/_packaging/Universal/upack/download/");
    url.append(name);
    url.append("/");
    url.append(version);
    url
}

/// The organization-scoped feed URL tried when the project-scoped
/// download fails.
pub fn artifact_download_url_org(organization: &str, name: &str, version: &str) -> (r: String)
    ensures
        r@ == "https://pkgs.dev.azure.com/"@ + organization@
            + "/_packaging/Universal/upack/download/"@ + name@ + "/"@ + version@,
{
    let mut url: String = "https://pkgs.dev.azure.com/".to_owned();
    url.append(organization);
    url.append("/_packaging/Universal/upack/download/");
    url.append(name);
    url.append("/");
    url.append(version);
    url
}

/// The project-scoped feed URL to which an artifact is published.
pub fn artifact_publish_url(organization: &str, project: &str) -> (r: String)
    ensures
        r@ == "https://pkgs.dev.azure.com/"@ + organization@ + "/"@ + project@
            + "/_packaging/Universal/upack/upload"@,
{
    let mut url: String = "https://pkgs.dev.azure.com/".to_owned();
    url.append(organization);
    url.append("/");
    url.append(project);
    url.append("/_packaging/Universal/upack/upload");
    url
}

/// The organization-scoped feed URL tried when the project-scoped publish
/// fails.
pub fn artifact_publish_url_org(organization: &str) -> (r: String)
    ensures
        r@ == "https://pkgs.dev.azure.com/"@ + organization@ + "/_packaging/Universal/upack/upload"@,
{
    let mut url: String = "https://pkgs.dev.azure.com/".to_owned();
    url.append(organization);
    url.append("/_packaging/Universal/upack/upload");
    url
}

} // verus!
