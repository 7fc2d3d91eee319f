use azdocli::auth::{get_credentials, get_credentials_file_path, get_organization, get_pat, AuthError};
use azdocli::project::{get_default_project, get_project_or_default, ProjectError};
use azdocli::repos::{get_repo, repo_names, RepoDescriptor, RepoLookupError};

fn repo(name: &str, ssh_url: Option<&str>) -> RepoDescriptor {
    RepoDescriptor {
        name: name.to_string(),
        ssh_url: ssh_url.map(|u| u.to_string()),
    }
}

#[test]
fn credentials_read_from_documents() {
    let config = "{\n  \"organization\": \"contoso\"\n}".to_string();
    let creds_doc = "{\n  \"organization\": \"contoso\",\n  \"pat\": \"SECRET-REDACTED\"\n}".to_string();
    let creds = get_credentials(Some(&config), Some(&creds_doc)).unwrap();
    assert_eq!(creds.organization, "contoso");
    assert_eq!(creds.pat, "SECRET-REDACTED");
}

#[test]
fn credentials_missing_documents_are_reported() {
    let config = "{\"organization\": \"contoso\"}".to_string();
    assert_eq!(get_credentials(None, None), Err(AuthError::MissingConfig));
    assert_eq!(get_credentials(Some(&config), None), Err(AuthError::MissingCredentials));
}

#[test]
fn credentials_malformed_documents_are_reported() {
    let empty = "{}".to_string();
    let not_json = "not json at all".to_string();
    let config = "{\"organization\": \"contoso\"}".to_string();
    assert_eq!(get_organization(Some(&empty)), Err(AuthError::InvalidConfig));
    assert_eq!(get_organization(Some(&not_json)), Err(AuthError::InvalidConfig));
    assert_eq!(get_pat(Some(&empty)), Err(AuthError::InvalidCredentials));
    assert_eq!(get_credentials(Some(&config), Some(&empty)), Err(AuthError::InvalidCredentials));
}

#[test]
fn auth_error_messages_match_the_command_line_client() {
    assert_eq!(
        AuthError::MissingConfig.message(),
        "Not logged in. Please login first with 'azdocli login'"
    );
    assert_eq!(AuthError::InvalidConfig.message(), "Invalid config file format");
    assert_eq!(
        AuthError::MissingCredentials.message(),
        "Not logged in. Please login first with 'ado login'"
    );
}

#[test]
fn credentials_file_path_is_inside_config_dir() {
    assert_eq!(get_credentials_file_path("/home/dev/.azdocli"), "/home/dev/.azdocli/credentials.json");
}

#[test]
fn default_project_read_from_document() {
    let config = "{\"organization\": \"contoso\", \"default_project\": \"platform\"}".to_string();
    assert_eq!(get_default_project(Some(&config)), Ok("platform".to_string()));
    let without = "{\"organization\": \"contoso\"}".to_string();
    assert_eq!(get_default_project(Some(&without)), Err(ProjectError::NoDefaultProject));
    assert_eq!(get_default_project(None), Err(ProjectError::NoDefaultProject));
}

#[test]
fn explicit_project_argument_wins() {
    let config = "{\"default_project\": \"platform\"}".to_string();
    assert_eq!(
        get_project_or_default(Some("tools"), Some(&config)),
        Ok("tools".to_string())
    );
    assert_eq!(get_project_or_default(None, Some(&config)), Ok("platform".to_string()));
    assert_eq!(
        get_project_or_default(None, None),
        Err(ProjectError::NoDefaultProject)
    );
}

#[test]
fn project_error_message_names_both_remedies() {
    assert_eq!(
        ProjectError::NoDefaultProject.message(),
        "No default project configured. Please set one using 'ado project <project_name>' or use the --project argument"
    );
}

#[test]
fn get_repo_finds_first_match_by_name() {
    let repos = vec![
        repo("alpha", Some("proto://alpha")),
        repo("beta", None),
        repo("beta", Some("proto://beta-second")),
    ];
    let found = get_repo(&repos, "beta").unwrap();
    assert_eq!(found.name, "beta");
    assert_eq!(found.ssh_url, None);
}

#[test]
fn get_repo_distinguishes_empty_from_not_found() {
    let empty: Vec<RepoDescriptor> = Vec::new();
    assert_eq!(get_repo(&empty, "alpha"), Err(RepoLookupError::NoRepositories));
    let repos = vec![repo("alpha", None)];
    assert_eq!(get_repo(&repos, "delta"), Err(RepoLookupError::NotFound));
}

#[test]
fn repo_names_keep_listing_order() {
    let repos = vec![repo("alpha", None), repo("beta", Some("proto://beta"))];
    let names = repo_names(&repos);
    assert_eq!(names, vec!["alpha".to_string(), "beta".to_string()]);
    assert_eq!(azdocli::text::join_with(&names, ", "), "alpha, beta");
}
