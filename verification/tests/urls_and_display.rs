use azdocli::artifacts::{
    artifact_download_url, artifact_download_url_org, artifact_filename, artifact_publish_url,
    artifact_publish_url_org,
};
use azdocli::auth::Credentials;
use azdocli::boards::{
    build_wiql_query, truncate_title, work_item_type_name, work_item_url, WorkItemType,
};
use azdocli::pr::{branch_ref, filter_pull_requests, PullRequestSummary};
use azdocli::repos::{delete_prompt, repo_listing_line, RepoDescriptor};
use azdocli::utils::{basic_auth_header, get_base_url};
use base64::Engine;

#[test]
fn test_download_and_save_artifact_creates_file() {
    // The artifact is saved under "<name>-<version>.zip".
    let name = "test-package";
    let version = "1.0.0";
    let expected_filename = artifact_filename(name, version);

    assert_eq!(expected_filename, "test-package-1.0.0.zip");
}

#[test]
fn artifact_feed_urls() {
    assert_eq!(
        artifact_download_url("org", "proj", "pkg", "1.2.3"),
        "https://pkgs.dev.azure.com/org/proj/_packaging/Universal/upack/download/pkg/1.2.3"
    );
    assert_eq!(
        artifact_download_url_org("org", "pkg", "1.2.3"),
        "https://pkgs.dev.azure.com/org/_packaging/Universal/upack/download/pkg/1.2.3"
    );
    assert_eq!(
        artifact_publish_url("org", "proj"),
        "https://pkgs.dev.azure.com/org/proj/_packaging/Universal/upack/upload"
    );
    assert_eq!(
        artifact_publish_url_org("org"),
        "https://pkgs.dev.azure.com/org/_packaging/Universal/upack/upload"
    );
}

#[test]
fn basic_auth_header_encodes_token_with_empty_user() {
    // ":test" encodes to "OnRlc3Q=" under the standard alphabet.
    assert_eq!(basic_auth_header("test"), "Basic OnRlc3Q=");
    let expected = format!(
        "Basic {}",
        base64::engine::general_purpose::STANDARD.encode(":longer token value")
    );
    assert_eq!(basic_auth_header("longer token value"), expected);
}

#[test]
fn base_url_names_the_organization() {
    let creds = Credentials { organization: "contoso".to_string(), pat: "p".to_string() };
    assert_eq!(get_base_url(&creds), "https://dev.azure.com/contoso");
}

#[test]
fn wiql_query_without_filters() {
    let query = build_wiql_query("proj", None, None);
    assert_eq!(
        query,
        "SELECT [System.Id], [System.Title], [System.State], [System.WorkItemType], \
[System.AssignedTo], [System.CreatedDate], [Microsoft.VSTS.Common.Priority] \
FROM WorkItems WHERE [System.TeamProject] = 'proj' AND [System.AssignedTo] = @Me \
ORDER BY [System.CreatedDate] DESC"
    );
}

#[test]
fn wiql_query_with_filters_appends_clauses() {
    let query = build_wiql_query("proj", Some("Active"), Some("Bug"));
    assert!(query.ends_with(
        "[System.TeamProject] = 'proj' AND [System.AssignedTo] = @Me \
AND [System.State] = 'Active' AND [System.WorkItemType] = 'Bug' \
ORDER BY [System.CreatedDate] DESC"
    ));
}

#[test]
fn work_item_type_names() {
    assert_eq!(work_item_type_name(&WorkItemType::Bug), "Bug");
    assert_eq!(work_item_type_name(&WorkItemType::Task), "Task");
    assert_eq!(work_item_type_name(&WorkItemType::UserStory), "User Story");
    assert_eq!(work_item_type_name(&WorkItemType::Feature), "Feature");
    assert_eq!(work_item_type_name(&WorkItemType::Epic), "Epic");
}

#[test]
fn work_item_browser_url() {
    assert_eq!(
        work_item_url("contoso", "123"),
        "https://dev.azure.com/contoso//_workitems/edit/123"
    );
}

#[test]
fn short_titles_stay_whole_and_long_ones_get_an_ellipsis() {
    assert_eq!(truncate_title("fix the build"), "fix the build");
    let exactly_thirty = "123456789012345678901234567890";
    assert_eq!(truncate_title(exactly_thirty), exactly_thirty);
    let long = "1234567890123456789012345678901";
    assert_eq!(truncate_title(long), "123456789012345678901234567...");
}

#[test]
fn branch_ref_normalizes_branch_names() {
    assert_eq!(branch_ref("feature/x"), "refs/heads/feature/x");
    assert_eq!(branch_ref("refs/heads/main"), "refs/heads/main");
}

#[test]
fn pull_requests_filter_by_repository() {
    let prs = vec![
        PullRequestSummary { id: 1, title: "one".to_string(), repo_name: "a".to_string() },
        PullRequestSummary { id: 2, title: "two".to_string(), repo_name: "b".to_string() },
        PullRequestSummary { id: 3, title: "three".to_string(), repo_name: "a".to_string() },
    ];
    let filtered = filter_pull_requests(&prs, "a");
    assert_eq!(filtered.len(), 2);
    assert_eq!(filtered[0].id, 1);
    assert_eq!(filtered[1].id, 3);
    assert_eq!(filter_pull_requests(&prs, "c").len(), 0);
}

#[test]
fn repo_listing_lines_show_address_or_marker() {
    let with = RepoDescriptor {
        name: "alpha".to_string(),
        ssh_url: Some("proto://alpha".to_string()),
    };
    let without = RepoDescriptor { name: "beta".to_string(), ssh_url: None };
    assert_eq!(repo_listing_line(&with), "  • alpha (proto://alpha)");
    assert_eq!(repo_listing_line(&without), "  • beta (⚠  No SSH URL)");
}

#[test]
fn delete_prompts_name_the_mode_and_repository() {
    assert_eq!(
        delete_prompt("tools", false),
        "Are you sure you want to soft delete repository 'tools'?"
    );
    assert_eq!(
        delete_prompt("tools", true),
        "Are you sure you want to hard delete repository 'tools'?"
    );
}
