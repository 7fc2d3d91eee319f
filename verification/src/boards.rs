//! Work-tracking helpers: the work item query, type names, the browser
//! URL of a work item, and title truncation for the list view.

use vstd::prelude::*;
use vstd::string::StrSliceExecFns;
use vstd::string::StringExecFns;

verus! {

/// Subcommands for working with boards.
#[derive(Clone)]
pub enum BoardsSubCommands {
    /// Manage work items
    WorkItem { subcommand: WorkItemSubCommands },
}

/// The kinds of work item a board tracks.
#[derive(Clone, Debug, PartialEq, Eq, Structural)]
pub enum WorkItemType {
    /// Bug work item type
    Bug,
    /// Task work item type
    Task,
    /// User Story work item type
    UserStory,
    /// Feature work item type
    Feature,
    /// Epic work item type
    Epic,
}

/// Subcommands for working with work items.
#[derive(Clone)]
pub enum WorkItemSubCommands {
    /// Create a new work item
    Create {
        work_item_type: WorkItemType,
        title: String,
        description: Option<String>,
        project: Option<String>,
    },
    /// Delete a work item
    Delete { id: String, project: Option<String>, soft_delete: bool },
    /// List work items assigned to me
    List {
        project: Option<String>,
        state: Option<String>,
        work_item_type: Option<String>,
        limit: i32,
    },
    /// Show details of a work item
    Show { id: String, project: Option<String>, web: bool },
    /// Update a work item
    Update {
        id: String,
        project: Option<String>,
        title: Option<String>,
        description: Option<String>,
        state: Option<String>,
        priority: Option<i32>,
    },
}

/// The display name of a work item type.
pub fn work_item_type_name(work_item_type: &WorkItemType) -> (r: String)
    ensures
        *work_item_type is Bug ==> r@ == "Bug"@,
        *work_item_type is Task ==> r@ == "Task"@,
        *work_item_type is UserStory ==> r@ == "User Story"@,
        *work_item_type is Feature ==> r@ == "Feature"@,
        *work_item_type is Epic ==> r@ == "Epic"@,
{
    match work_item_type {
        WorkItemType::Bug => "Bug".to_owned(),
        WorkItemType::Task => "Task".to_owned(),
        WorkItemType::UserStory => "User Story".to_owned(),
        WorkItemType::Feature => "Feature".to_owned(),
        WorkItemType::Epic => "Epic".to_owned(),
    }
}

/// The view of an optional string argument.
pub open spec fn opt_view(o: Option<&str>) -> Option<Seq<char>> {
    match o {
        None => None,
        Some(s) => Some(s@),
    }
}

/// The query that lists the work items assigned to the current user in a
/// project, narrowed by the optional state and type filters and ordered
/// by creation date, newest first.
pub open spec fn wiql_query_spec(
    project: Seq<char>,
    state: Option<Seq<char>>,
    work_item_type: Option<Seq<char>>,
) -> Seq<char> {
    let base =
        "SELECT [System.Id], [System.Title], [System.State], [System.WorkItemType], [System.AssignedTo], [System.CreatedDate], [Microsoft.VSTS.Common.Priority] FROM WorkItems WHERE [System.TeamProject] = '"@
        + project + "' AND [System.AssignedTo] = @Me"@;
    let with_state = match state {
        None => base,
        Some(s) => base + " AND [System.State] = '"@ + s + "'"@,
    };
    let with_type = match work_item_type {
        None => with_state,
        Some(t) => with_state + " AND [System.WorkItemType] = '"@ + t + "'"@,
    };
    with_type + " ORDER BY [System.CreatedDate] DESC"@
}

/// Builds the work item query for a project and the optional state and
/// type filters.
pub fn build_wiql_query(
    project: &str,
    state_filter: Option<&str>,
    work_item_type_filter: Option<&str>,
) -> (r: String)
    ensures
        r@ == wiql_query_spec(project@, opt_view(state_filter), opt_view(work_item_type_filter)),
{
    let mut query: String =
        "SELECT [System.Id], [System.Title], [System.State], [System.WorkItemType], [System.AssignedTo], [System.CreatedDate], [Microsoft.VSTS.Common.Priority] FROM WorkItems WHERE [System.TeamProject] = '".to_owned();
    query.append(project);
    query.append("' AND [System.AssignedTo] = @Me");
    match state_filter {
        Some(state) => {
            query.append(" AND [System.State] = '");
            query.append(state);
            query.append("'");
        },
        None => {},
    }
    match work_item_type_filter {
        Some(work_item_type) => {
            query.append(" AND [System.WorkItemType] = '");
            query.append(work_item_type);
            query.append("'");
        },
        None => {},
    }
    query.append(" ORDER BY [System.CreatedDate] DESC");
    query
}

/// The browser URL under which a work item is edited.
pub fn work_item_url(organization: &str, id: &str) -> (r: String)
    ensures
        r@ == "https://dev.azure.com/"@ + organization@ + "//_workitems/edit/"@ + id@,
{
    let mut url: String = "https://dev.azure.com/".to_owned();
    url.append(organization);
    url.append("//_workitems/edit/");
    url.append(id);
    url
}

/// How many characters of a title the list view shows at most.
pub const TITLE_LIMIT: usize = 30;

/// How many characters a longer title keeps before the ellipsis.
pub const TITLE_KEPT: usize = 27;

/// A title shortened for the list view: kept whole up to `TITLE_LIMIT`
/// characters, else cut to `TITLE_KEPT` characters and closed with an
/// ellipsis.
pub fn truncate_title(title: &str) -> (r: String)
    ensures
        title@.len() <= TITLE_LIMIT ==> r@ == title@,
        title@.len() > TITLE_LIMIT ==> r@ == title@.subrange(0, TITLE_KEPT as int) + "..."@,
{
    let len = title.unicode_len();
    if len > TITLE_LIMIT {
        let mut cut = title.substring_char(0, TITLE_KEPT).to_owned();
        cut.append("...");
        cut
    } else {
        title.to_owned()
    }
}

} // verus!
