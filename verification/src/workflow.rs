//! The `fetch-context` command of the workflow tool: where the context comes
//! from, and where the fetched issues are kept.

use vstd::prelude::*;
use crate::api::{is_get, sprint_issues_uri, sprint_issues_request, start_at, Client, Request};
use crate::paths::{join, Workspace};

verus! {

/// Where `fetch-context` gets the context from.
#[derive(PartialEq, Eq, Structural, Debug, Clone, Copy)]
pub enum ContextTypes {
    JiraSprint,
    JiraBacklog,
    Git,
}

/// The arguments of `fetch-context`.
#[derive(Debug)]
pub struct Arguments {
    pub source: ContextTypes,
}

/// The source named on the command line: `jira-sprint`, `jira-backlog` or
/// `git`.
pub open spec fn source_named(s: Seq<char>) -> Option<ContextTypes> {
    if s == "jira-sprint"@ {
        Some(ContextTypes::JiraSprint)
    } else if s == "jira-backlog"@ {
        Some(ContextTypes::JiraBacklog)
    } else if s == "git"@ {
        Some(ContextTypes::Git)
    } else {
        None
    }
}

impl ContextTypes {
    /// The source named `name`, if it names one.
    pub fn from_name(name: &str) -> (r: Option<ContextTypes>)
        ensures
            r == source_named(name@),
    {
        let name = String::from_str(name);
        if name == String::from_str("jira-sprint") {
            Some(ContextTypes::JiraSprint)
        } else if name == String::from_str("jira-backlog") {
            Some(ContextTypes::JiraBacklog)
        } else if name == String::from_str("git") {
            Some(ContextTypes::Git)
        } else {
            None
        }
    }

    /// Whether the source is Jira, for which the context is fetched.
    pub fn is_jira(&self) -> (b: bool)
        ensures
            b == (*self == ContextTypes::JiraSprint || *self == ContextTypes::JiraBacklog),
    {
        match self {
            ContextTypes::Git => false,
            _ => true,
        }
    }
}

/// The request for the issues that `fetch-context` gathers from `source`: the
/// sprint's issues from the first on; the other sources gather none.
pub fn issues_request(source: ContextTypes, client: &Client, board_id: usize, sprint_id: usize) -> (r:
    Option<Request>)
    ensures
        source == ContextTypes::JiraSprint ==> (r matches Some(q) && is_get(
            q,
            client@,
            sprint_issues_uri(board_id, sprint_id),
            start_at(0),
        )),
        source != ContextTypes::JiraSprint ==> r is None,
{
    match source {
        ContextTypes::JiraSprint => Some(sprint_issues_request(client, board_id, sprint_id, 0)),
        _ => None,
    }
}

/// The file `fetch-context` keeps the issue with key `key` in: the file named
/// by the key in the `./issues` directory of the workspace.
pub fn issue_file_path(workspace: &Workspace, key: &str) -> (p: String)
    ensures
        p@ == join(join(workspace@, "./issues"@), key@),
{
    let issues = workspace.child_workspace("./issues");
    issues.get_path(key)
}

} // verus!
