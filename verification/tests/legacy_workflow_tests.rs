use jira_cli::api::Client;
use jira_cli::legacy::{
    board_row, boards_table_header, Board, BoardLocation,
    api_outcome, boards_request, checked_get_issues, checked_url, construct_paths, create_url,
    get_absolute_path, get_issues, issue_file_path, issue_line, unauthorized_message, ApiOutcome,
    Config, Context, Issue, IssueFields, Options, Paths, Session,
};
use jira_cli::paths::Workspace;
use jira_cli::pick::confirm;
use jira_cli::workflow::{issue_file_path as workflow_issue_path, issues_request, ContextTypes};

fn session(domain: &str) -> Session {
    Session { email: "e@x.com".to_string(), api_key: "SECRET-REDACTED".to_string(), domain: domain.to_string() }
}

fn config(domain: &str, board: Option<&str>) -> Config {
    Config {
        paths: Paths::new("/p"),
        session: session(domain),
        context: Context {
            active_board: board.map(|b| b.to_string()),
            active_issue: None,
            active_project: None,
            active_sprint: None,
        },
    }
}

#[test]
fn project_paths() {
    let p = Paths::new("/home/u/proj");
    assert_eq!(p.project, "/home/u/proj");
    assert_eq!(p.config_dir, "/home/u/proj/.jira/");
    assert_eq!(p.config_file, "/home/u/proj/.jira/config.yml");
    assert_eq!(p.context_file, "/home/u/proj/.jira/context.yml");
    assert_eq!(p.session_file, "/home/u/proj/.jira/session.yml");
    assert_eq!(p.issues_dir, "/home/u/proj/.jira/issues/");
    assert_eq!(p.boards_dir, "/home/u/proj/.jira/boards/");
    assert_eq!(construct_paths("/home/u/proj", &[".jira/", "config.yml"]), p.config_file);
    assert_eq!(construct_paths("/home/u/proj", &[]), "/home/u/proj");
}

#[test]
fn absolute_paths() {
    assert_eq!(get_absolute_path("/work", "proj"), "/work/proj");
    assert_eq!(get_absolute_path("/work", "/abs/proj"), "/abs/proj");
}

#[test]
fn session_urls() {
    let s = session("company.atlassian.net");
    assert_eq!(create_url(&s, None), "https://company.atlassian.net");
    assert_eq!(create_url(&s, Some("/rest/x")), "https://company.atlassian.net/rest/x");
    assert_eq!(checked_url(&s, Some("/rest/x")).unwrap(), "https://company.atlassian.net/rest/x");
    assert!(checked_url(&session("bad host:99999"), None).is_none());
    let b = boards_request(&s).unwrap();
    assert_eq!(b.url, "https://company.atlassian.net/rest/agile/1.0/board ");
    assert_eq!((b.user.as_str(), b.password.as_str()), ("e@x.com", "SECRET-REDACTED"));
    assert!(b.query.is_none());
}

#[test]
fn issue_requests() {
    assert_eq!(get_issues(&config("c.net", None), None).unwrap_err(), "No active board selected");
    let r = get_issues(&config("c.net", Some("12")), None).unwrap();
    assert_eq!(r.url, "https://c.net/rest/agile/1.0/board/12/issue");
    let q = r.query.unwrap();
    assert_eq!((q.name.as_str(), q.value.as_str()), ("jql", "created > -14d"));
    let r = get_issues(&config("c.net", Some("12")), Some(3)).unwrap();
    assert_eq!(r.query.unwrap().value, "created > -3d");
    assert!(checked_get_issues(&config("bad host:99999", Some("1")), None).is_none());
    assert!(checked_get_issues(&config("c.net", None), None).unwrap().is_err());
    assert_eq!(
        checked_get_issues(&config("c.net", Some("4")), Some(7)).unwrap().unwrap().url,
        "https://c.net/rest/agile/1.0/board/4/issue"
    );
}

#[test]
fn api_outcomes() {
    assert_eq!(api_outcome(200), ApiOutcome::Usable);
    assert_eq!(api_outcome(401), ApiOutcome::Unauthorized);
    assert_eq!(api_outcome(500), ApiOutcome::Failed);
    assert_eq!(api_outcome(201), ApiOutcome::Failed);
    assert_eq!(
        unauthorized_message(),
        "You are not authorized to query the JIRA API. Please check your session file or run init"
    );
}

#[test]
fn listing_lines() {
    let i = Issue { id: "1".into(), key: "PRJ-4".into(), fields: IssueFields { summary: "Add Login Page".into() } };
    assert_eq!(issue_line(&i, Options { machine_ready: true }), "PRJ-4-add-login-page");
    assert_eq!(issue_line(&i, Options { machine_ready: false }), "PRJ-4\tAdd Login Page");
    assert_eq!(issue_file_path("/p/.jira/issues/", "PRJ-4"), "/p/.jira/issues/PRJ-4.yml");
}

#[test]
fn workflow_sources() {
    assert_eq!(ContextTypes::from_name("jira-sprint"), Some(ContextTypes::JiraSprint));
    assert_eq!(ContextTypes::from_name("jira-backlog"), Some(ContextTypes::JiraBacklog));
    assert_eq!(ContextTypes::from_name("git"), Some(ContextTypes::Git));
    assert_eq!(ContextTypes::from_name("svn"), None);
    assert!(ContextTypes::JiraSprint.is_jira());
    assert!(ContextTypes::JiraBacklog.is_jira());
    assert!(!ContextTypes::Git.is_jira());
    let c = Client::new("c.net", "k", "e");
    let r = issues_request(ContextTypes::JiraSprint, &c, 2, 9).unwrap();
    assert_eq!(r.url, "https://c.net/rest/agile/1.0/board/2/sprint/9/issue");
    assert!(issues_request(ContextTypes::JiraBacklog, &c, 2, 9).is_none());
    assert!(issues_request(ContextTypes::Git, &c, 2, 9).is_none());
    let ws = Workspace::new("/p/.workflow/jira");
    assert_eq!(workflow_issue_path(&ws, "PRJ-1"), "/p/.workflow/jira/./issues/PRJ-1");
}

#[test]
fn confirming() {
    let asked = std::cell::RefCell::new(String::new());
    let yes = confirm("Overwrite", |q: &str| {
        *asked.borrow_mut() = q.to_string();
        "y".to_string()
    });
    assert!(yes);
    assert_eq!(asked.borrow().as_str(), "Overwrite (y/N)?");
    assert!(!confirm("Overwrite", |_: &str| "Y".to_string()));
    assert!(!confirm("Overwrite", |_: &str| "yes".to_string()));
    assert!(!confirm("Overwrite", |_: &str| String::new()));
}

#[test]
fn boards_table() {
    assert_eq!(boards_table_header(), "ID\tType\tName");
    let b = Board {
        id: 42,
        name: "Team".to_string(),
        board_type: "scrum".to_string(),
        location: BoardLocation { displayName: "Team (PRJ)".to_string() },
    };
    assert_eq!(board_row(&b), "42\tscrum\tTeam (PRJ)");
}
