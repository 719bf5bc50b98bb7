//! The first version of the tool, which keeps its session, context and issues
//! in a `.jira/` directory of a project and talks to Jira with a session.

use vstd::prelude::*;
use crate::api::{QueryParam, Request};
use crate::paths::{join, join_all, join_path};
use crate::text::{decimal, decimal_string, replace_char, replace_char_spec};

verus! {

/// The Jira site and the credentials of its user.
#[derive(Debug)]
pub struct Session {
    pub email: String,
    pub api_key: String,
    pub domain: String,
}

/// The board, issue, project and sprint the user works on.
#[derive(Debug)]
pub struct Context {
    pub active_board: Option<String>,
    pub active_issue: Option<String>,
    pub active_project: Option<String>,
    pub active_sprint: Option<String>,
}

/// The files and directories of a project.
#[derive(Debug)]
pub struct Paths {
    pub project: String,
    pub config_dir: String,
    pub config_file: String,
    pub context_file: String,
    pub session_file: String,
    pub issues_dir: String,
    pub boards_dir: String,
}

/// Everything loaded for a project.
#[derive(Debug)]
pub struct Config {
    pub paths: Paths,
    pub session: Session,
    pub context: Context,
}

/// How `list issues` prints.
#[derive(Debug, Clone, Copy)]
pub struct Options {
    pub machine_ready: bool,
}

#[allow(non_snake_case)]
#[derive(Debug)]
pub struct BoardResponse {
    pub maxResults: usize,
    pub values: Vec<Board>,
}

#[allow(non_snake_case)]
#[derive(Debug)]
pub struct Board {
    pub id: usize,
    pub name: String,
    pub board_type: String,
    pub location: BoardLocation,
}

#[allow(non_snake_case)]
#[derive(Debug)]
pub struct BoardLocation {
    pub displayName: String,
}

#[allow(non_snake_case)]
#[derive(Debug)]
pub struct IssuesResponse {
    pub maxResults: usize,
    pub total: usize,
    pub issues: Vec<Issue>,
}

#[derive(Debug)]
pub struct Issue {
    pub id: String,
    pub key: String,
    pub fields: IssueFields,
}

#[derive(Debug)]
pub struct IssueFields {
    pub summary: String,
}

/// `path` made absolute against the working directory `cwd`: a relative path
/// is pushed onto `cwd`, an absolute one is kept.
pub fn get_absolute_path(cwd: &str, path: &str) -> (r: String)
    ensures
        r@ == join(cwd@, path@),
{
    join_path(cwd, path)
}

/// `base` with each of `paths` pushed onto it in turn.
pub fn construct_paths(base: &str, paths: &[&str]) -> (r: String)
    ensures
        r@ == join_all(base@, paths@.map_values(|p: &str| p@)),
{
    let ghost parts = paths@.map_values(|p: &str| p@);
    let mut r = String::from_str(base);
    let n = paths.len();
    let mut i: usize = 0;
    while i < n
        invariant
            n == paths@.len(),
            parts == paths@.map_values(|p: &str| p@),
            i <= n,
            r@ == join_all(base@, parts.subrange(0, i as int)),
        decreases n - i,
    {
        let next = join_path(r.as_str(), paths[i]);
        r = next;
        assert(parts.subrange(0, i + 1).drop_last() == parts.subrange(0, i as int));
        i = i + 1;
    }
    assert(parts.subrange(0, n as int) == parts);
    r
}

pub open spec fn config_dir_of(project: Seq<char>) -> Seq<char> {
    join(project, ".jira/"@)
}

impl Paths {
    /// The paths of the project at `project_path`: the `.jira/` directory,
    /// its `config.yml`, `context.yml` and `session.yml`, and its `issues/` and
    /// `boards/` directories. Whether they exist is the caller's part.
    pub fn new(project_path: &str) -> (p: Paths)
        ensures
            p.project@ == project_path@,
            p.config_dir@ == config_dir_of(project_path@),
            p.config_file@ == join(config_dir_of(project_path@), "config.yml"@),
            p.context_file@ == join(config_dir_of(project_path@), "context.yml"@),
            p.session_file@ == join(config_dir_of(project_path@), "session.yml"@),
            p.issues_dir@ == join(config_dir_of(project_path@), "issues/"@),
            p.boards_dir@ == join(config_dir_of(project_path@), "boards/"@),
    {
        let dir = join_path(project_path, ".jira/");
        Paths {
            project: String::from_str(project_path),
            config_file: join_path(dir.as_str(), "config.yml"),
            context_file: join_path(dir.as_str(), "context.yml"),
            session_file: join_path(dir.as_str(), "session.yml"),
            issues_dir: join_path(dir.as_str(), "issues/"),
            boards_dir: join_path(dir.as_str(), "boards/"),
            config_dir: dir,
        }
    }
}

/// Every file and directory of a project lies directly in its `.jira/`
/// directory: its path is the directory's followed by its name.
pub proof fn lemma_paths_inside_config_dir(project: Seq<char>, name: Seq<char>)
    requires
        name.len() > 0,
        name[0] != '/',
    ensures
        join(config_dir_of(project), name) == config_dir_of(project) + name,
{
    reveal_strlit(".jira/");
    let d = config_dir_of(project);
    assert(d.last() == '/');
}

/// Whether the `url` crate parses the text as a URL.
pub uninterp spec fn url_parses(s: Seq<char>) -> bool;

/// `url::Url::parse(s)`, taken as whether it succeeded; that is a function of
/// the text alone, named `url_parses`.
#[verifier::external_body]
fn parses_as_url(s: &str) -> (b: bool)
    ensures
        b == url_parses(s@),
{
    url::Url::parse(s).is_ok()
}

/// The text in lower case, as `str::to_lowercase` writes it.
pub uninterp spec fn lowercase(s: Seq<char>) -> Seq<char>;

/// `str::to_lowercase`: its result is a function of the text alone, named
/// `lowercase`.
#[verifier::external_body]
fn to_lowercase(s: &str) -> (r: String)
    ensures
        r@ == lowercase(s@),
{
    s.to_lowercase()
}

/// The URL of `resource` on the site `domain`; without a resource, the site
/// itself.
pub open spec fn session_url(domain: Seq<char>, resource: Option<Seq<char>>) -> Seq<char> {
    match resource {
        Some(r) => "https://"@ + domain + r,
        None => "https://"@ + domain,
    }
}

pub open spec fn option_str_view(o: Option<&str>) -> Option<Seq<char>> {
    match o {
        Some(s) => Some(s@),
        None => None,
    }
}

/// The URL of `resource` on the session's site. The URL must parse.
pub fn create_url(session: &Session, resource: Option<&str>) -> (r: String)
    requires
        url_parses(session_url(session.domain@, option_str_view(resource))),
    ensures
        r@ == session_url(session.domain@, option_str_view(resource)),
{
    let base_url = String::from_str("https://").concat(session.domain.as_str());
    match resource {
        Some(uri) => base_url.concat(uri),
        None => base_url,
    }
}

/// The URL of `resource` on the session's site, if it parses.
pub fn checked_url(session: &Session, resource: Option<&str>) -> (r: Option<String>)
    ensures
        r is Some <==> url_parses(session_url(session.domain@, option_str_view(resource))),
        r matches Some(u) ==> u@ == session_url(session.domain@, option_str_view(resource)),
{
    let base_url = String::from_str("https://").concat(session.domain.as_str());
    let url = match resource {
        Some(uri) => base_url.concat(uri),
        None => base_url,
    };
    if parses_as_url(url.as_str()) {
        Some(create_url(session, resource))
    } else {
        None
    }
}

/// `r` is the GET of `url` with the session's email and API key as
/// credentials, and the query parameter `query`.
pub open spec fn is_session_get(
    r: Request,
    s: Session,
    url: Seq<char>,
    query: Option<(Seq<char>, Seq<char>)>,
) -> bool {
    &&& r.url@ == url
    &&& r.user@ == s.email@
    &&& r.password@ == s.api_key@
    &&& match query {
        None => r.query is None,
        Some((name, value)) => r.query is Some && r.query->0.name@ == name && r.query->0.value@
            == value,
    }
}

/// The GET of `uri` on the session's site. The URL must parse.
pub fn create_get_request(session: &Session, uri: Option<&str>) -> (r: Request)
    requires
        url_parses(session_url(session.domain@, option_str_view(uri))),
    ensures
        is_session_get(r, *session, session_url(session.domain@, option_str_view(uri)), None),
{
    Request {
        url: create_url(session, uri),
        user: session.email.clone(),
        password: session.api_key.clone(),
        query: None,
    }
}

/// The GET of `uri` on the session's site, if its URL parses.
pub fn checked_get_request(session: &Session, uri: Option<&str>) -> (r: Option<Request>)
    ensures
        r is Some <==> url_parses(session_url(session.domain@, option_str_view(uri))),
        r matches Some(q) ==> is_session_get(
            q,
            *session,
            session_url(session.domain@, option_str_view(uri)),
            None,
        ),
{
    match checked_url(session, uri) {
        Some(_) => Some(create_get_request(session, uri)),
        None => None,
    }
}

/// The resource that lists the boards.
pub open spec fn boards_resource() -> Seq<char> {
    "/rest/agile/1.0/board "@
}

/// The request for the boards, if its URL parses.
pub fn boards_request(session: &Session) -> (r: Option<Request>)
    ensures
        r is Some <==> url_parses(session_url(session.domain@, Some(boards_resource()))),
        r matches Some(q) ==> is_session_get(
            q,
            *session,
            session_url(session.domain@, Some(boards_resource())),
            None,
        ),
{
    checked_get_request(session, Some("/rest/agile/1.0/board "))
}

/// The issue search of the last `days` days (14 when not given).
pub open spec fn jql(days: Option<usize>) -> Seq<char> {
    match days {
        Some(d) => "created > -"@ + decimal(d as nat) + "d"@,
        None => "created > -14d"@,
    }
}

/// The resource that lists the issues of the board with id `board`.
pub open spec fn board_issues_resource(board: Seq<char>) -> Seq<char> {
    "/rest/agile/1.0/board/"@ + board + "/issue"@
}

/// The request for the issues that `config`'s active board got in the last
/// `days_in_past` days, or why there is none.
pub open spec fn issues_request_ok(config: Config, days_in_past: Option<usize>, r: Request) -> bool {
    is_session_get(
        r,
        config.session,
        session_url(
            config.session.domain@,
            Some(board_issues_resource(config.context.active_board->0@)),
        ),
        Some(("jql"@, jql(days_in_past))),
    )
}

fn jql_text(days_in_past: Option<usize>) -> (s: String)
    ensures
        s@ == jql(days_in_past),
{
    match days_in_past {
        Some(days) => String::from_str("created > -").concat(decimal_string(days).as_str()).concat(
            "d",
        ),
        None => String::from_str("created > -14d"),
    }
}

/// The request for the issues that the active board got in the last
/// `days_in_past` days (14 when not given); an error without an active board.
/// The URL must parse.
pub fn get_issues(config: &Config, days_in_past: Option<usize>) -> (r: Result<
    Request,
    &'static str,
>)
    requires
        config.context.active_board matches Some(b) ==> url_parses(
            session_url(config.session.domain@, Some(board_issues_resource(b@))),
        ),
    ensures
        config.context.active_board is None ==> (r matches Err(e) && e@
            == "No active board selected"@),
        config.context.active_board is Some ==> (r matches Ok(q) && issues_request_ok(
            *config,
            days_in_past,
            q,
        )),
{
    let active_board = match &config.context.active_board {
        Some(active) => active,
        None => return Err("No active board selected"),
    };
    let jql = jql_text(days_in_past);
    let url = String::from_str("/rest/agile/1.0/board/").concat(active_board.as_str()).concat(
        "/issue",
    );
    let mut request = create_get_request(&config.session, Some(url.as_str()));
    request.query = Some(QueryParam { name: String::from_str("jql"), value: jql });
    Ok(request)
}

/// `get_issues`, where the URL of the active board's issues parses; `None`
/// where it does not.
pub fn checked_get_issues(config: &Config, days_in_past: Option<usize>) -> (r: Option<
    Result<Request, &'static str>,
>)
    ensures
        r is None <==> (config.context.active_board matches Some(b) && !url_parses(
            session_url(config.session.domain@, Some(board_issues_resource(b@))),
        )),
        r matches Some(res) ==> {
            &&& config.context.active_board is None ==> (res matches Err(e) && e@
                == "No active board selected"@)
            &&& config.context.active_board is Some ==> (res matches Ok(q) && issues_request_ok(
                *config,
                days_in_past,
                q,
            ))
        },
{
    match &config.context.active_board {
        Some(board) => {
            let resource = String::from_str("/rest/agile/1.0/board/").concat(board.as_str()).concat(
                "/issue",
            );
            if checked_url(&config.session, Some(resource.as_str())).is_none() {
                return None;
            }
        },
        None => {},
    }
    Some(get_issues(config, days_in_past))
}

/// What an answer of the Jira API with the given status means for the tool.
#[derive(Debug, Clone, Copy, PartialEq, Eq, Structural)]
pub enum ApiOutcome {
    /// The answer can be used.
    Usable,
    /// The credentials were refused; the tool stops.
    Unauthorized,
    /// Any other status; the tool stops.
    Failed,
}

/// Judges the status of an answer of the Jira API: only 200 is usable.
pub fn api_outcome(status: u16) -> (o: ApiOutcome)
    ensures
        o == (if status == 200 {
            ApiOutcome::Usable
        } else if status == 401 {
            ApiOutcome::Unauthorized
        } else {
            ApiOutcome::Failed
        }),
{
    if status == 200 {
        ApiOutcome::Usable
    } else if status == 401 {
        ApiOutcome::Unauthorized
    } else {
        ApiOutcome::Failed
    }
}

/// The message shown when the credentials are refused.
pub fn unauthorized_message() -> (m: String)
    ensures
        m@
            == "You are not authorized to query the JIRA API. Please check your session file or run init"@,
{
    String::from_str(
        "You are not authorized to query the JIRA API. Please check your session file or run init",
    )
}

/// The heading of the table of boards that `fetch boards` prints.
pub fn boards_table_header() -> (s: String)
    ensures
        s@ == "ID\tType\tName"@,
{
    String::from_str("ID\tType\tName")
}

/// The row of a board in that table: its id, type and location name,
/// separated by tabs.
pub open spec fn board_row_spec(id: usize, board_type: Seq<char>, location: Seq<char>) -> Seq<char> {
    decimal(id as nat) + "\t"@ + board_type + "\t"@ + location
}

/// The row of `board` in the table of boards.
pub fn board_row(board: &Board) -> (s: String)
    ensures
        s@ == board_row_spec(board.id, board.board_type@, board.location.displayName@),
{
    decimal_string(board.id).concat("\t").concat(board.board_type.as_str()).concat("\t").concat(
        board.location.displayName.as_str(),
    )
}

/// The file an issue is kept in: `<key>.yml` in the issues directory.
pub fn issue_file_path(issues_dir: &str, key: &str) -> (p: String)
    ensures
        p@ == join(issues_dir@, key@ + ".yml"@),
{
    let name = String::from_str(key).concat(".yml");
    join_path(issues_dir, name.as_str())
}

/// The line `list issues` prints for an issue: machine-ready, the key, a dash
/// and the lower-cased summary with its spaces turned into dashes; otherwise
/// the key, a tab and the summary.
pub open spec fn issue_line_spec(key: Seq<char>, summary: Seq<char>, machine_ready: bool) -> Seq<
    char,
> {
    if machine_ready {
        key + "-"@ + replace_char_spec(lowercase(summary), ' ', '-')
    } else {
        key + "\t"@ + summary
    }
}

/// A machine-ready line is the whole key, a dash, and the whole lower-cased
/// summary with each space a dash, character by character; a plain line is
/// the key, a tab and the summary, unchanged.
pub proof fn lemma_issue_line_parts(key: Seq<char>, summary: Seq<char>)
    ensures
        ({
            let l = issue_line_spec(key, summary, true);
            let lower = lowercase(summary);
            &&& l.len() == key.len() + 1 + lower.len()
            &&& l.subrange(0, key.len() as int) == key
            &&& l[key.len() as int] == '-'
            &&& forall|j: int| 0 <= j < lower.len() ==> #[trigger] l[key.len() + 1 + j] == if lower[j]
                == ' ' {
                '-'
            } else {
                lower[j]
            }
        }),
        issue_line_spec(key, summary, false) == key + seq!['\t'] + summary,
{
    reveal_strlit("-");
    reveal_strlit("\t");
    let lower = lowercase(summary);
    let d = replace_char_spec(lower, ' ', '-');
    let l = issue_line_spec(key, summary, true);
    assert(l == key + seq!['-'] + d);
    assert(l.subrange(0, key.len() as int) =~= key);
    assert forall|j: int| 0 <= j < lower.len() implies #[trigger] l[key.len() + 1 + j] == if lower[j]
        == ' ' {
        '-'
    } else {
        lower[j]
    } by {
        assert(l[key.len() + 1 + j] == d[j]);
    }
    assert("\t"@ =~= seq!['\t']);
}

/// The line `list issues` prints for `issue`.
pub fn issue_line(issue: &Issue, options: Options) -> (s: String)
    ensures
        s@ == issue_line_spec(issue.key@, issue.fields.summary@, options.machine_ready),
{
    if options.machine_ready {
        let lower = to_lowercase(issue.fields.summary.as_str());
        let dashed = replace_char(lower.as_str(), ' ', '-');
        String::from_str(issue.key.as_str()).concat("-").concat(dashed.as_str())
    } else {
        String::from_str(issue.key.as_str()).concat("\t").concat(issue.fields.summary.as_str())
    }
}

} // verus!
