//! The Jira REST API: the client's credentials, the requests the tool sends,
//! and the boards, sprints and issues it gets back.

use vstd::prelude::*;
use crate::pick::{DisplayText, Pickable};
use crate::style::{
    ansi_styled, green_dimmed_underlined_codes, paint_green_dimmed_underlined,
    paint_red_dimmed_underlined, red_dimmed_underlined_codes,
};
use crate::text::{decimal, decimal_string};

verus! {

/// The Jira site and the credentials of its user.
#[derive(Debug)]
pub struct Client {
    jira_host: String,
    api_key: String,
    email: String,
}

pub struct ClientView {
    pub jira_host: Seq<char>,
    pub api_key: Seq<char>,
    pub email: Seq<char>,
}

impl View for Client {
    type V = ClientView;

    closed spec fn view(&self) -> ClientView {
        ClientView { jira_host: self.jira_host@, api_key: self.api_key@, email: self.email@ }
    }
}

/// A query parameter of a request.
#[derive(Debug)]
pub struct QueryParam {
    pub name: String,
    pub value: String,
}

/// An authenticated GET request: where it goes, the basic-auth user and
/// password, and its query parameter, if any.
#[derive(Debug)]
pub struct Request {
    pub url: String,
    pub user: String,
    pub password: String,
    pub query: Option<QueryParam>,
}

/// The URL of `uri` on the Jira site `host`.
pub open spec fn url_of(host: Seq<char>, uri: Seq<char>) -> Seq<char> {
    "https://"@ + host + uri
}

/// `r` is the GET of `uri` on the client's site, with the client's email and
/// API key as credentials, and the query parameter `query`.
pub open spec fn is_get(
    r: Request,
    c: ClientView,
    uri: Seq<char>,
    query: Option<(Seq<char>, Seq<char>)>,
) -> bool {
    &&& r.url@ == url_of(c.jira_host, uri)
    &&& r.user@ == c.email
    &&& r.password@ == c.api_key
    &&& match query {
        None => r.query is None,
        Some((name, value)) => r.query is Some && r.query->0.name@ == name && r.query->0.value@
            == value,
    }
}

/// The `startAt` query parameter that asks for the items from `offset` on.
pub open spec fn start_at(offset: usize) -> Option<(Seq<char>, Seq<char>)> {
    Some(("startAt"@, decimal(offset as nat)))
}

pub open spec fn boards_uri() -> Seq<char> {
    "/rest/agile/1.0/board"@
}

pub open spec fn sprints_uri(board_id: usize) -> Seq<char> {
    "/rest/agile/1.0/board/"@ + decimal(board_id as nat) + "/sprint"@
}

pub open spec fn sprint_issues_uri(board_id: usize, sprint_id: usize) -> Seq<char> {
    "/rest/agile/1.0/board/"@ + decimal(board_id as nat) + "/sprint/"@ + decimal(
        sprint_id as nat,
    ) + "/issue"@
}

pub open spec fn backlog_uri(board_id: usize) -> Seq<char> {
    "/rest/agile/1.0/board/"@ + decimal(board_id as nat) + "/backlog"@
}

pub open spec fn issue_uri(key: Seq<char>) -> Seq<char> {
    "/rest/agile/1.0/issue/"@ + key
}

pub open spec fn projects_uri() -> Seq<char> {
    "/rest/api/2/project"@
}

impl Client {
    /// A client for the site `jira_host` (such as `company.atlassian.net`).
    pub fn new(jira_host: &str, api_key: &str, email: &str) -> (c: Client)
        ensures
            c@ == (ClientView { jira_host: jira_host@, api_key: api_key@, email: email@ }),
    {
        Client {
            jira_host: String::from_str(jira_host),
            api_key: String::from_str(api_key),
            email: String::from_str(email),
        }
    }

    pub fn jira_host(&self) -> (s: &str)
        ensures
            s@ == self@.jira_host,
    {
        self.jira_host.as_str()
    }

    pub fn api_key(&self) -> (s: &str)
        ensures
            s@ == self@.api_key,
    {
        self.api_key.as_str()
    }

    pub fn email(&self) -> (s: &str)
        ensures
            s@ == self@.email,
    {
        self.email.as_str()
    }

    fn base_url(&self) -> (s: String)
        ensures
            s@ == "https://"@ + self@.jira_host,
    {
        String::from_str("https://").concat(self.jira_host.as_str())
    }

    /// The URL of `uri` on the client's site.
    pub fn create_url(&self, uri: &str) -> (s: String)
        ensures
            s@ == url_of(self@.jira_host, uri@),
    {
        self.base_url().concat(uri)
    }

    /// The GET of `uri`, with the client's credentials.
    pub fn get_request(&self, uri: &str) -> (r: Request)
        ensures
            is_get(r, self@, uri@, None),
    {
        Request {
            url: self.create_url(uri),
            user: self.email.clone(),
            password: self.api_key.clone(),
            query: None,
        }
    }

    /// The GET of `uri` from item `offset` on, with the client's credentials.
    pub fn get_request_from(&self, uri: &str, offset: usize) -> (r: Request)
        ensures
            is_get(r, self@, uri@, start_at(offset)),
    {
        let mut r = self.get_request(uri);
        r.query = Some(QueryParam { name: String::from_str("startAt"), value: decimal_string(offset) });
        r
    }
}

/// The request for the boards the user can see.
pub fn boards_request(client: &Client) -> (r: Request)
    ensures
        is_get(r, client@, boards_uri(), None),
{
    client.get_request("/rest/agile/1.0/board")
}

/// The request for the sprints of a board.
pub fn sprints_request(client: &Client, board_id: usize) -> (r: Request)
    ensures
        is_get(r, client@, sprints_uri(board_id), None),
{
    let uri = String::from_str("/rest/agile/1.0/board/").concat(
        decimal_string(board_id).as_str(),
    ).concat("/sprint");
    client.get_request(uri.as_str())
}

/// The request for the issues of a sprint of a board, from item `offset` on.
pub fn sprint_issues_request(client: &Client, board_id: usize, sprint_id: usize, offset: usize) -> (r:
    Request)
    ensures
        is_get(r, client@, sprint_issues_uri(board_id, sprint_id), start_at(offset)),
{
    let uri = String::from_str("/rest/agile/1.0/board/").concat(
        decimal_string(board_id).as_str(),
    ).concat("/sprint/").concat(decimal_string(sprint_id).as_str()).concat("/issue");
    client.get_request_from(uri.as_str(), offset)
}

/// The request for the backlog of a board, from item `offset` on.
pub fn backlog_request(client: &Client, board_id: usize, offset: usize) -> (r: Request)
    ensures
        is_get(r, client@, backlog_uri(board_id), start_at(offset)),
{
    let uri = String::from_str("/rest/agile/1.0/board/").concat(
        decimal_string(board_id).as_str(),
    ).concat("/backlog");
    client.get_request_from(uri.as_str(), offset)
}

/// The request for the issue with key `key`.
pub fn issue_request(client: &Client, key: &str) -> (r: Request)
    ensures
        is_get(r, client@, issue_uri(key@), None),
{
    let uri = String::from_str("/rest/agile/1.0/issue/").concat(key);
    client.get_request(uri.as_str())
}

/// The request for the projects the user can see.
pub fn projects_request(client: &Client) -> (r: Request)
    ensures
        is_get(r, client@, projects_uri(), None),
{
    client.get_request("/rest/api/2/project")
}

/// A page of items of a listing.
#[derive(Debug)]
pub struct PaginatedResponse<T> {
    pub values: Vec<T>,
}

/// A board and where it lives.
#[allow(non_snake_case)]
#[derive(Debug)]
pub struct Board {
    pub id: usize,
    pub name: String,
    pub board_type: String,
    pub location: BoardLocation,
}

#[allow(non_snake_case)]
#[derive(Debug)]
pub struct BoardLocation {
    pub displayName: String,
}

/// A sprint of a board.
#[allow(non_snake_case)]
#[derive(Debug)]
pub struct Sprint {
    pub id: usize,
    pub state: String,
    pub name: String,
    pub startDate: Option<String>,
    pub endDate: Option<String>,
    pub completeDate: Option<String>,
    pub originBoardId: usize,
    pub goal: String,
}

/// A Jira project.
#[derive(Debug)]
pub struct Project {
    pub id: String,
    pub key: String,
    pub name: String,
}

/// A page of the issues of a sprint or backlog: the index of its first issue,
/// the page size, the number of issues in the listing, and the issues
/// gathered so far.
#[derive(Debug)]
pub struct Response {
    pub start_at: usize,
    pub max_results: usize,
    pub total: usize,
    pub issues: Vec<Issue>,
}

#[derive(Debug)]
pub struct Issue {
    pub id: String,
    pub key: String,
    pub fields: IssueFields,
}

#[derive(Debug)]
pub struct IssueFields {
    pub summary: String,
    pub description: Option<String>,
    pub status: Status,
    pub updated: String,
    pub issuetype: Type,
    pub assignee: Option<Asignee>,
    pub progress: Progress,
}

#[derive(Debug)]
pub struct Status {
    pub name: String,
    pub status_category: StatusCategory,
}

#[derive(Debug)]
pub struct StatusCategory {
    pub name: String,
}

#[derive(Debug)]
pub struct Type {
    pub name: String,
}

#[derive(Debug)]
pub struct Progress {
    pub progress: Option<usize>,
    pub total: Option<usize>,
    pub percent: Option<usize>,
}

#[derive(Debug)]
pub struct Asignee {
    pub display_name: String,
    pub name: String,
    pub key: String,
}

impl Board {
    /// The request for the sprints of this board.
    pub fn get_sprints(&self, client: &Client) -> (r: Request)
        ensures
            is_get(r, client@, sprints_uri(self.id), None),
    {
        sprints_request(client, self.id)
    }
}

impl Sprint {
    /// The sprint-issues request, from the first issue on, that this sprint
    /// asks for: its own id stands in the board's place of the request and the
    /// id of the board it started on in the sprint's place.
    pub fn get_issues(&self, client: &Client) -> (r: Request)
        ensures
            is_get(r, client@, sprint_issues_uri(self.id, self.originBoardId), start_at(0)),
    {
        sprint_issues_request(client, self.id, self.originBoardId, 0)
    }
}

impl Pickable for Issue {
    open spec fn key_spec(&self) -> Seq<char> {
        self.key@
    }

    /// The key is not shown: the issue's text holds it.
    open spec fn display_key_spec(&self) -> Seq<char> {
        Seq::empty()
    }

    fn get_key(&self) -> (k: String) {
        self.key.clone()
    }

    fn display_key(&self) -> (k: String) {
        String::new()
    }
}

impl Pickable for Board {
    open spec fn key_spec(&self) -> Seq<char> {
        decimal(self.id as nat)
    }

    open spec fn display_key_spec(&self) -> Seq<char> {
        decimal(self.id as nat)
    }

    fn get_key(&self) -> (k: String) {
        decimal_string(self.id)
    }

    fn display_key(&self) -> (k: String) {
        decimal_string(self.id)
    }
}

impl Pickable for Sprint {
    open spec fn key_spec(&self) -> Seq<char> {
        decimal(self.id as nat)
    }

    open spec fn display_key_spec(&self) -> Seq<char> {
        decimal(self.id as nat)
    }

    fn get_key(&self) -> (k: String) {
        decimal_string(self.id)
    }

    fn display_key(&self) -> (k: String) {
        decimal_string(self.id)
    }
}

/// A board is shown by the name of its location.
impl DisplayText for Board {
    open spec fn display_spec(&self) -> Seq<char> {
        self.location.displayName@
    }

    fn display_text(&self) -> (s: String) {
        self.location.displayName.clone()
    }
}

/// A sprint is shown by its name.
impl DisplayText for Sprint {
    open spec fn display_spec(&self) -> Seq<char> {
        self.name@
    }

    fn display_text(&self) -> (s: String) {
        self.name.clone()
    }
}

/// Boards and sprints are picked by their ids: items with different ids have
/// different keys.
pub proof fn lemma_keys_identify_ids(a: usize, b: usize)
    requires
        a != b,
    ensures
        decimal(a as nat) != decimal(b as nat),
{
    if decimal(a as nat) == decimal(b as nat) {
        crate::text::lemma_decimal_injective(a as nat, b as nat);
    }
}

/// In a list of boards with distinct ids, the key of a board is the key of
/// no other board: looking a board up by its key finds that board.
pub proof fn lemma_board_key_unique(boards: Seq<Board>, i: int)
    requires
        0 <= i < boards.len(),
        forall|j: int, k: int|
            0 <= j < boards.len() && 0 <= k < boards.len() && j != k ==> boards[j].id
                != boards[k].id,
    ensures
        forall|j: int|
            0 <= j < boards.len() && #[trigger] boards[j].key_spec() == boards[i].key_spec() ==> j
                == i,
{
    assert forall|j: int|
        0 <= j < boards.len() && #[trigger] boards[j].key_spec() == boards[i].key_spec() implies j
        == i by {
        if j != i {
            lemma_keys_identify_ids(boards[j].id, boards[i].id);
        }
    }
}

/// The name of the assignee, or nothing for an unassigned issue.
pub open spec fn assignee_name(a: Option<Asignee>) -> Seq<char> {
    match a {
        Some(a) => a.display_name@,
        None => Seq::empty(),
    }
}

/// An issue is shown as `| (assignee/status) | summary`, the assignee in
/// dimmed underlined green and the status in dimmed underlined red.
impl DisplayText for Issue {
    open spec fn display_spec(&self) -> Seq<char> {
        "| ("@ + ansi_styled(green_dimmed_underlined_codes(), assignee_name(self.fields.assignee))
            + "/"@ + ansi_styled(red_dimmed_underlined_codes(), self.fields.status.name@)
            + ") | "@ + self.fields.summary@
    }

    fn display_text(&self) -> (s: String) {
        let assignee = match &self.fields.assignee {
            Some(assignee) => assignee.display_name.as_str(),
            None => "",
        };
        proof {
            reveal_strlit("");
        }
        let s = String::from_str("| (").concat(paint_green_dimmed_underlined(assignee).as_str());
        let s = s.concat("/").concat(paint_red_dimmed_underlined(self.fields.status.name.as_str()).as_str());
        s.concat(") | ").concat(self.fields.summary.as_str())
    }
}

/// The issues of the listing after those seen so far.
pub open spec fn distance(start_at: nat, seen: nat, total: nat) -> nat {
    if total > start_at + seen {
        (total - (start_at + seen)) as nat
    } else {
        0
    }
}

/// How many pages of `page_size` issues the `distance` remaining issues fill.
pub open spec fn pages(distance: nat, page_size: nat) -> nat {
    if distance == 0 {
        0
    } else if distance % page_size == 0 {
        distance / page_size
    } else {
        distance / page_size + 1
    }
}

/// A listing that is fetched page by page.
pub trait Paginated {
    /// The index after the last issue seen fits in a `usize`.
    spec fn countable(&self) -> bool;

    /// The arithmetic of the listing stays in range: the last index seen fits
    /// in a `usize`, and the page size is not zero while issues remain.
    spec fn paginable(&self) -> bool;

    spec fn distance_spec(&self) -> nat;

    spec fn pages_spec(&self) -> nat;

    /// The number of issues of the listing after those seen so far.
    fn get_distance_from_top(&self) -> (d: usize)
        requires
            self.countable(),
        ensures
            d == self.distance_spec(),
    ;

    /// The number of pages still to fetch.
    fn get_number_of_pages(&self) -> (p: usize)
        requires
            self.paginable(),
        ensures
            p == self.pages_spec(),
    ;

    /// What can be paged can be counted.
    proof fn lemma_paginable_countable(&self)
        requires
            self.paginable(),
        ensures
            self.countable(),
    ;
}

impl Paginated for Response {
    open spec fn countable(&self) -> bool {
        self.start_at + self.issues@.len() <= usize::MAX
    }

    open spec fn paginable(&self) -> bool {
        &&& self.countable()
        &&& self.distance_spec() > 0 ==> self.max_results > 0
    }

    open spec fn distance_spec(&self) -> nat {
        distance(self.start_at as nat, self.issues@.len(), self.total as nat)
    }

    open spec fn pages_spec(&self) -> nat {
        pages(self.distance_spec(), self.max_results as nat)
    }

    fn get_distance_from_top(&self) -> (d: usize) {
        let total = self.start_at + self.issues.len();
        if self.total > total {
            self.total - total
        } else {
            0
        }
    }

    proof fn lemma_paginable_countable(&self) {
    }

    fn get_number_of_pages(&self) -> (p: usize) {
        let distance = self.get_distance_from_top();
        if distance == 0 {
            0
        } else {
            let page_size = self.max_results;
            if distance % page_size == 0 {
                distance / page_size
            } else {
                assert(page_size >= 2 && distance / page_size < distance) by (nonlinear_arith)
                    requires
                        distance > 0,
                        page_size > 0,
                        distance % page_size != 0,
                ;
                distance / page_size + 1
            }
        }
    }
}

/// The next thing to do while gathering the rest of a listing.
#[derive(Debug)]
pub enum ExhaustStep {
    /// Every issue of the listing has been gathered.
    Done,
    /// Send this request and absorb the page it returns.
    Fetch(Request),
    /// Issues remain, but a backlog is not fetched page by page: nothing is
    /// fetched this round and the listing stays as it is, so every later round
    /// is the same.
    Idle,
}

impl Response {
    /// One round of gathering the rest of a sprint's or backlog's issues: with
    /// pages left, a sprint's listing asks for its issues from the number
    /// gathered so far on.
    pub fn exhaust_step(&self, client: &Client, board_id: usize, sprint_id: Option<usize>) -> (step:
        ExhaustStep)
        requires
            self.paginable(),
        ensures
            self.pages_spec() == 0 ==> step is Done,
            self.pages_spec() > 0 ==> match sprint_id {
                Some(s) => step matches ExhaustStep::Fetch(r) && is_get(
                    r,
                    client@,
                    sprint_issues_uri(board_id, s),
                    start_at(self.issues@.len() as usize),
                ),
                None => step is Idle,
            },
    {
        if self.get_number_of_pages() > 0 {
            match sprint_id {
                Some(sprint_id) => ExhaustStep::Fetch(
                    sprint_issues_request(client, board_id, sprint_id, self.issues.len()),
                ),
                None => ExhaustStep::Idle,
            }
        } else {
            ExhaustStep::Done
        }
    }

    /// Appends the issues of a fetched page to those gathered so far.
    pub fn absorb_page(&mut self, page: Response)
        ensures
            final(self).issues@ == old(self).issues@ + page.issues@,
            final(self).start_at == old(self).start_at,
            final(self).max_results == old(self).max_results,
            final(self).total == old(self).total,
    {
        let mut page = page;
        self.issues.append(&mut page.issues);
    }
}

/// The remaining distance is what the listing holds beyond the first issue
/// of the page and the issues seen from there: together with them it makes up
/// the whole listing while issues remain, and none remain once they reach it.
pub proof fn lemma_distance_is_remaining(start_at: nat, seen: nat, total: nat)
    ensures
        total >= start_at + seen ==> start_at + seen + distance(start_at, seen, total) == total,
        total <= start_at + seen ==> distance(start_at, seen, total) == 0,
        distance(start_at, seen, total) <= total,
{
}

/// The distance read off a response, in terms of its fields: the listing's
/// total less the index of the first issue of the page and the issues
/// gathered, or nothing once they reach the total.
pub proof fn lemma_response_distance(r: Response)
    ensures
        r.total >= r.start_at + r.issues@.len() ==> r.start_at + r.issues@.len()
            + r.distance_spec() == r.total,
        r.total <= r.start_at + r.issues@.len() ==> r.distance_spec() == 0,
{
    lemma_distance_is_remaining(r.start_at as nat, r.issues@.len(), r.total as nat);
}

/// Gathering never overshoots: absorbing a page takes its issues off the
/// remaining distance, and a page holding every remaining issue ends the
/// gathering.
pub proof fn lemma_absorb_page_distance(start_at: nat, seen: nat, total: nat, page: nat, page_size: nat)
    ensures
        distance(start_at, seen + page, total) == if distance(start_at, seen, total) > page {
            (distance(start_at, seen, total) - page) as nat
        } else {
            0
        },
        distance(start_at, seen, total) <= page ==> pages(
            distance(start_at, seen + page, total),
            page_size,
        ) == 0,
{
}

/// Pages cover the remaining issues: as many pages of the page size hold at
/// least the remaining issues, and one page fewer holds fewer.
pub proof fn lemma_pages_cover(d: nat, page_size: nat)
    requires
        page_size > 0,
    ensures
        pages(d, page_size) * page_size >= d,
        pages(d, page_size) > 0 ==> (pages(d, page_size) - 1) * page_size < d,
{
    if d > 0 {
        assert(d == page_size * (d / page_size) + d % page_size) by (nonlinear_arith)
            requires
                page_size > 0,
        ;
        assert(0 <= d % page_size < page_size) by (nonlinear_arith)
            requires
                page_size > 0,
        ;
        if d % page_size == 0 {
            assert((d / page_size) * page_size == d) by (nonlinear_arith)
                requires
                    d == page_size * (d / page_size) + d % page_size,
                    d % page_size == 0,
            ;
            assert(((d / page_size) - 1) * page_size < d) by (nonlinear_arith)
                requires
                    (d / page_size) * page_size == d,
                    page_size > 0,
                    d > 0,
            ;
        } else {
            let q = d / page_size;
            let r = d % page_size;
            assert((q + 1) * page_size >= d) by (nonlinear_arith)
                requires
                    d == page_size * q + r,
                    r < page_size,
            ;
            assert(q * page_size < d) by (nonlinear_arith)
                requires
                    d == page_size * q + r,
                    r > 0,
            ;
        }
    }
}

} // verus!
