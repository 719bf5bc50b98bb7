//! The active Jira context (board, sprint, issue), what to do next given a
//! context, and how each `set`/`fetch` command moves it along.

use vstd::prelude::*;

verus! {

/// The board, sprint and issue the user works on, and whether the issues of
/// the active sprint have been fetched into the cache.
#[derive(Debug, Clone)]
pub struct Context {
    pub active_board: Option<usize>,
    pub active_issue: Option<String>,
    pub active_sprint: Option<usize>,
    pub issues_fetched: bool,
}

/// A context with the issue key taken by its characters.
pub struct ContextView {
    pub active_board: Option<usize>,
    pub active_issue: Option<Seq<char>>,
    pub active_sprint: Option<usize>,
    pub issues_fetched: bool,
}

pub open spec fn option_string_view(o: Option<String>) -> Option<Seq<char>> {
    match o {
        Some(s) => Some(s@),
        None => None,
    }
}

impl View for Context {
    type V = ContextView;

    open spec fn view(&self) -> ContextView {
        ContextView {
            active_board: self.active_board,
            active_issue: option_string_view(self.active_issue),
            active_sprint: self.active_sprint,
            issues_fetched: self.issues_fetched,
        }
    }
}

/// The context of a fresh session: nothing selected, nothing fetched.
pub open spec fn empty_context() -> ContextView {
    ContextView {
        active_board: None,
        active_issue: None,
        active_sprint: None,
        issues_fetched: false,
    }
}

impl ContextView {
    /// After a board is picked: the sprint is dropped and the cache is stale.
    pub open spec fn with_board(self, board_id: usize) -> ContextView {
        ContextView {
            active_board: Some(board_id),
            active_sprint: None,
            issues_fetched: false,
            ..self
        }
    }

    /// After a sprint is picked: the cache is stale.
    pub open spec fn with_sprint(self, sprint_id: usize) -> ContextView {
        ContextView { active_sprint: Some(sprint_id), issues_fetched: false, ..self }
    }

    /// After the issues of the active sprint were fetched into the cache.
    pub open spec fn with_issues_fetched(self) -> ContextView {
        ContextView { issues_fetched: true, ..self }
    }

    /// After an issue is picked.
    pub open spec fn with_issue(self, key: Seq<char>) -> ContextView {
        ContextView { active_issue: Some(key), ..self }
    }
}

/// What the tool should ask the user to do next.
#[derive(Debug)]
pub enum RecommendedAction {
    FetchBoard,
    FetchSprint { board_id: usize },
    FetchIssues { board_id: usize, sprint_id: usize },
    SetIssue,
    FetchAny { board_id: usize, sprint_id: usize, issue_id: String },
    NoAction,
}

/// A recommendation with the issue key taken by its characters.
pub enum Recommendation {
    FetchBoard,
    FetchSprint { board_id: usize },
    FetchIssues { board_id: usize, sprint_id: usize },
    SetIssue,
    FetchAny { board_id: usize, sprint_id: usize, issue_id: Seq<char> },
    NoAction,
}

impl View for RecommendedAction {
    type V = Recommendation;

    open spec fn view(&self) -> Recommendation {
        match self {
            RecommendedAction::FetchBoard => Recommendation::FetchBoard,
            RecommendedAction::FetchSprint { board_id } => Recommendation::FetchSprint {
                board_id: *board_id,
            },
            RecommendedAction::FetchIssues { board_id, sprint_id } =>
                Recommendation::FetchIssues { board_id: *board_id, sprint_id: *sprint_id },
            RecommendedAction::SetIssue => Recommendation::SetIssue,
            RecommendedAction::FetchAny { board_id, sprint_id, issue_id } =>
                Recommendation::FetchAny {
                    board_id: *board_id,
                    sprint_id: *sprint_id,
                    issue_id: issue_id@,
                },
            RecommendedAction::NoAction => Recommendation::NoAction,
        }
    }
}

/// The recommendation for a context, the rules tried in order: no board and
/// no sprint asks for a board; a board without a sprint asks for a sprint; a
/// board and a sprint whose issues were not fetched ask for the issues; fetched
/// issues without an active issue ask for an issue; a full context may fetch
/// anything; every other context needs nothing.
pub open spec fn recommend(c: ContextView) -> Recommendation {
    match (c.active_board, c.active_sprint) {
        (None, None) => Recommendation::FetchBoard,
        (Some(b), None) => Recommendation::FetchSprint { board_id: b },
        (Some(b), Some(s)) if !c.issues_fetched => Recommendation::FetchIssues {
            board_id: b,
            sprint_id: s,
        },
        _ => if c.active_issue is None && c.issues_fetched {
            Recommendation::SetIssue
        } else {
            match (c.active_board, c.active_sprint, c.active_issue) {
                (Some(b), Some(s), Some(i)) => Recommendation::FetchAny {
                    board_id: b,
                    sprint_id: s,
                    issue_id: i,
                },
                _ => Recommendation::NoAction,
            }
        },
    }
}

/// Works out what the user should do next with `context`.
pub fn validate(context: &Context) -> (action: RecommendedAction)
    ensures
        action@ == recommend(context@),
{
    match context {
        Context { active_board: None, active_sprint: None, .. } => RecommendedAction::FetchBoard,
        Context { active_board: Some(active_board), active_sprint: None, .. } =>
            RecommendedAction::FetchSprint { board_id: *active_board },
        Context {
            active_sprint: Some(active_sprint),
            active_board: Some(active_board),
            issues_fetched: false,
            ..
        } => RecommendedAction::FetchIssues {
            board_id: *active_board,
            sprint_id: *active_sprint,
        },
        Context { active_issue: None, issues_fetched: true, .. } => RecommendedAction::SetIssue,
        Context {
            active_sprint: Some(sprint_id),
            active_board: Some(board_id),
            active_issue: Some(issue_id),
            ..
        } => RecommendedAction::FetchAny {
            board_id: *board_id,
            sprint_id: *sprint_id,
            issue_id: issue_id.clone(),
        },
        _ => RecommendedAction::NoAction,
    }
}

impl Context {
    /// A context with nothing selected and nothing fetched.
    pub fn empty() -> (c: Context)
        ensures
            c@ == empty_context(),
    {
        Context { active_board: None, active_issue: None, active_sprint: None, issues_fetched: false }
    }

    /// Makes `board_id` the active board; the sprint is dropped and the cached
    /// issues no longer count as fetched.
    pub fn select_board(&mut self, board_id: usize)
        ensures
            final(self)@ == old(self)@.with_board(board_id),
    {
        self.active_board = Some(board_id);
        self.active_sprint = None;
        self.issues_fetched = false;
    }

    /// Makes `sprint_id` the active sprint; the cached issues no longer count
    /// as fetched.
    pub fn select_sprint(&mut self, sprint_id: usize)
        ensures
            final(self)@ == old(self)@.with_sprint(sprint_id),
    {
        self.active_sprint = Some(sprint_id);
        self.issues_fetched = false;
    }

    /// Records that the issues of the active sprint are in the cache.
    pub fn mark_issues_fetched(&mut self)
        ensures
            final(self)@ == old(self)@.with_issues_fetched(),
    {
        self.issues_fetched = true;
    }

    /// Makes the issue with key `key` the active issue.
    pub fn select_issue(&mut self, key: &str)
        ensures
            final(self)@ == old(self)@.with_issue(key@),
    {
        self.active_issue = Some(String::from_str(key));
    }
}

/// A fresh context asks for a board first.
pub proof fn lemma_empty_context_asks_for_board()
    ensures
        recommend(empty_context()) == Recommendation::FetchBoard,
{
}

/// Whatever the context, picking a board then asks for a sprint of that board.
pub proof fn lemma_board_then_sprint(c: ContextView, board_id: usize)
    ensures
        recommend(c.with_board(board_id)) == (Recommendation::FetchSprint { board_id }),
{
}

/// With a board active, picking a sprint then asks for that sprint's issues.
pub proof fn lemma_sprint_then_issues(c: ContextView, sprint_id: usize)
    requires
        c.active_board is Some,
    ensures
        recommend(c.with_sprint(sprint_id)) == (Recommendation::FetchIssues {
            board_id: c.active_board->0,
            sprint_id,
        }),
{
}

/// Once the issues are fetched and no issue is active, an issue is asked for.
pub proof fn lemma_fetched_then_issue(c: ContextView)
    requires
        c.active_issue is None,
        c.active_sprint is Some,
    ensures
        recommend(c.with_issues_fetched()) == Recommendation::SetIssue,
{
}

/// With board and sprint active and the issues fetched, picking an issue
/// completes the context.
pub proof fn lemma_issue_completes(c: ContextView, key: Seq<char>)
    requires
        c.active_board is Some,
        c.active_sprint is Some,
        c.issues_fetched,
    ensures
        recommend(c.with_issue(key)) == (Recommendation::FetchAny {
            board_id: c.active_board->0,
            sprint_id: c.active_sprint->0,
            issue_id: key,
        }),
{
}

/// Every id that a recommendation names is the one in the context.
pub proof fn lemma_recommendation_names_context(c: ContextView)
    ensures
        match recommend(c) {
            Recommendation::FetchSprint { board_id } => c.active_board == Some(board_id),
            Recommendation::FetchIssues { board_id, sprint_id } => c.active_board == Some(board_id)
                && c.active_sprint == Some(sprint_id) && !c.issues_fetched,
            Recommendation::FetchAny { board_id, sprint_id, issue_id } => c.active_board == Some(
                board_id,
            ) && c.active_sprint == Some(sprint_id) && c.active_issue == Some(issue_id)
                && c.issues_fetched,
            Recommendation::SetIssue => c.active_issue is None && c.issues_fetched,
            Recommendation::FetchBoard => c.active_board is None && c.active_sprint is None,
            Recommendation::NoAction => c.active_board is None && c.active_sprint is Some,
        },
{
}

} // verus!
