//! The decisions behind the `set` and `fetch` commands: from the context, what
//! to fetch and what to ask for, or why the command cannot go on.

use vstd::prelude::*;
use crate::context::{
    validate, recommend, Context, ContextView, Recommendation, RecommendedAction,
};

verus! {

/// Why a `set` command cannot go on.
#[derive(Debug, Clone, Copy, PartialEq, Eq, Structural)]
pub enum Error {
    BoardContextUnavailable,
    SprintContextUnavailable,
    ContextUnparseable,
}

impl Error {
    /// The message shown to the user.
    pub fn message(&self) -> (m: String)
        ensures
            m@ == match self {
                Error::BoardContextUnavailable =>
                    "You have not selected a board. Please select a board to continue"@,
                Error::SprintContextUnavailable =>
                    "You have not selected a sprint. Please select a sprint to continue"@,
                Error::ContextUnparseable =>
                    "Unable to parse context. Please delete your .jira folder and start again"@,
            },
    {
        match self {
            Error::BoardContextUnavailable => String::from_str(
                "You have not selected a board. Please select a board to continue",
            ),
            Error::SprintContextUnavailable => String::from_str(
                "You have not selected a sprint. Please select a sprint to continue",
            ),
            Error::ContextUnparseable => String::from_str(
                "Unable to parse context. Please delete your .jira folder and start again",
            ),
        }
    }
}

/// What a `set` command sets.
#[derive(Debug, Clone, Copy, PartialEq, Eq, Structural)]
pub enum SetTarget {
    Issue,
    Sprint,
    Board,
}

/// The outside work that a `set` command does, in order.
#[derive(Debug, Clone, Copy, PartialEq, Eq, Structural)]
pub enum SetPlan {
    /// Fetch the sprint's issues into the cache, mark them fetched, then let
    /// the user pick one of the cached issues.
    FetchIssuesThenPickIssue { board_id: usize, sprint_id: usize },
    /// Let the user pick one of the cached issues.
    PickIssue,
    /// Fetch the sprints of the board and let the user pick one.
    PickSprint { board_id: usize },
    /// Fetch the boards and let the user pick one.
    PickBoard,
}

/// The plan of `set target` for the context `c`.
///
/// `set issue` needs a board and a sprint: their issues are fetched first
/// where they are not in the cache yet, then an issue is picked, also where
/// one is picked already (switching issues). `set sprint` needs a board and
/// then picks a sprint of it, also where one is set already (switching
/// sprints). `set board` always picks a board. A sprint without a board is a
/// context that cannot be made sense of; only an issue can be picked there,
/// from issues already fetched, while none is picked.
pub open spec fn set_plan(target: SetTarget, c: ContextView) -> Result<SetPlan, Error> {
    match target {
        SetTarget::Issue => match (c.active_board, c.active_sprint) {
            (None, None) => Err(Error::BoardContextUnavailable),
            (Some(_), None) => Err(Error::SprintContextUnavailable),
            (Some(board_id), Some(sprint_id)) => if c.issues_fetched {
                Ok(SetPlan::PickIssue)
            } else {
                Ok(SetPlan::FetchIssuesThenPickIssue { board_id, sprint_id })
            },
            (None, Some(_)) => if c.issues_fetched && c.active_issue is None {
                Ok(SetPlan::PickIssue)
            } else {
                Err(Error::ContextUnparseable)
            },
        },
        SetTarget::Sprint => match (c.active_board, c.active_sprint) {
            (Some(board_id), _) => Ok(SetPlan::PickSprint { board_id }),
            (None, None) => Err(Error::BoardContextUnavailable),
            (None, Some(_)) => Err(Error::ContextUnparseable),
        },
        SetTarget::Board => Ok(SetPlan::PickBoard),
    }
}

/// Decides what `set target` does with `context`.
pub fn plan_set(target: SetTarget, context: &Context) -> (plan: Result<SetPlan, Error>)
    ensures
        plan == set_plan(target, context@),
{
    match target {
        SetTarget::Issue => match validate(context) {
            RecommendedAction::FetchIssues { board_id, sprint_id } => Ok(
                SetPlan::FetchIssuesThenPickIssue { board_id, sprint_id },
            ),
            RecommendedAction::FetchBoard => Err(Error::BoardContextUnavailable),
            RecommendedAction::FetchSprint { .. } => Err(Error::SprintContextUnavailable),
            RecommendedAction::SetIssue => Ok(SetPlan::PickIssue),
            RecommendedAction::FetchAny { .. } => Ok(SetPlan::PickIssue),
            RecommendedAction::NoAction => Err(Error::ContextUnparseable),
        },
        SetTarget::Sprint => match context.active_board {
            Some(board_id) => Ok(SetPlan::PickSprint { board_id }),
            None => match context.active_sprint {
                None => Err(Error::BoardContextUnavailable),
                Some(_) => Err(Error::ContextUnparseable),
            },
        },
        SetTarget::Board => Ok(SetPlan::PickBoard),
    }
}

/// What `fetch issues` does.
#[derive(Debug, Clone, Copy, PartialEq, Eq, Structural)]
pub enum FetchPlan {
    /// Fetch the issues of the sprint into the cache.
    FetchIssues { board_id: usize, sprint_id: usize },
    /// Tell the user that no sprint is set.
    NeedSprint,
    /// Tell the user that no board is set.
    NeedBoard,
    /// Do nothing.
    Nothing,
}

/// The plan of `fetch issues` for a context with the given recommendation.
pub open spec fn fetch_plan(r: Recommendation) -> FetchPlan {
    match r {
        Recommendation::FetchIssues { board_id, sprint_id } => FetchPlan::FetchIssues {
            board_id,
            sprint_id,
        },
        Recommendation::FetchAny { board_id, sprint_id, .. } => FetchPlan::FetchIssues {
            board_id,
            sprint_id,
        },
        Recommendation::FetchSprint { .. } => FetchPlan::NeedSprint,
        Recommendation::FetchBoard => FetchPlan::NeedBoard,
        _ => FetchPlan::Nothing,
    }
}

/// Decides what `fetch issues` does with `context`.
pub fn plan_fetch_issues(context: &Context) -> (plan: FetchPlan)
    ensures
        plan == fetch_plan(recommend(context@)),
{
    match validate(context) {
        RecommendedAction::FetchIssues { board_id, sprint_id } => FetchPlan::FetchIssues {
            board_id,
            sprint_id,
        },
        RecommendedAction::FetchAny { board_id, sprint_id, .. } => FetchPlan::FetchIssues {
            board_id,
            sprint_id,
        },
        RecommendedAction::FetchSprint { .. } => FetchPlan::NeedSprint,
        RecommendedAction::FetchBoard => FetchPlan::NeedBoard,
        _ => FetchPlan::Nothing,
    }
}

impl FetchPlan {
    /// What the user is told, if anything.
    pub fn message(&self) -> (m: Option<String>)
        ensures
            match self {
                FetchPlan::NeedSprint => m is Some && m->0@
                    == "You don't have a sprint context set up. Run jira set sprint"@,
                FetchPlan::NeedBoard => m is Some && m->0@
                    == "You don't have a board context set up. Run jira set board"@,
                _ => m is None,
            },
    {
        match self {
            FetchPlan::NeedSprint => Some(
                String::from_str("You don't have a sprint context set up. Run jira set sprint"),
            ),
            FetchPlan::NeedBoard => Some(
                String::from_str("You don't have a board context set up. Run jira set board"),
            ),
            _ => None,
        }
    }
}

/// `set issue` goes on whenever a board and a sprint are set, also where an
/// issue is picked already; it fetches the issues where they are not fetched.
pub proof fn lemma_set_issue_goes_on(c: ContextView)
    requires
        c.active_board is Some,
        c.active_sprint is Some,
    ensures
        set_plan(SetTarget::Issue, c) == if c.issues_fetched {
            Ok::<SetPlan, Error>(SetPlan::PickIssue)
        } else {
            Ok::<SetPlan, Error>(
                SetPlan::FetchIssuesThenPickIssue {
                    board_id: c.active_board->0,
                    sprint_id: c.active_sprint->0,
                },
            )
        },
{
}

/// `set issue` with a board and a sprint: once the fetch (where planned) is
/// recorded and an issue is picked, that issue is the active one and the
/// context is complete, with the same board and sprint.
pub proof fn lemma_set_issue_switches(c: ContextView, key: Seq<char>)
    requires
        c.active_board is Some,
        c.active_sprint is Some,
    ensures
        recommend(c.with_issues_fetched().with_issue(key)) == (Recommendation::FetchAny {
            board_id: c.active_board->0,
            sprint_id: c.active_sprint->0,
            issue_id: key,
        }),
        c.with_issues_fetched().with_issue(key).active_issue == Some(key),
{
}

/// `set sprint` goes on whenever a board is set, also where a sprint is set
/// already; once a sprint is picked, that sprint is the active one and its
/// issues are asked for, on the same board.
pub proof fn lemma_set_sprint_switches(c: ContextView, sprint_id: usize)
    requires
        c.active_board is Some,
    ensures
        set_plan(SetTarget::Sprint, c) == Ok::<SetPlan, Error>(
            SetPlan::PickSprint { board_id: c.active_board->0 },
        ),
        recommend(c.with_sprint(sprint_id)) == (Recommendation::FetchIssues {
            board_id: c.active_board->0,
            sprint_id,
        }),
{
}

/// `set issue` is refused where the board is missing with no sprint, and where
/// a board is set without a sprint, whatever issue is active and whatever the
/// cache holds; `set sprint` is refused without a board.
pub proof fn lemma_set_refused_without_context(c: ContextView)
    ensures
        (c.active_board is None && c.active_sprint is None) ==> set_plan(SetTarget::Issue, c)
            == Err::<SetPlan, Error>(Error::BoardContextUnavailable),
        (c.active_board is Some && c.active_sprint is None) ==> set_plan(SetTarget::Issue, c)
            == Err::<SetPlan, Error>(Error::SprintContextUnavailable),
        (c.active_board is None && c.active_sprint is None) ==> set_plan(SetTarget::Sprint, c)
            == Err::<SetPlan, Error>(Error::BoardContextUnavailable),
        c.active_board is None ==> set_plan(SetTarget::Sprint, c) is Err,
{
}

/// `set issue` and `set sprint` are refused only where their context is
/// missing: without a board (or, for an issue, without a sprint).
pub proof fn lemma_set_refused_only_without_context(c: ContextView, target: SetTarget)
    ensures
        set_plan(target, c) is Err ==> match target {
            SetTarget::Issue => c.active_board is None || c.active_sprint is None,
            SetTarget::Sprint => c.active_board is None,
            SetTarget::Board => false,
        },
{
}

/// `set board` always goes on, and once a board is picked its sprints are
/// asked for.
pub proof fn lemma_set_board_then_sprint(c: ContextView, board_id: usize)
    ensures
        set_plan(SetTarget::Board, c) == Ok::<SetPlan, Error>(SetPlan::PickBoard),
        recommend(c.with_board(board_id)) == (Recommendation::FetchSprint { board_id }),
{
}

/// `fetch issues` fetches exactly the board and sprint of the context.
pub proof fn lemma_fetch_names_context(c: ContextView)
    ensures
        fetch_plan(recommend(c)) matches FetchPlan::FetchIssues { board_id, sprint_id } ==> (
        c.active_board == Some(board_id) && c.active_sprint == Some(sprint_id)),
{
}

} // verus!
