use jira_cli::commands::{plan_fetch_issues, plan_set, Error, FetchPlan, SetPlan, SetTarget};
use jira_cli::context::{validate, Context, RecommendedAction};

fn ctx(board: Option<usize>, sprint: Option<usize>, issue: Option<&str>, fetched: bool) -> Context {
    Context {
        active_board: board,
        active_issue: issue.map(|s| s.to_string()),
        active_sprint: sprint,
        issues_fetched: fetched,
    }
}

#[test]
fn empty_context_asks_for_board() {
    assert!(matches!(validate(&Context::empty()), RecommendedAction::FetchBoard));
}

#[test]
fn board_without_sprint_asks_for_sprint() {
    match validate(&ctx(Some(7), None, None, false)) {
        RecommendedAction::FetchSprint { board_id } => assert_eq!(board_id, 7),
        other => panic!("unexpected {:?}", other),
    }
    // the rules are tried in order: fetched issues do not matter without a sprint
    assert!(matches!(
        validate(&ctx(Some(7), None, Some("A-1"), true)),
        RecommendedAction::FetchSprint { board_id: 7 }
    ));
}

#[test]
fn unfetched_sprint_asks_for_issues() {
    assert!(matches!(
        validate(&ctx(Some(3), Some(9), Some("A-1"), false)),
        RecommendedAction::FetchIssues { board_id: 3, sprint_id: 9 }
    ));
}

#[test]
fn fetched_without_issue_asks_for_issue() {
    assert!(matches!(validate(&ctx(Some(3), Some(9), None, true)), RecommendedAction::SetIssue));
    assert!(matches!(validate(&ctx(None, Some(9), None, true)), RecommendedAction::SetIssue));
}

#[test]
fn full_context_may_fetch_anything() {
    match validate(&ctx(Some(3), Some(9), Some("PROJ-1"), true)) {
        RecommendedAction::FetchAny { board_id, sprint_id, issue_id } => {
            assert_eq!((board_id, sprint_id, issue_id.as_str()), (3, 9, "PROJ-1"));
        }
        other => panic!("unexpected {:?}", other),
    }
}

#[test]
fn sprint_without_board_needs_nothing() {
    assert!(matches!(validate(&ctx(None, Some(9), None, false)), RecommendedAction::NoAction));
    assert!(matches!(validate(&ctx(None, Some(9), Some("X-2"), true)), RecommendedAction::NoAction));
}

#[test]
fn selecting_moves_the_context_along() {
    let mut c = Context::empty();
    c.select_board(4);
    assert!(matches!(validate(&c), RecommendedAction::FetchSprint { board_id: 4 }));
    c.select_sprint(11);
    assert!(matches!(validate(&c), RecommendedAction::FetchIssues { board_id: 4, sprint_id: 11 }));
    c.mark_issues_fetched();
    assert!(matches!(validate(&c), RecommendedAction::SetIssue));
    c.select_issue("ABC-12");
    match validate(&c) {
        RecommendedAction::FetchAny { board_id, sprint_id, issue_id } => {
            assert_eq!((board_id, sprint_id, issue_id.as_str()), (4, 11, "ABC-12"));
        }
        other => panic!("unexpected {:?}", other),
    }
    // picking another board drops the sprint and the fetched issues, keeps the issue
    c.select_board(5);
    assert_eq!(c.active_sprint, None);
    assert!(!c.issues_fetched);
    assert_eq!(c.active_issue.as_deref(), Some("ABC-12"));
    assert!(matches!(validate(&c), RecommendedAction::FetchSprint { board_id: 5 }));
}

#[test]
fn set_issue_plans() {
    assert_eq!(
        plan_set(SetTarget::Issue, &ctx(Some(1), Some(2), None, false)),
        Ok(SetPlan::FetchIssuesThenPickIssue { board_id: 1, sprint_id: 2 })
    );
    assert_eq!(plan_set(SetTarget::Issue, &ctx(Some(1), Some(2), None, true)), Ok(SetPlan::PickIssue));
    assert_eq!(plan_set(SetTarget::Issue, &Context::empty()), Err(Error::BoardContextUnavailable));
    assert_eq!(
        plan_set(SetTarget::Issue, &ctx(Some(1), None, None, false)),
        Err(Error::SprintContextUnavailable)
    );
    // switching to another issue
    assert_eq!(plan_set(SetTarget::Issue, &ctx(Some(1), Some(2), Some("K-1"), true)), Ok(SetPlan::PickIssue));
    assert_eq!(
        plan_set(SetTarget::Issue, &ctx(Some(1), Some(2), Some("K-1"), false)),
        Ok(SetPlan::FetchIssuesThenPickIssue { board_id: 1, sprint_id: 2 })
    );
    // a sprint without a board
    assert_eq!(plan_set(SetTarget::Issue, &ctx(None, Some(2), None, true)), Ok(SetPlan::PickIssue));
    assert_eq!(plan_set(SetTarget::Issue, &ctx(None, Some(2), None, false)), Err(Error::ContextUnparseable));
    assert_eq!(plan_set(SetTarget::Issue, &ctx(None, Some(2), Some("K-1"), true)), Err(Error::ContextUnparseable));
}

#[test]
fn switching_issues() {
    let mut c = ctx(Some(1), Some(2), Some("K-1"), true);
    assert_eq!(plan_set(SetTarget::Issue, &c), Ok(SetPlan::PickIssue));
    c.select_issue("K-2");
    assert_eq!(c.active_issue.as_deref(), Some("K-2"));
    assert!(matches!(validate(&c), RecommendedAction::FetchAny { board_id: 1, sprint_id: 2, .. }));
}

#[test]
fn set_sprint_and_board_plans() {
    assert_eq!(plan_set(SetTarget::Sprint, &Context::empty()), Err(Error::BoardContextUnavailable));
    assert_eq!(
        plan_set(SetTarget::Sprint, &ctx(Some(8), None, None, false)),
        Ok(SetPlan::PickSprint { board_id: 8 })
    );
    assert_eq!(
        plan_set(SetTarget::Sprint, &ctx(Some(8), Some(1), Some("K-1"), true)),
        Ok(SetPlan::PickSprint { board_id: 8 })
    );
    // switching to another sprint
    assert_eq!(
        plan_set(SetTarget::Sprint, &ctx(Some(8), Some(1), None, false)),
        Ok(SetPlan::PickSprint { board_id: 8 })
    );
    assert_eq!(
        plan_set(SetTarget::Sprint, &ctx(Some(8), Some(1), None, true)),
        Ok(SetPlan::PickSprint { board_id: 8 })
    );
    assert_eq!(plan_set(SetTarget::Sprint, &ctx(None, Some(1), None, true)), Err(Error::ContextUnparseable));
    assert_eq!(plan_set(SetTarget::Board, &ctx(Some(8), Some(1), None, false)), Ok(SetPlan::PickBoard));
    assert_eq!(plan_set(SetTarget::Board, &Context::empty()), Ok(SetPlan::PickBoard));
}

#[test]
fn fetch_issues_plans() {
    assert_eq!(
        plan_fetch_issues(&ctx(Some(1), Some(2), None, false)),
        FetchPlan::FetchIssues { board_id: 1, sprint_id: 2 }
    );
    assert_eq!(
        plan_fetch_issues(&ctx(Some(1), Some(2), Some("K-9"), true)),
        FetchPlan::FetchIssues { board_id: 1, sprint_id: 2 }
    );
    assert_eq!(plan_fetch_issues(&ctx(Some(1), None, None, false)), FetchPlan::NeedSprint);
    assert_eq!(plan_fetch_issues(&Context::empty()), FetchPlan::NeedBoard);
    assert_eq!(plan_fetch_issues(&ctx(Some(1), Some(2), None, true)), FetchPlan::Nothing);
    assert_eq!(
        FetchPlan::NeedSprint.message().unwrap(),
        "You don't have a sprint context set up. Run jira set sprint"
    );
    assert_eq!(
        FetchPlan::NeedBoard.message().unwrap(),
        "You don't have a board context set up. Run jira set board"
    );
    assert!(FetchPlan::Nothing.message().is_none());
}

#[test]
fn error_messages() {
    assert_eq!(
        Error::BoardContextUnavailable.message(),
        "You have not selected a board. Please select a board to continue"
    );
    assert_eq!(
        Error::SprintContextUnavailable.message(),
        "You have not selected a sprint. Please select a sprint to continue"
    );
    assert_eq!(
        Error::ContextUnparseable.message(),
        "Unable to parse context. Please delete your .jira folder and start again"
    );
}
