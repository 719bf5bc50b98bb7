use jira_cli::api::{
    backlog_request, boards_request, issue_request, projects_request, sprint_issues_request,
    sprints_request, Asignee, Board, BoardLocation, Client, ExhaustStep, Issue, IssueFields,
    Paginated, Progress, Request, Response, Sprint, Status, StatusCategory, Type,
};
use jira_cli::pick::{pick_list_text, position_of_key, DisplayText, Pickable};

fn client() -> Client {
    Client::new("company.atlassian.net", "SECRET-REDACTED", "me@company.com")
}

fn issue(key: &str, summary: &str, assignee: Option<&str>, status: &str) -> Issue {
    Issue {
        id: "10001".to_string(),
        key: key.to_string(),
        fields: IssueFields {
            summary: summary.to_string(),
            description: None,
            status: Status {
                name: status.to_string(),
                status_category: StatusCategory { name: "To Do".to_string() },
            },
            updated: "2019-01-01".to_string(),
            issuetype: Type { name: "Task".to_string() },
            assignee: assignee.map(|a| Asignee {
                display_name: a.to_string(),
                name: "jdoe".to_string(),
                key: "jdoe".to_string(),
            }),
            progress: Progress { progress: None, total: None, percent: None },
        },
    }
}

fn board(id: usize, name: &str) -> Board {
    Board {
        id,
        name: name.to_string(),
        board_type: "scrum".to_string(),
        location: BoardLocation { displayName: format!("{} (PRJ)", name) },
    }
}

fn sprint(id: usize, board: usize, name: &str) -> Sprint {
    Sprint {
        id,
        state: "active".to_string(),
        name: name.to_string(),
        startDate: None,
        endDate: None,
        completeDate: None,
        originBoardId: board,
        goal: String::new(),
    }
}

fn assert_get(r: &Request, url: &str, query: Option<(&str, &str)>) {
    assert_eq!(r.url, url);
    assert_eq!(r.user, "me@company.com");
    assert_eq!(r.password, "SECRET-REDACTED");
    match query {
        None => assert!(r.query.is_none()),
        Some((n, v)) => {
            let q = r.query.as_ref().unwrap();
            assert_eq!((q.name.as_str(), q.value.as_str()), (n, v));
        }
    }
}

#[test]
fn client_urls() {
    let c = client();
    assert_eq!(c.create_url("/rest/agile/1.0/board"), "https://company.atlassian.net/rest/agile/1.0/board");
    assert_eq!(c.jira_host(), "company.atlassian.net");
    assert_eq!(c.api_key(), "SECRET-REDACTED");
    assert_eq!(c.email(), "me@company.com");
}

#[test]
fn requests() {
    let c = client();
    assert_get(&boards_request(&c), "https://company.atlassian.net/rest/agile/1.0/board", None);
    assert_get(&sprints_request(&c, 12), "https://company.atlassian.net/rest/agile/1.0/board/12/sprint", None);
    assert_get(
        &sprint_issues_request(&c, 12, 345, 50),
        "https://company.atlassian.net/rest/agile/1.0/board/12/sprint/345/issue",
        Some(("startAt", "50")),
    );
    assert_get(
        &backlog_request(&c, 3, 0),
        "https://company.atlassian.net/rest/agile/1.0/board/3/backlog",
        Some(("startAt", "0")),
    );
    assert_get(&issue_request(&c, "PRJ-7"), "https://company.atlassian.net/rest/agile/1.0/issue/PRJ-7", None);
    assert_get(&projects_request(&c), "https://company.atlassian.net/rest/api/2/project", None);
    assert_get(&board(5, "B").get_sprints(&c), "https://company.atlassian.net/rest/agile/1.0/board/5/sprint", None);
    assert_get(
        &sprint(77, 5, "S").get_issues(&c),
        "https://company.atlassian.net/rest/agile/1.0/board/77/sprint/5/issue",
        Some(("startAt", "0")),
    );
}

#[test]
fn pickable_keys_and_texts() {
    let i = issue("PRJ-1", "Fix login", Some("Jane Doe"), "In Progress");
    assert_eq!(i.get_key(), "PRJ-1");
    assert_eq!(i.display_key(), "");
    assert_eq!(
        i.display_text(),
        "| (\x1b[2;4;32mJane Doe\x1b[0m/\x1b[2;4;31mIn Progress\x1b[0m) | Fix login"
    );
    let unassigned = issue("PRJ-2", "Docs", None, "Done");
    assert_eq!(unassigned.display_text(), "| (\x1b[2;4;32m\x1b[0m/\x1b[2;4;31mDone\x1b[0m) | Docs");
    let b = board(42, "Team");
    assert_eq!(b.get_key(), "42");
    assert_eq!(b.display_key(), "42");
    assert_eq!(b.display_text(), "Team (PRJ)");
    let s = sprint(9, 42, "Sprint 9");
    assert_eq!(s.get_key(), "9");
    assert_eq!(s.display_key(), "9");
    assert_eq!(s.display_text(), "Sprint 9");
}

#[test]
fn pick_list_and_lookup() {
    let boards = vec![board(1, "A"), board(20, "B")];
    assert_eq!(pick_list_text(&boards), "1 A (PRJ)\n20 B (PRJ)\n");
    assert_eq!(pick_list_text::<Board>(&[]), "");
    assert_eq!(position_of_key(&boards, "20"), Some(1));
    assert_eq!(position_of_key(&boards, "2"), None);
    let dup = vec![sprint(3, 1, "x"), sprint(3, 1, "y")];
    assert_eq!(position_of_key(&dup, "3"), Some(0));
}

fn response(start_at: usize, max_results: usize, total: usize, n: usize) -> Response {
    Response {
        start_at,
        max_results,
        total,
        issues: (0..n).map(|i| issue(&format!("K-{}", i), "s", None, "Open")).collect(),
    }
}

#[test]
fn pagination() {
    let r = response(0, 50, 120, 50);
    assert_eq!(r.get_distance_from_top(), 70);
    assert_eq!(r.get_number_of_pages(), 2);
    let r = response(0, 10, 30, 10);
    assert_eq!(r.get_distance_from_top(), 20);
    assert_eq!(r.get_number_of_pages(), 2);
    let r = response(10, 10, 15, 10);
    assert_eq!(r.get_distance_from_top(), 0);
    assert_eq!(r.get_number_of_pages(), 0);
    // nothing remains: the page size does not matter
    let r = response(0, 0, 3, 3);
    assert_eq!(r.get_number_of_pages(), 0);
    // the distance needs no page size
    let r = response(0, 0, 9, 3);
    assert_eq!(r.get_distance_from_top(), 6);
    let r = response(0, 1, 5, 2);
    assert_eq!(r.get_number_of_pages(), 3);
}

#[test]
fn exhausting_a_sprint() {
    let c = client();
    let mut r = response(0, 2, 5, 2);
    match r.exhaust_step(&c, 3, Some(8)) {
        ExhaustStep::Fetch(q) => assert_get(
            &q,
            "https://company.atlassian.net/rest/agile/1.0/board/3/sprint/8/issue",
            Some(("startAt", "2")),
        ),
        other => panic!("unexpected {:?}", other),
    }
    assert!(matches!(r.exhaust_step(&c, 3, None), ExhaustStep::Idle));
    r.absorb_page(response(2, 2, 5, 3));
    assert_eq!(r.issues.len(), 5);
    assert_eq!((r.start_at, r.max_results, r.total), (0, 2, 5));
    assert!(matches!(r.exhaust_step(&c, 3, Some(8)), ExhaustStep::Done));
}
