use jira_cli::paths::{discovery_paths, first_existing, join_path, parent_dir, Workspace};
use jira_cli::text::{decimal_string, replace_char};
use jira_cli::style::prompt_text;

#[test]
fn decimal_strings() {
    assert_eq!(decimal_string(0), "0");
    assert_eq!(decimal_string(7), "7");
    assert_eq!(decimal_string(42), "42");
    assert_eq!(decimal_string(1000), "1000");
    assert_eq!(decimal_string(usize::MAX), format!("{}", usize::MAX));
}

#[test]
fn replacing_characters() {
    assert_eq!(replace_char("a_b_c", '_', '-'), "a-b-c");
    assert_eq!(replace_char("", '_', '-'), "");
    assert_eq!(replace_char("héllo wörld", ' ', '-'), "héllo-wörld");
}

#[test]
fn joining_paths_like_pathbuf_push() {
    assert_eq!(join_path("/home/u", "x.yml"), "/home/u/x.yml");
    assert_eq!(join_path("/home/u/", "x.yml"), "/home/u/x.yml");
    assert_eq!(join_path("", "x.yml"), "x.yml");
    assert_eq!(join_path("/home/u", "/etc/x"), "/etc/x");
    assert_eq!(join_path("a", ""), "a/");
    assert_eq!(join_path("/p", "./.jira"), "/p/./.jira");
    for (base, p) in [("/a/b", "c"), ("/a/b/", "c/d"), ("rel", "x"), ("/a", "/b"), ("", "")] {
        let mut buf = std::path::PathBuf::from(base);
        buf.push(p);
        assert_eq!(join_path(base, p), buf.to_str().unwrap());
    }
}

#[test]
fn workspace_paths() {
    let ws = Workspace::new("/home/u/project/.jira");
    assert_eq!(ws.workdir_path(), "/home/u/project/.jira");
    assert_eq!(ws.get_path("./session.yml"), "/home/u/project/.jira/./session.yml");
    assert_eq!(ws.get_path("/tmp/other"), "/tmp/other");
    let child = ws.child_workspace("issue-cache");
    assert_eq!(child.workdir_path(), "/home/u/project/.jira/issue-cache");
}

#[test]
fn prompt_is_green() {
    assert_eq!(prompt_text("Enter your email"), "\x1b[32mEnter your email\x1b[0m: ");
}

#[test]
fn parents_and_discovery() {
    assert_eq!(parent_dir("/home/u/p").as_deref(), Some("/home/u"));
    assert_eq!(parent_dir("/home").as_deref(), Some("/"));
    assert_eq!(parent_dir("/"), None);
    assert_eq!(parent_dir("a"), Some(String::new()));
    assert_eq!(parent_dir(""), None);
    assert_eq!(
        discovery_paths("/home/u", "./.jira"),
        vec!["/home/u/./.jira".to_string(), "/home/./.jira".to_string(), "/./.jira".to_string()]
    );
    assert_eq!(discovery_paths("/", ".jira"), vec!["/.jira".to_string()]);
    // the same places, in the same order, as std's ancestors
    let cwd = std::path::Path::new("/a/b/c");
    let expected: Vec<String> =
        cwd.ancestors().map(|a| a.join(".jira").to_str().unwrap().to_string()).collect();
    assert_eq!(discovery_paths("/a/b/c", ".jira"), expected);
}

#[test]
fn first_existing_candidate() {
    assert_eq!(first_existing(&[false, true, true]), Some(1));
    assert_eq!(first_existing(&[true]), Some(0));
    assert_eq!(first_existing(&[false, false]), None);
    assert_eq!(first_existing(&[]), None);
}
