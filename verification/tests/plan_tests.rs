use rop::Query;
use rop::plan::Action;
use rop::plan::PlannedAction;
use rop::plan::Verb;
use rop::plan::outcome_for;
use rop::query::operations::Execution;
use rop::query::operations::PatternError;
use rop::query::operations::copy;
use rop::query::operations::extract;
use rop::query::operations::list;
use rop::query::operations::move_files;
use rop::query::operations::remove;

fn args(words: &[&str]) -> Vec<String> {
    words.iter().map(|w| w.to_string()).collect()
}

fn names(words: &[&str]) -> Vec<String> {
    words.iter().map(|w| w.to_string()).collect()
}

fn run_actions(q: &Query, entries: &Vec<String>) -> (Option<String>, Vec<PlannedAction>) {
    match q.execute(entries).unwrap() {
        Execution::Run { create_dir, actions } => (create_dir, actions),
        Execution::Help => panic!("expected a run, got help"),
    }
}

#[test]
fn list_reports_only_txt_files() {
    let q = Query::new(args(&["rop", "list", "\\.txt$", "/tmp/src"])).unwrap();
    let entries = names(&["a.txt", "b.txt", "notes.md"]);
    let (create_dir, actions) = run_actions(&q, &entries);
    assert_eq!(create_dir, None);
    assert_eq!(
        actions,
        vec![
            PlannedAction { name: "a.txt".to_string(), action: Action::Report },
            PlannedAction { name: "b.txt".to_string(), action: Action::Report },
        ]
    );
}

#[test]
fn move_relocates_every_match() {
    let q = Query::new(args(&["rop", "move", "\\.txt$", "/tmp/src", "/tmp/dst"])).unwrap();
    let entries = names(&["a.txt", "b.txt", "notes.md"]);
    let (create_dir, actions) = run_actions(&q, &entries);
    assert_eq!(create_dir, None);
    assert_eq!(
        actions,
        vec![
            PlannedAction {
                name: "a.txt".to_string(),
                action: Action::MoveFile {
                    from: "/tmp/src/a.txt".to_string(),
                    to: "/tmp/dst/a.txt".to_string(),
                },
            },
            PlannedAction {
                name: "b.txt".to_string(),
                action: Action::MoveFile {
                    from: "/tmp/src/b.txt".to_string(),
                    to: "/tmp/dst/b.txt".to_string(),
                },
            },
        ]
    );
}

#[test]
fn extract_creates_folder_and_moves_matches() {
    let q = Query::new(args(&["rop", "extract", "\\.txt$", "/tmp/src2", "archive"])).unwrap();
    let entries = names(&["a.txt", "notes.md"]);
    let (create_dir, actions) = run_actions(&q, &entries);
    assert_eq!(create_dir, Some("/tmp/src2/archive".to_string()));
    assert_eq!(
        actions,
        vec![PlannedAction {
            name: "a.txt".to_string(),
            action: Action::MoveFile {
                from: "/tmp/src2/a.txt".to_string(),
                to: "/tmp/src2/archive/a.txt".to_string(),
            },
        }]
    );
}

#[test]
fn move_skips_destination_directory_itself() {
    let q = Query::new(args(&["rop", "move", "sub", "/tmp/src", "/tmp/src/sub"])).unwrap();
    let entries = names(&["sub", "sub.txt", "other.md"]);
    let (_, actions) = run_actions(&q, &entries);
    assert_eq!(
        actions,
        vec![
            PlannedAction { name: "sub".to_string(), action: Action::SkipSelf },
            PlannedAction {
                name: "sub.txt".to_string(),
                action: Action::MoveFile {
                    from: "/tmp/src/sub.txt".to_string(),
                    to: "/tmp/src/sub/sub.txt".to_string(),
                },
            },
        ]
    );
}

#[test]
fn extract_skips_its_own_folder_when_it_matches() {
    let q = Query::new(args(&["rop", "extract", "", "/tmp/src", "archive"])).unwrap();
    let entries = names(&["a.txt", "archive"]);
    let (create_dir, actions) = run_actions(&q, &entries);
    assert_eq!(create_dir, Some("/tmp/src/archive".to_string()));
    assert_eq!(
        actions,
        vec![
            PlannedAction {
                name: "a.txt".to_string(),
                action: Action::MoveFile {
                    from: "/tmp/src/a.txt".to_string(),
                    to: "/tmp/src/archive/a.txt".to_string(),
                },
            },
            PlannedAction { name: "archive".to_string(), action: Action::SkipSelf },
        ]
    );
}

#[test]
fn copy_does_not_skip_self_destination() {
    let q = Query::new(args(&["rop", "copy", "sub", "/tmp/src", "/tmp/src/sub"])).unwrap();
    let entries = names(&["sub"]);
    let (_, actions) = run_actions(&q, &entries);
    assert_eq!(
        actions,
        vec![PlannedAction {
            name: "sub".to_string(),
            action: Action::CopyFile {
                from: "/tmp/src/sub".to_string(),
                to: "/tmp/src/sub/sub".to_string(),
            },
        }]
    );
}

#[test]
fn remove_deletes_matches_by_full_path() {
    let q = Query::new(args(&["rop", "remove", "^tmp", "/var/work"])).unwrap();
    let entries = names(&["tmp1", "keep", "tmp2"]);
    let (_, actions) = run_actions(&q, &entries);
    assert_eq!(
        actions,
        vec![
            PlannedAction {
                name: "tmp1".to_string(),
                action: Action::RemoveFile { path: "/var/work/tmp1".to_string() },
            },
            PlannedAction {
                name: "tmp2".to_string(),
                action: Action::RemoveFile { path: "/var/work/tmp2".to_string() },
            },
        ]
    );
}

#[test]
fn remove_plans_identically_on_a_second_run() {
    let q = Query::new(args(&["rop", "remove", "x", "/d"])).unwrap();
    let entries = names(&["x1", "x2"]);
    let first = remove(&q, &entries).unwrap();
    let second = remove(&q, &entries).unwrap();
    assert_eq!(first, second);
    // On the second run the files are already gone: every action fails
    // per entry, and each failure still yields a well-formed outcome.
    for action in &second {
        let outcome = outcome_for(action, false).unwrap();
        assert!(!outcome.success);
        assert_eq!(outcome.verb, Verb::Removed);
    }
}

#[test]
fn copied_names_all_show_in_destination_listing() {
    let src = Query::new(args(&["rop", "copy", "\\.txt$", "/a", "/b"])).unwrap();
    let entries = names(&["a.txt", "b.txt", "c.md"]);
    let copied = match copy(&src, &"/b".to_string(), &entries) {
        Ok(actions) => actions,
        Err(_) => panic!("pattern is valid"),
    };
    let dest_entries: Vec<String> = copied.iter().map(|a| a.name.clone()).collect();
    let lister = Query::new(args(&["rop", "list", "\\.txt$", "/b"])).unwrap();
    let listed = list(&lister, &dest_entries).unwrap();
    assert_eq!(listed.len(), copied.len());
    for (l, c) in listed.iter().zip(copied.iter()) {
        assert_eq!(l.name, c.name);
        assert_eq!(l.action, Action::Report);
    }
}

#[test]
fn invalid_pattern_is_fatal() {
    let q = Query::new(args(&["rop", "list", "(", "/tmp"])).unwrap();
    let entries = names(&["a"]);
    assert_eq!(q.execute(&entries).unwrap_err(), PatternError::InvalidPattern);
    assert_eq!(list(&q, &entries).unwrap_err(), PatternError::InvalidPattern);
    assert_eq!(remove(&q, &entries).unwrap_err(), PatternError::InvalidPattern);
    assert_eq!(
        move_files(&q, &"/d".to_string(), &entries).unwrap_err(),
        PatternError::InvalidPattern
    );
    assert_eq!(copy(&q, &"/d".to_string(), &entries).unwrap_err(), PatternError::InvalidPattern);
    assert_eq!(
        extract(&q, &"f".to_string(), &entries).unwrap_err(),
        PatternError::InvalidPattern
    );
}

#[test]
fn help_never_touches_entries() {
    let q = Query::new(args(&["rop"])).unwrap();
    let entries = names(&["a.txt"]);
    assert_eq!(q.execute(&entries).unwrap(), Execution::Help);
}

#[test]
fn no_entry_matches_no_action_planned() {
    let q = Query::new(args(&["rop", "move", "xyz", "/s", "/d"])).unwrap();
    let entries = names(&["a.txt", "b.md"]);
    let (_, actions) = run_actions(&q, &entries);
    assert!(actions.is_empty());
}

#[test]
fn empty_snapshot_plans_nothing() {
    let q = Query::new(args(&["rop", "list", ".*", "/s"])).unwrap();
    let (_, actions) = run_actions(&q, &Vec::new());
    assert!(actions.is_empty());
}

#[test]
fn pattern_matches_anywhere_in_the_name() {
    let q = Query::new(args(&["rop", "list", "txt", "/s"])).unwrap();
    let entries = names(&["a.txt.bak", "txt", "notes.md"]);
    let (_, actions) = run_actions(&q, &entries);
    let listed: Vec<&str> = actions.iter().map(|a| a.name.as_str()).collect();
    assert_eq!(listed, vec!["a.txt.bak", "txt"]);
}

#[test]
fn outcome_of_listing_always_succeeds() {
    let a = PlannedAction { name: "a.txt".to_string(), action: Action::Report };
    let outcome = outcome_for(&a, false).unwrap();
    assert!(outcome.success);
    assert_eq!(outcome.verb, Verb::Listed);
    assert_eq!(outcome.destination, None);
    assert_eq!(outcome.name, "a.txt");
}

#[test]
fn outcome_of_move_carries_destination() {
    let a = PlannedAction {
        name: "a.txt".to_string(),
        action: Action::MoveFile { from: "/s/a.txt".to_string(), to: "/d/a.txt".to_string() },
    };
    let ok = outcome_for(&a, true).unwrap();
    assert!(ok.success);
    assert_eq!(ok.verb, Verb::Moved);
    assert_eq!(ok.destination, Some("/d/a.txt".to_string()));
    let failed = outcome_for(&a, false).unwrap();
    assert!(!failed.success);
}

#[test]
fn outcome_of_copy_carries_destination() {
    let a = PlannedAction {
        name: "b".to_string(),
        action: Action::CopyFile { from: "/s/b".to_string(), to: "/d/b".to_string() },
    };
    let ok = outcome_for(&a, true).unwrap();
    assert_eq!(ok.verb, Verb::Copied);
    assert_eq!(ok.destination, Some("/d/b".to_string()));
}

#[test]
fn self_skip_yields_no_outcome() {
    let a = PlannedAction { name: "sub".to_string(), action: Action::SkipSelf };
    assert_eq!(outcome_for(&a, true), None);
    assert_eq!(outcome_for(&a, false), None);
}
