use rop::Query;
use rop::query::Operation;
use rop::query::QueryError;

fn args(words: &[&str]) -> Vec<String> {
    words.iter().map(|w| w.to_string()).collect()
}

#[test]
fn no_arguments_is_help() {
    let q = Query::new(args(&["rop"])).unwrap();
    assert_eq!(q.op, Operation::Help);
    assert_eq!(q.expression, "");
    assert_eq!(q.item_path, "");
}

#[test]
fn empty_argument_list_is_help() {
    let q = Query::new(Vec::new()).unwrap();
    assert_eq!(q.op, Operation::Help);
}

#[test]
fn help_verb() {
    let q = Query::new(args(&["rop", "help"])).unwrap();
    assert_eq!(q.op, Operation::Help);
}

#[test]
fn help_verb_mixed_case() {
    let q = Query::new(args(&["rop", "HeLp"])).unwrap();
    assert_eq!(q.op, Operation::Help);
}

#[test]
fn unknown_verb_is_invalid_operation() {
    let r = Query::new(args(&["rop", "paste", "x", "/tmp"]));
    assert_eq!(r.unwrap_err(), QueryError::InvalidOperation);
}

#[test]
fn list_missing_expression() {
    let r = Query::new(args(&["rop", "list"]));
    assert_eq!(r.unwrap_err(), QueryError::MissingExpression);
}

#[test]
fn list_missing_path() {
    let r = Query::new(args(&["rop", "list", ".*"]));
    assert_eq!(r.unwrap_err(), QueryError::MissingPath);
}

#[test]
fn list_complete() {
    let q = Query::new(args(&["rop", "list", "\\.txt$", "/tmp/src"])).unwrap();
    assert_eq!(q.op, Operation::List);
    assert_eq!(q.expression, "\\.txt$");
    assert_eq!(q.item_path, "/tmp/src");
}

#[test]
fn remove_complete() {
    let q = Query::new(args(&["rop", "remove", "log", "/var/tmp"])).unwrap();
    assert_eq!(q.op, Operation::Remove);
    assert_eq!(q.expression, "log");
    assert_eq!(q.item_path, "/var/tmp");
}

#[test]
fn move_missing_destination() {
    let r = Query::new(args(&["rop", "move", "x", "/src"]));
    assert_eq!(r.unwrap_err(), QueryError::MissingDestination);
}

#[test]
fn move_complete() {
    let q = Query::new(args(&["rop", "move", "\\.txt$", "/tmp/src", "/tmp/dst"])).unwrap();
    assert_eq!(q.op, Operation::Move("/tmp/dst".to_string()));
    assert_eq!(q.expression, "\\.txt$");
    assert_eq!(q.item_path, "/tmp/src");
}

#[test]
fn move_verb_upper_case() {
    let q = Query::new(args(&["rop", "MOVE", "a", "/s", "/d"])).unwrap();
    assert_eq!(q.op, Operation::Move("/d".to_string()));
}

#[test]
fn copy_missing_destination() {
    let r = Query::new(args(&["rop", "copy", "x", "/src"]));
    assert_eq!(r.unwrap_err(), QueryError::MissingDestination);
}

#[test]
fn copy_complete() {
    let q = Query::new(args(&["rop", "copy", "a", "/s", "/d"])).unwrap();
    assert_eq!(q.op, Operation::Copy("/d".to_string()));
}

#[test]
fn extract_missing_folder_name() {
    let r = Query::new(args(&["rop", "extract", "x", "/src"]));
    assert_eq!(r.unwrap_err(), QueryError::MissingFolderName);
}

#[test]
fn extract_complete() {
    let q = Query::new(args(&["rop", "extract", "\\.txt$", "/tmp/src2", "archive"])).unwrap();
    assert_eq!(q.op, Operation::Extract("archive".to_string()));
    assert_eq!(q.expression, "\\.txt$");
    assert_eq!(q.item_path, "/tmp/src2");
}

#[test]
fn extra_arguments_are_ignored() {
    let q = Query::new(args(&["rop", "list", "a", "/s", "unused"])).unwrap();
    assert_eq!(q.op, Operation::List);
}
