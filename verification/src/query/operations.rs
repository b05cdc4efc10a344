//! Construction and execution of a [`Query`](super::Query).
//!
//! Each verb takes one static snapshot of the source directory's entry names
//! and turns it into a plan of per-entry actions: the verified decision of
//! which entries are touched, where each one goes, and which move is refused
//! as a self-destination. Performing the planned filesystem calls, and
//! reporting each outcome, is the caller's part.

use vstd::prelude::*;

use crate::base_name;
use crate::base_name_spec;
use crate::join;
use crate::join_path;
use crate::matcher::compile;
use crate::matcher::is_match;
use crate::matcher::regex_pattern;
use crate::matcher::valid_regex;
use crate::plan::Action;
use crate::plan::PlannedAction;
use crate::plan::copy_action;
use crate::plan::copy_plan;
use crate::plan::list_action;
use crate::plan::list_plan;
use crate::plan::move_action;
use crate::plan::move_plan;
use crate::plan::remove_action;
use crate::plan::remove_plan;
use crate::plan::views_of;
use crate::query::OpView;
use crate::query::Operation;
use crate::query::Query;
use crate::query::QueryError;
use crate::query::QueryView;
use crate::query::to_operation;
use crate::query::to_operation_spec;

verus! {

/// The fatal error of every verb but Help: the pattern operand is not a
/// valid regular expression, so no entry can be tested and the whole
/// invocation is aborted before any plan is produced.
#[derive(Debug, Clone, Copy, PartialEq, Eq, Structural)]
pub enum PatternError {
    InvalidPattern,
}

/// Lists the matching entries: for each entry whose base name matches the
/// pattern, one report action carrying that name; no filesystem mutation.
pub fn list(query: &Query, entries: &Vec<String>) -> (r: Result<Vec<PlannedAction>, PatternError>)
    ensures
        r is Ok <==> valid_regex(query.expression@),
        r is Ok ==> views_of(r->Ok_0@) == list_plan(query.expression@, entries.deep_view()),
        r is Err ==> r->Err_0 == PatternError::InvalidPattern,
{
    let re = match compile(query.expression.as_str()) {
        Some(re) => re,
        None => {
            return Err(PatternError::InvalidPattern);
        },
    };
    let ghost p = query.expression@;
    let ghost dv = entries.deep_view();
    let mut out: Vec<PlannedAction> = Vec::new();
    proof {
        assert(views_of(out@) =~= list_plan(p, dv.subrange(0, 0)));
    }
    let mut i: usize = 0;
    while i < entries.len()
        invariant
            i <= entries.len(),
            dv == entries.deep_view(),
            dv.len() == entries.len(),
            p == query.expression@,
            regex_pattern(re) == p,
            views_of(out@) =~= list_plan(p, dv.subrange(0, i as int)),
        decreases entries.len() - i,
    {
        let name = &entries[i];
        proof {
            assert(dv[i as int] == name@);
        }
        let ghost prev = out@;
        if is_match(&re, name.as_str()) {
            out.push(PlannedAction { name: name.clone(), action: Action::Report });
            proof {
                assert(views_of(out@) =~= views_of(prev).push(list_action(dv[i as int])));
            }
        }
        proof {
            let sub1 = dv.subrange(0, i + 1);
            assert(sub1.drop_last() =~= dv.subrange(0, i as int));
            assert(views_of(out@) =~= list_plan(p, sub1));
        }
        i += 1;
    }
    proof {
        assert(dv.subrange(0, entries.len() as int) =~= dv);
    }
    Ok(out)
}

/// Plans the Move verb: every matching entry is relocated from the query's
/// source directory into `item_path`, except an entry named like
/// `item_path`'s own base name, which is the destination directory itself
/// and is deliberately skipped rather than moved into itself.
pub fn move_files(query: &Query, item_path: &String, entries: &Vec<String>) -> (r: Result<
    Vec<PlannedAction>,
    PatternError,
>)
    ensures
        r is Ok <==> valid_regex(query.expression@),
        r is Ok ==> views_of(r->Ok_0@) == move_plan(
            query.expression@,
            query.item_path@,
            item_path@,
            entries.deep_view(),
        ),
        r is Err ==> r->Err_0 == PatternError::InvalidPattern,
{
    let re = match compile(query.expression.as_str()) {
        Some(re) => re,
        None => {
            return Err(PatternError::InvalidPattern);
        },
    };
    let dest_base = base_name(item_path.as_str());
    let ghost p = query.expression@;
    let ghost dir = query.item_path@;
    let ghost dest = item_path@;
    let ghost dv = entries.deep_view();
    let mut out: Vec<PlannedAction> = Vec::new();
    proof {
        assert(views_of(out@) =~= move_plan(p, dir, dest, dv.subrange(0, 0)));
    }
    let mut i: usize = 0;
    while i < entries.len()
        invariant
            i <= entries.len(),
            dv == entries.deep_view(),
            dv.len() == entries.len(),
            p == query.expression@,
            dir == query.item_path@,
            dest == item_path@,
            dest_base@ == base_name_spec(dest),
            regex_pattern(re) == p,
            views_of(out@) =~= move_plan(p, dir, dest, dv.subrange(0, i as int)),
        decreases entries.len() - i,
    {
        let name = &entries[i];
        proof {
            assert(dv[i as int] == name@);
        }
        let ghost prev = out@;
        if is_match(&re, name.as_str()) {
            if name.eq(&dest_base) {
                out.push(PlannedAction { name: name.clone(), action: Action::SkipSelf });
            } else {
                let from = join(query.item_path.as_str(), name.as_str());
                let to = join(item_path.as_str(), name.as_str());
                out.push(
                    PlannedAction { name: name.clone(), action: Action::MoveFile { from, to } },
                );
            }
            proof {
                assert(views_of(out@) =~= views_of(prev).push(
                    move_action(dir, dest, dv[i as int]),
                ));
            }
        }
        proof {
            let sub1 = dv.subrange(0, i + 1);
            assert(sub1.drop_last() =~= dv.subrange(0, i as int));
            assert(views_of(out@) =~= move_plan(p, dir, dest, sub1));
        }
        i += 1;
    }
    proof {
        assert(dv.subrange(0, entries.len() as int) =~= dv);
    }
    Ok(out)
}

/// Plans the Remove verb: every matching entry's file is deleted from the
/// query's source directory. Running the plan again after deletion yields
/// per-entry failures, never an abort.
pub fn remove(query: &Query, entries: &Vec<String>) -> (r: Result<Vec<PlannedAction>, PatternError>)
    ensures
        r is Ok <==> valid_regex(query.expression@),
        r is Ok ==> views_of(r->Ok_0@) == remove_plan(
            query.expression@,
            query.item_path@,
            entries.deep_view(),
        ),
        r is Err ==> r->Err_0 == PatternError::InvalidPattern,
{
    let re = match compile(query.expression.as_str()) {
        Some(re) => re,
        None => {
            return Err(PatternError::InvalidPattern);
        },
    };
    let ghost p = query.expression@;
    let ghost dir = query.item_path@;
    let ghost dv = entries.deep_view();
    let mut out: Vec<PlannedAction> = Vec::new();
    proof {
        assert(views_of(out@) =~= remove_plan(p, dir, dv.subrange(0, 0)));
    }
    let mut i: usize = 0;
    while i < entries.len()
        invariant
            i <= entries.len(),
            dv == entries.deep_view(),
            dv.len() == entries.len(),
            p == query.expression@,
            dir == query.item_path@,
            regex_pattern(re) == p,
            views_of(out@) =~= remove_plan(p, dir, dv.subrange(0, i as int)),
        decreases entries.len() - i,
    {
        let name = &entries[i];
        proof {
            assert(dv[i as int] == name@);
        }
        let ghost prev = out@;
        if is_match(&re, name.as_str()) {
            let path = join(query.item_path.as_str(), name.as_str());
            out.push(PlannedAction { name: name.clone(), action: Action::RemoveFile { path } });
            proof {
                assert(views_of(out@) =~= views_of(prev).push(remove_action(dir, dv[i as int])));
            }
        }
        proof {
            let sub1 = dv.subrange(0, i + 1);
            assert(sub1.drop_last() =~= dv.subrange(0, i as int));
            assert(views_of(out@) =~= remove_plan(p, dir, sub1));
        }
        i += 1;
    }
    proof {
        assert(dv.subrange(0, entries.len() as int) =~= dv);
    }
    Ok(out)
}

/// Plans the Copy verb: every matching entry is duplicated from the query's
/// source directory into `item_path`. Unlike Move, no self-destination rule
/// applies: a copy whose destination coincides with its source is attempted
/// and fails naturally as a per-entry failure.
pub fn copy(query: &Query, item_path: &String, entries: &Vec<String>) -> (r: Result<
    Vec<PlannedAction>,
    PatternError,
>)
    ensures
        r is Ok <==> valid_regex(query.expression@),
        r is Ok ==> views_of(r->Ok_0@) == copy_plan(
            query.expression@,
            query.item_path@,
            item_path@,
            entries.deep_view(),
        ),
        r is Err ==> r->Err_0 == PatternError::InvalidPattern,
{
    let re = match compile(query.expression.as_str()) {
        Some(re) => re,
        None => {
            return Err(PatternError::InvalidPattern);
        },
    };
    let ghost p = query.expression@;
    let ghost dir = query.item_path@;
    let ghost dest = item_path@;
    let ghost dv = entries.deep_view();
    let mut out: Vec<PlannedAction> = Vec::new();
    proof {
        assert(views_of(out@) =~= copy_plan(p, dir, dest, dv.subrange(0, 0)));
    }
    let mut i: usize = 0;
    while i < entries.len()
        invariant
            i <= entries.len(),
            dv == entries.deep_view(),
            dv.len() == entries.len(),
            p == query.expression@,
            dir == query.item_path@,
            dest == item_path@,
            regex_pattern(re) == p,
            views_of(out@) =~= copy_plan(p, dir, dest, dv.subrange(0, i as int)),
        decreases entries.len() - i,
    {
        let name = &entries[i];
        proof {
            assert(dv[i as int] == name@);
        }
        let ghost prev = out@;
        if is_match(&re, name.as_str()) {
            let from = join(query.item_path.as_str(), name.as_str());
            let to = join(item_path.as_str(), name.as_str());
            out.push(PlannedAction { name: name.clone(), action: Action::CopyFile { from, to } });
            proof {
                assert(views_of(out@) =~= views_of(prev).push(
                    copy_action(dir, dest, dv[i as int]),
                ));
            }
        }
        proof {
            let sub1 = dv.subrange(0, i + 1);
            assert(sub1.drop_last() =~= dv.subrange(0, i as int));
            assert(views_of(out@) =~= copy_plan(p, dir, dest, sub1));
        }
        i += 1;
    }
    proof {
        assert(dv.subrange(0, entries.len() as int) =~= dv);
    }
    Ok(out)
}

/// Plans the Extract verb: the composite of ensuring a subdirectory named
/// `folder_name` directly under the query's source directory (the first
/// component of the result names it; the caller creates it once if it is
/// absent, a fatal failure if that cannot be done) and a Move of every
/// matching entry into that subdirectory, with Move's self-destination
/// rule, so the new folder itself is never moved into itself even when its
/// name matches the pattern.
pub fn extract(query: &Query, folder_name: &String, entries: &Vec<String>) -> (r: Result<
    (String, Vec<PlannedAction>),
    PatternError,
>)
    ensures
        r is Ok <==> valid_regex(query.expression@),
        r is Ok ==> r->Ok_0.0@ == join_path(query.item_path@, folder_name@),
        r is Ok ==> views_of(r->Ok_0.1@) == move_plan(
            query.expression@,
            query.item_path@,
            join_path(query.item_path@, folder_name@),
            entries.deep_view(),
        ),
        r is Err ==> r->Err_0 == PatternError::InvalidPattern,
{
    let new_path = join(query.item_path.as_str(), folder_name.as_str());
    match move_files(query, &new_path, entries) {
        Ok(actions) => Ok((new_path, actions)),
        Err(e) => Err(e),
    }
}

/// What executing a query amounts to: either the help request, or a run
/// with the actions to perform and, for Extract, the one subdirectory to
/// ensure before any of them.
#[derive(Debug, Clone, PartialEq, Eq)]
pub enum Execution {
    /// The Help verb: usage is shown, the filesystem is never touched.
    Help,
    /// The plan of a filesystem verb: `create_dir` names the subdirectory
    /// that Extract must ensure exists before the actions run (`None` for
    /// every other verb), `actions` is the per-entry plan in listing order.
    Run { create_dir: Option<String>, actions: Vec<PlannedAction> },
}

/// Mathematical image of an [`Execution`].
pub enum ExecutionView {
    Help,
    Run { create_dir: Option<Seq<char>>, actions: Seq<crate::plan::PlannedActionView> },
}

impl View for Execution {
    type V = ExecutionView;

    open spec fn view(&self) -> ExecutionView {
        match self {
            Execution::Help => ExecutionView::Help,
            Execution::Run { create_dir, actions } => ExecutionView::Run {
                create_dir: match create_dir {
                    Some(d) => Some(d@),
                    None => None,
                },
                actions: views_of(actions@),
            },
        }
    }
}

/// What [`Query::execute`] returns for a query and an entry snapshot: help
/// for the Help verb; the invalid-pattern abort when the pattern does not
/// compile; otherwise the verb's plan, with Extract's subdirectory named.
pub open spec fn execute_spec(q: QueryView, entries: Seq<Seq<char>>) -> Result<
    ExecutionView,
    PatternError,
> {
    if q.op is Help {
        Ok(ExecutionView::Help)
    } else if !valid_regex(q.expression) {
        Err(PatternError::InvalidPattern)
    } else {
        match q.op {
            OpView::List => Ok(
                ExecutionView::Run { create_dir: None, actions: list_plan(q.expression, entries) },
            ),
            OpView::Remove => Ok(
                ExecutionView::Run {
                    create_dir: None,
                    actions: remove_plan(q.expression, q.item_path, entries),
                },
            ),
            OpView::Move(dest) => Ok(
                ExecutionView::Run {
                    create_dir: None,
                    actions: move_plan(q.expression, q.item_path, dest, entries),
                },
            ),
            OpView::Copy(dest) => Ok(
                ExecutionView::Run {
                    create_dir: None,
                    actions: copy_plan(q.expression, q.item_path, dest, entries),
                },
            ),
            OpView::Extract(folder) => Ok(
                ExecutionView::Run {
                    create_dir: Some(join_path(q.item_path, folder)),
                    actions: move_plan(
                        q.expression,
                        q.item_path,
                        join_path(q.item_path, folder),
                        entries,
                    ),
                },
            ),
            OpView::Help => Ok(ExecutionView::Help),
        }
    }
}

/// The view of an execution result, for relating [`Query::execute`] to
/// [`execute_spec`].
pub open spec fn execution_result_view(r: Result<Execution, PatternError>) -> Result<
    ExecutionView,
    PatternError,
> {
    match r {
        Ok(e) => Ok(e@),
        Err(e) => Err(e),
    }
}

/// What [`Query::new`] returns for an argument list: too few arguments give
/// the help command; an unknown verb, or a missing operand of the selected
/// verb, is the named fatal error; otherwise the fully validated command.
pub open spec fn new_spec(args: Seq<Seq<char>>) -> Result<QueryView, QueryError> {
    if args.len() < 2 {
        Ok(QueryView { op: OpView::Help, expression: Seq::empty(), item_path: Seq::empty() })
    } else {
        match to_operation_spec(args[1]) {
            Err(e) => Err(e),
            Ok(op) => {
                if op is Help {
                    Ok(
                        QueryView {
                            op: OpView::Help,
                            expression: Seq::empty(),
                            item_path: Seq::empty(),
                        },
                    )
                } else if args.len() < 3 {
                    Err(QueryError::MissingExpression)
                } else if args.len() < 4 {
                    Err(QueryError::MissingPath)
                } else {
                    match op {
                        OpView::Move(_) => if args.len() < 5 {
                            Err(QueryError::MissingDestination)
                        } else {
                            Ok(
                                QueryView {
                                    op: OpView::Move(args[4]),
                                    expression: args[2],
                                    item_path: args[3],
                                },
                            )
                        },
                        OpView::Copy(_) => if args.len() < 5 {
                            Err(QueryError::MissingDestination)
                        } else {
                            Ok(
                                QueryView {
                                    op: OpView::Copy(args[4]),
                                    expression: args[2],
                                    item_path: args[3],
                                },
                            )
                        },
                        OpView::Extract(_) => if args.len() < 5 {
                            Err(QueryError::MissingFolderName)
                        } else {
                            Ok(
                                QueryView {
                                    op: OpView::Extract(args[4]),
                                    expression: args[2],
                                    item_path: args[3],
                                },
                            )
                        },
                        _ => Ok(
                            QueryView { op, expression: args[2], item_path: args[3] },
                        ),
                    }
                }
            },
        }
    }
}

/// The view of a construction result, for relating [`Query::new`] to
/// [`new_spec`].
pub open spec fn query_result_view(r: Result<Query, QueryError>) -> Result<QueryView, QueryError> {
    match r {
        Ok(q) => Ok(q@),
        Err(e) => Err(e),
    }
}

impl Query {
    /// Builds the command from the raw argument list (the program name
    /// first): verb word, then pattern, then source directory, then the
    /// destination directory (Move, Copy) or new folder name (Extract).
    /// With no verb at all the command is the help request; otherwise each
    /// missing or unrecognized operand is the corresponding fatal error.
    pub fn new(args: Vec<String>) -> (r: Result<Query, QueryError>)
        ensures
            query_result_view(r) == new_spec(args.deep_view()),
    {
        proof {
            assert(args.deep_view().len() == args.len());
        }
        if args.len() < 2 {
            return Ok(
                Query { op: Operation::Help, expression: String::new(), item_path: String::new() },
            );
        }
        proof {
            assert(args.deep_view()[1] == args@[1]@);
            assert(args.len() >= 3 ==> args.deep_view()[2] == args@[2]@);
            assert(args.len() >= 4 ==> args.deep_view()[3] == args@[3]@);
            assert(args.len() >= 5 ==> args.deep_view()[4] == args@[4]@);
        }
        let op0 = match to_operation(&args[1]) {
            Ok(o) => o,
            Err(e) => {
                return Err(e);
            },
        };
        if matches!(op0, Operation::Help) {
            return Ok(
                Query { op: Operation::Help, expression: String::new(), item_path: String::new() },
            );
        }
        if args.len() < 3 {
            return Err(QueryError::MissingExpression);
        }
        if args.len() < 4 {
            return Err(QueryError::MissingPath);
        }
        let expression = args[2].clone();
        let item_path = args[3].clone();
        let op = match op0 {
            Operation::Move(_) => {
                if args.len() < 5 {
                    return Err(QueryError::MissingDestination);
                }
                Operation::Move(args[4].clone())
            },
            Operation::Copy(_) => {
                if args.len() < 5 {
                    return Err(QueryError::MissingDestination);
                }
                Operation::Copy(args[4].clone())
            },
            Operation::Extract(_) => {
                if args.len() < 5 {
                    return Err(QueryError::MissingFolderName);
                }
                Operation::Extract(args[4].clone())
            },
            other => other,
        };
        Ok(Query { op, expression, item_path })
    }

    /// Executes the command over one snapshot of the source directory's
    /// entry names: help for the Help verb, the invalid-pattern abort when
    /// the pattern does not compile, and otherwise the verb's per-entry
    /// plan, exactly as [`execute_spec`] describes.
    pub fn execute(&self, entries: &Vec<String>) -> (r: Result<Execution, PatternError>)
        ensures
            execution_result_view(r) == execute_spec(self@, entries.deep_view()),
    {
        match &self.op {
            Operation::Help => Ok(Execution::Help),
            Operation::List => {
                let actions = list(self, entries)?;
                Ok(Execution::Run { create_dir: None, actions })
            },
            Operation::Remove => {
                let actions = remove(self, entries)?;
                Ok(Execution::Run { create_dir: None, actions })
            },
            Operation::Move(dest) => {
                let dest_owned = dest.clone();
                let actions = move_files(self, &dest_owned, entries)?;
                Ok(Execution::Run { create_dir: None, actions })
            },
            Operation::Copy(dest) => {
                let dest_owned = dest.clone();
                let actions = copy(self, &dest_owned, entries)?;
                Ok(Execution::Run { create_dir: None, actions })
            },
            Operation::Extract(folder) => {
                let folder_owned = folder.clone();
                let (new_path, actions) = match extract(self, &folder_owned, entries) {
                    Ok(pair) => pair,
                    Err(e) => {
                        return Err(e);
                    },
                };
                Ok(Execution::Run { create_dir: Some(new_path), actions })
            },
        }
    }
}

} // verus!
