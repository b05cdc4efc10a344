//! The per-entry action model: what the executor decides to do for each
//! directory entry that matches the pattern, and the outcome record that one
//! performed action yields.
//!
//! A plan is a sequence of per-entry actions computed from a static snapshot
//! of the directory's entry names. Entries whose base name does not match the
//! pattern contribute nothing to the plan; every matching entry contributes
//! exactly one action.

use vstd::prelude::*;

use crate::base_name_spec;
use crate::join_path;
use crate::matcher::regex_match;

verus! {

/// What is to be done for one matched entry.
#[derive(Debug, Clone, PartialEq, Eq)]
pub enum Action {
    /// List: report the entry's base name; no filesystem mutation.
    Report,
    /// Remove: delete the file at `path`.
    RemoveFile { path: String },
    /// Move: rename the entry at `from` to `to`.
    MoveFile { from: String, to: String },
    /// Copy: duplicate the content of `from` at `to`.
    CopyFile { from: String, to: String },
    /// Move/Extract self-destination rule: the entry is the destination
    /// directory itself, so it is deliberately left in place.
    SkipSelf,
}

/// Mathematical image of an [`Action`].
pub enum ActionView {
    Report,
    RemoveFile { path: Seq<char> },
    MoveFile { from: Seq<char>, to: Seq<char> },
    CopyFile { from: Seq<char>, to: Seq<char> },
    SkipSelf,
}

impl View for Action {
    type V = ActionView;

    open spec fn view(&self) -> ActionView {
        match self {
            Action::Report => ActionView::Report,
            Action::RemoveFile { path } => ActionView::RemoveFile { path: path@ },
            Action::MoveFile { from, to } => ActionView::MoveFile { from: from@, to: to@ },
            Action::CopyFile { from, to } => ActionView::CopyFile { from: from@, to: to@ },
            Action::SkipSelf => ActionView::SkipSelf,
        }
    }
}

/// One matched entry's planned action, tagged with the entry's base name.
#[derive(Debug, Clone, PartialEq, Eq)]
pub struct PlannedAction {
    pub name: String,
    pub action: Action,
}

/// Mathematical image of a [`PlannedAction`].
pub struct PlannedActionView {
    pub name: Seq<char>,
    pub action: ActionView,
}

impl View for PlannedAction {
    type V = PlannedActionView;

    open spec fn view(&self) -> PlannedActionView {
        PlannedActionView { name: self.name@, action: self.action@ }
    }
}

/// The views of a sequence of planned actions.
pub open spec fn views_of(v: Seq<PlannedAction>) -> Seq<PlannedActionView> {
    v.map_values(|a: PlannedAction| a@)
}

/// The plan over a snapshot of entry names: each name that matches the
/// pattern contributes `f` of it, in listing order; the rest contribute
/// nothing.
pub open spec fn match_plan(
    pattern: Seq<char>,
    entries: Seq<Seq<char>>,
    f: spec_fn(Seq<char>) -> PlannedActionView,
) -> Seq<PlannedActionView>
    decreases entries.len(),
{
    if entries.len() == 0 {
        Seq::empty()
    } else {
        let rest = match_plan(pattern, entries.drop_last(), f);
        if regex_match(pattern, entries.last()) {
            rest.push(f(entries.last()))
        } else {
            rest
        }
    }
}

/// List's action for one matched entry.
pub open spec fn list_action(name: Seq<char>) -> PlannedActionView {
    PlannedActionView { name, action: ActionView::Report }
}

/// Remove's action for one matched entry in directory `dir`.
pub open spec fn remove_action(dir: Seq<char>, name: Seq<char>) -> PlannedActionView {
    PlannedActionView { name, action: ActionView::RemoveFile { path: join_path(dir, name) } }
}

/// Move's action for one matched entry: relocate it from `dir` into `dest`,
/// except that an entry named like `dest`'s own base name is the destination
/// directory itself and is skipped rather than moved into itself.
pub open spec fn move_action(dir: Seq<char>, dest: Seq<char>, name: Seq<char>) -> PlannedActionView {
    if name == base_name_spec(dest) {
        PlannedActionView { name, action: ActionView::SkipSelf }
    } else {
        PlannedActionView {
            name,
            action: ActionView::MoveFile {
                from: join_path(dir, name),
                to: join_path(dest, name),
            },
        }
    }
}

/// Copy's action for one matched entry: duplicate it from `dir` into `dest`.
/// No self-destination rule applies; a copy onto itself is attempted and
/// fails naturally as a per-entry failure.
pub open spec fn copy_action(dir: Seq<char>, dest: Seq<char>, name: Seq<char>) -> PlannedActionView {
    PlannedActionView {
        name,
        action: ActionView::CopyFile { from: join_path(dir, name), to: join_path(dest, name) },
    }
}

/// List's action maker, as a function value for [`match_plan`].
pub open spec fn mk_list_action() -> spec_fn(Seq<char>) -> PlannedActionView {
    |n: Seq<char>| list_action(n)
}

/// Remove's action maker for directory `dir`.
pub open spec fn mk_remove_action(dir: Seq<char>) -> spec_fn(Seq<char>) -> PlannedActionView {
    |n: Seq<char>| remove_action(dir, n)
}

/// Move's action maker from `dir` into `dest`.
pub open spec fn mk_move_action(dir: Seq<char>, dest: Seq<char>) -> spec_fn(
    Seq<char>,
) -> PlannedActionView {
    |n: Seq<char>| move_action(dir, dest, n)
}

/// Copy's action maker from `dir` into `dest`.
pub open spec fn mk_copy_action(dir: Seq<char>, dest: Seq<char>) -> spec_fn(
    Seq<char>,
) -> PlannedActionView {
    |n: Seq<char>| copy_action(dir, dest, n)
}

/// The full plan of the List verb.
pub open spec fn list_plan(pattern: Seq<char>, entries: Seq<Seq<char>>) -> Seq<PlannedActionView> {
    match_plan(pattern, entries, mk_list_action())
}

/// The full plan of the Remove verb.
pub open spec fn remove_plan(pattern: Seq<char>, dir: Seq<char>, entries: Seq<Seq<char>>) -> Seq<
    PlannedActionView,
> {
    match_plan(pattern, entries, mk_remove_action(dir))
}

/// The full plan of the Move verb (and of Extract's move phase).
pub open spec fn move_plan(
    pattern: Seq<char>,
    dir: Seq<char>,
    dest: Seq<char>,
    entries: Seq<Seq<char>>,
) -> Seq<PlannedActionView> {
    match_plan(pattern, entries, mk_move_action(dir, dest))
}

/// The verb that a performed action reports under.
#[derive(Debug, Clone, Copy, PartialEq, Eq, Structural)]
pub enum Verb {
    Listed,
    Removed,
    Moved,
    Copied,
}

/// The per-entry record handed to the reporter: the entry's base name, the
/// verb applied, the destination for moves and copies, and whether the
/// action succeeded.
#[derive(Debug, Clone, PartialEq, Eq)]
pub struct OperationOutcome {
    pub name: String,
    pub verb: Verb,
    pub destination: Option<String>,
    pub success: bool,
}

/// Mathematical image of an [`OperationOutcome`].
pub struct OutcomeView {
    pub name: Seq<char>,
    pub verb: Verb,
    pub destination: Option<Seq<char>>,
    pub success: bool,
}

impl View for OperationOutcome {
    type V = OutcomeView;

    open spec fn view(&self) -> OutcomeView {
        OutcomeView {
            name: self.name@,
            verb: self.verb,
            destination: match self.destination {
                Some(d) => Some(d@),
                None => None,
            },
            success: self.success,
        }
    }
}

/// The outcome that one performed action yields. A listing cannot fail once
/// the entry exists, so its outcome always reports success; a deliberate
/// self-destination skip yields no outcome at all.
pub open spec fn outcome_spec(a: PlannedActionView, success: bool) -> Option<OutcomeView> {
    match a.action {
        ActionView::Report => Some(
            OutcomeView { name: a.name, verb: Verb::Listed, destination: None, success: true },
        ),
        ActionView::RemoveFile { .. } => Some(
            OutcomeView { name: a.name, verb: Verb::Removed, destination: None, success },
        ),
        ActionView::MoveFile { to, .. } => Some(
            OutcomeView { name: a.name, verb: Verb::Moved, destination: Some(to), success },
        ),
        ActionView::CopyFile { to, .. } => Some(
            OutcomeView { name: a.name, verb: Verb::Copied, destination: Some(to), success },
        ),
        ActionView::SkipSelf => None,
    }
}

/// The view of an optional outcome, for relating [`outcome_for`] to
/// [`outcome_spec`].
pub open spec fn outcome_option_view(r: Option<OperationOutcome>) -> Option<OutcomeView> {
    match r {
        Some(o) => Some(o@),
        None => None,
    }
}

/// Builds the outcome record for one performed action, given whether the
/// filesystem call succeeded (ignored for List, which cannot fail, and for
/// a self-destination skip, which yields no outcome).
pub fn outcome_for(a: &PlannedAction, success: bool) -> (r: Option<OperationOutcome>)
    ensures
        outcome_option_view(r) == outcome_spec(a@, success),
{
    match &a.action {
        Action::Report => Some(
            OperationOutcome {
                name: a.name.clone(),
                verb: Verb::Listed,
                destination: None,
                success: true,
            },
        ),
        Action::RemoveFile { .. } => Some(
            OperationOutcome { name: a.name.clone(), verb: Verb::Removed, destination: None, success },
        ),
        Action::MoveFile { to, .. } => Some(
            OperationOutcome {
                name: a.name.clone(),
                verb: Verb::Moved,
                destination: Some(to.clone()),
                success,
            },
        ),
        Action::CopyFile { to, .. } => Some(
            OperationOutcome {
                name: a.name.clone(),
                verb: Verb::Copied,
                destination: Some(to.clone()),
                success,
            },
        ),
        Action::SkipSelf => None,
    }
}

/// The full plan of the Copy verb.
pub open spec fn copy_plan(
    pattern: Seq<char>,
    dir: Seq<char>,
    dest: Seq<char>,
    entries: Seq<Seq<char>>,
) -> Seq<PlannedActionView> {
    match_plan(pattern, entries, mk_copy_action(dir, dest))
}

} // verus!
