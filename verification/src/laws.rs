//! The laws of the batch operator, proved over the plan model: the pattern
//! filter is respected by every verb alike, each matching entry yields
//! exactly one action, a move never relocates the destination directory into
//! itself, copied names still match on a later listing, and Extract funnels
//! every move into the one folder it creates.

use vstd::prelude::*;

use crate::base_name_spec;
use crate::join_path;
use crate::matcher::regex_match;
use crate::plan::ActionView;
use crate::plan::PlannedActionView;
use crate::plan::copy_plan;
use crate::plan::list_plan;
use crate::plan::match_plan;
use crate::plan::mk_copy_action;
use crate::plan::mk_list_action;
use crate::plan::mk_move_action;
use crate::plan::mk_remove_action;
use crate::plan::move_action;
use crate::plan::move_plan;
use crate::plan::remove_plan;

verus! {

/// The match predicate of a pattern, as a function value for `Seq::filter`.
pub open spec fn is_matched(pattern: Seq<char>) -> spec_fn(Seq<char>) -> bool {
    |n: Seq<char>| regex_match(pattern, n)
}

/// The subsequence of the snapshot whose names match the pattern, in
/// listing order.
pub open spec fn matched_entries(pattern: Seq<char>, entries: Seq<Seq<char>>) -> Seq<Seq<char>> {
    entries.filter(is_matched(pattern))
}

/// Each element of a filtered sequence is an element of the sequence.
pub proof fn lemma_filter_elem_is_entry(
    entries: Seq<Seq<char>>,
    pred: spec_fn(Seq<char>) -> bool,
    i: int,
)
    requires
        0 <= i < entries.filter(pred).len(),
    ensures
        entries.contains(entries.filter(pred)[i]),
    decreases entries.len(),
{
    reveal(Seq::filter);
    if entries.len() == 0 {
    } else {
        let rest = entries.drop_last().filter(pred);
        if i < rest.len() {
            lemma_filter_elem_is_entry(entries.drop_last(), pred, i);
            let x = rest[i];
            let j = choose|j: int| 0 <= j < entries.drop_last().len() && entries.drop_last()[j] == x;
            assert(entries[j] == x);
        } else {
            assert(entries.filter(pred)[i] == entries.last());
            assert(entries[entries.len() - 1] == entries.last());
        }
    }
}

/// A plan is the matched subsequence of the snapshot with the verb's action
/// maker applied to each element, in listing order.
pub proof fn lemma_plan_is_filter_map(
    pattern: Seq<char>,
    entries: Seq<Seq<char>>,
    f: spec_fn(Seq<char>) -> PlannedActionView,
)
    ensures
        match_plan(pattern, entries, f) =~= matched_entries(pattern, entries).map_values(f),
    decreases entries.len(),
{
    reveal(Seq::filter);
    if entries.len() == 0 {
    } else {
        lemma_plan_is_filter_map(pattern, entries.drop_last(), f);
        let m = matched_entries(pattern, entries);
        let mrest = matched_entries(pattern, entries.drop_last());
        if is_matched(pattern)(entries.last()) {
            assert(m == mrest.push(entries.last()));
            assert(m.map_values(f) =~= mrest.map_values(f).push(f(entries.last())));
        } else {
            assert(m == mrest);
        }
    }
}

/// Every element of a plan comes from a matching entry of the snapshot: the
/// plan is as long as the matched subsequence, its `i`-th action is the
/// verb's action for the `i`-th matched entry, and each matched entry both
/// matches the pattern and names an entry of the snapshot.
pub proof fn lemma_match_plan_elems(
    pattern: Seq<char>,
    entries: Seq<Seq<char>>,
    f: spec_fn(Seq<char>) -> PlannedActionView,
)
    ensures
        match_plan(pattern, entries, f).len() == matched_entries(pattern, entries).len(),
        forall|i: int|
            0 <= i < match_plan(pattern, entries, f).len() ==> #[trigger] match_plan(
                pattern,
                entries,
                f,
            )[i] == f(matched_entries(pattern, entries)[i]),
        forall|i: int|
            0 <= i < matched_entries(pattern, entries).len() ==> regex_match(
                pattern,
                #[trigger] matched_entries(pattern, entries)[i],
            ) && entries.contains(matched_entries(pattern, entries)[i]),
{
    lemma_plan_is_filter_map(pattern, entries, f);
    let m = matched_entries(pattern, entries);
    assert forall|i: int| 0 <= i < m.len() implies regex_match(pattern, #[trigger] m[i])
        && entries.contains(m[i]) by {
        entries.lemma_filter_pred(is_matched(pattern), i);
        lemma_filter_elem_is_entry(entries, is_matched(pattern), i);
    }
}

/// Law: every entry whose base name matches the pattern yields exactly one
/// action, regardless of later success or failure: the plan has one element
/// per matched entry, in listing order, and nothing else.
pub proof fn lemma_one_action_per_match(
    pattern: Seq<char>,
    entries: Seq<Seq<char>>,
    f: spec_fn(Seq<char>) -> PlannedActionView,
)
    ensures
        match_plan(pattern, entries, f).len() == matched_entries(pattern, entries).len(),
        forall|j: int|
            0 <= j < matched_entries(pattern, entries).len() ==> #[trigger] match_plan(
                pattern,
                entries,
                f,
            )[j] == f(matched_entries(pattern, entries)[j]),
{
    lemma_plan_is_filter_map(pattern, entries, f);
}

/// Law: the pattern filter is respected: every action in a plan belongs to
/// an entry of the snapshot whose name matches the pattern, so an entry that
/// does not match gets no action, no filesystem mutation and no outcome,
/// provided the verb's action maker tags each action with its entry's name.
pub proof fn lemma_plan_respects_filter(
    pattern: Seq<char>,
    entries: Seq<Seq<char>>,
    f: spec_fn(Seq<char>) -> PlannedActionView,
)
    requires
        forall|n: Seq<char>| (#[trigger] f(n)).name == n,
    ensures
        forall|i: int|
            0 <= i < match_plan(pattern, entries, f).len() ==> regex_match(
                pattern,
                (#[trigger] match_plan(pattern, entries, f)[i]).name,
            ),
        forall|i: int|
            0 <= i < match_plan(pattern, entries, f).len() ==> entries.contains(
                (#[trigger] match_plan(pattern, entries, f)[i]).name,
            ),
{
    lemma_match_plan_elems(pattern, entries, f);
    let plan = match_plan(pattern, entries, f);
    let m = matched_entries(pattern, entries);
    assert forall|i: int| 0 <= i < plan.len() implies regex_match(
        pattern,
        (#[trigger] plan[i]).name,
    ) && entries.contains(plan[i].name) by {
        assert(plan[i] == f(m[i]));
        assert(f(m[i]).name == m[i]);
    }
}

/// Law: List, Remove, Move and Copy all respect the pattern filter
/// identically: under each verb, every planned action's name matches the
/// pattern and names an entry of the snapshot.
pub proof fn lemma_all_verbs_respect_filter(
    pattern: Seq<char>,
    dir: Seq<char>,
    dest: Seq<char>,
    entries: Seq<Seq<char>>,
)
    ensures
        forall|i: int|
            0 <= i < list_plan(pattern, entries).len() ==> regex_match(
                pattern,
                (#[trigger] list_plan(pattern, entries)[i]).name,
            ) && entries.contains(list_plan(pattern, entries)[i].name),
        forall|i: int|
            0 <= i < remove_plan(pattern, dir, entries).len() ==> regex_match(
                pattern,
                (#[trigger] remove_plan(pattern, dir, entries)[i]).name,
            ) && entries.contains(remove_plan(pattern, dir, entries)[i].name),
        forall|i: int|
            0 <= i < move_plan(pattern, dir, dest, entries).len() ==> regex_match(
                pattern,
                (#[trigger] move_plan(pattern, dir, dest, entries)[i]).name,
            ) && entries.contains(move_plan(pattern, dir, dest, entries)[i].name),
        forall|i: int|
            0 <= i < copy_plan(pattern, dir, dest, entries).len() ==> regex_match(
                pattern,
                (#[trigger] copy_plan(pattern, dir, dest, entries)[i]).name,
            ) && entries.contains(copy_plan(pattern, dir, dest, entries)[i].name),
{
    lemma_plan_respects_filter(pattern, entries, mk_list_action());
    lemma_plan_respects_filter(pattern, entries, mk_remove_action(dir));
    lemma_plan_respects_filter(pattern, entries, mk_move_action(dir, dest));
    lemma_plan_respects_filter(pattern, entries, mk_copy_action(dir, dest));
}

/// Law: Move (and Extract's move phase) never relocates a directory entry
/// into itself: the action of every matched entry named like the
/// destination's own base name is the deliberate skip, and every actual move
/// in the plan is of an entry named otherwise.
pub proof fn lemma_move_never_into_self(
    pattern: Seq<char>,
    dir: Seq<char>,
    dest: Seq<char>,
    entries: Seq<Seq<char>>,
)
    ensures
        forall|i: int|
            0 <= i < move_plan(pattern, dir, dest, entries).len() && (#[trigger] move_plan(
                pattern,
                dir,
                dest,
                entries,
            )[i]).name == base_name_spec(dest) ==> move_plan(
                pattern,
                dir,
                dest,
                entries,
            )[i].action is SkipSelf,
        forall|i: int|
            0 <= i < move_plan(pattern, dir, dest, entries).len() && (#[trigger] move_plan(
                pattern,
                dir,
                dest,
                entries,
            )[i]).action is MoveFile ==> move_plan(pattern, dir, dest, entries)[i].name
                != base_name_spec(dest),
{
    lemma_match_plan_elems(pattern, entries, mk_move_action(dir, dest));
    let plan = move_plan(pattern, dir, dest, entries);
    let m = matched_entries(pattern, entries);
    assert forall|i: int| 0 <= i < plan.len() implies ((#[trigger] plan[i]).name == base_name_spec(
        dest,
    ) ==> plan[i].action is SkipSelf) && (plan[i].action is MoveFile ==> plan[i].name
        != base_name_spec(dest)) by {
        assert(plan[i] == mk_move_action(dir, dest)(m[i]));
        assert(plan[i] == move_action(dir, dest, m[i]));
    }
}

/// Some action of the plan reports `name`: what a List shows for one entry.
pub open spec fn reported_in(lplan: Seq<PlannedActionView>, name: Seq<char>) -> bool {
    exists|j: int|
        0 <= j < lplan.len() && (#[trigger] lplan[j]).name == name && lplan[j].action is Report
}

/// Law: Copy followed by List on the destination with the same pattern
/// shows every copied entry: a copied name still matches the pattern, so
/// any snapshot of the destination that contains the copied names yields
/// a report action for each of them.
pub proof fn lemma_copy_then_list(
    pattern: Seq<char>,
    dir: Seq<char>,
    dest: Seq<char>,
    entries: Seq<Seq<char>>,
    dest_entries: Seq<Seq<char>>,
)
    requires
        forall|i: int|
            0 <= i < copy_plan(pattern, dir, dest, entries).len() ==> dest_entries.contains(
                (#[trigger] copy_plan(pattern, dir, dest, entries)[i]).name,
            ),
    ensures
        forall|i: int|
            0 <= i < copy_plan(pattern, dir, dest, entries).len() ==> reported_in(
                list_plan(pattern, dest_entries),
                (#[trigger] copy_plan(pattern, dir, dest, entries)[i]).name,
            ),
{
    lemma_plan_respects_filter(pattern, entries, mk_copy_action(dir, dest));
    lemma_plan_is_filter_map(pattern, dest_entries, mk_list_action());
    let cplan = copy_plan(pattern, dir, dest, entries);
    let lplan = list_plan(pattern, dest_entries);
    let m = matched_entries(pattern, dest_entries);
    assert forall|i: int| 0 <= i < cplan.len() implies reported_in(
        lplan,
        (#[trigger] cplan[i]).name,
    ) by {
        let name = cplan[i].name;
        assert(regex_match(pattern, name));
        assert(dest_entries.contains(name));
        let k = choose|k: int| 0 <= k < dest_entries.len() && dest_entries[k] == name;
        assert(is_matched(pattern)(dest_entries[k]));
        dest_entries.lemma_filter_contains(is_matched(pattern), k);
        assert(m.contains(name));
        let l = choose|l: int| 0 <= l < m.len() && m[l] == name;
        assert(lplan[l] == mk_list_action()(m[l]));
        assert(lplan[l].name == name && lplan[l].action is Report);
    }
}

/// Law: Extract funnels every relocation into the one subdirectory it
/// creates: in Extract's move plan, whose destination is the new folder's
/// path under the source directory, every move starts at the source
/// directory and ends at that folder path joined with the entry's name.
pub proof fn lemma_extract_moves_into_new_folder(
    pattern: Seq<char>,
    dir: Seq<char>,
    folder: Seq<char>,
    entries: Seq<Seq<char>>,
)
    ensures
        forall|i: int|
            0 <= i < move_plan(pattern, dir, join_path(dir, folder), entries).len() ==> match (
            #[trigger] move_plan(pattern, dir, join_path(dir, folder), entries)[i]).action {
                ActionView::MoveFile { from, to } => from == join_path(
                    dir,
                    move_plan(pattern, dir, join_path(dir, folder), entries)[i].name,
                ) && to == join_path(
                    join_path(dir, folder),
                    move_plan(pattern, dir, join_path(dir, folder), entries)[i].name,
                ),
                _ => true,
            },
{
    let dest = join_path(dir, folder);
    lemma_match_plan_elems(pattern, entries, mk_move_action(dir, dest));
    let plan = move_plan(pattern, dir, dest, entries);
    let m = matched_entries(pattern, entries);
    assert forall|i: int| 0 <= i < plan.len() implies match (#[trigger] plan[i]).action {
        ActionView::MoveFile { from, to } => from == join_path(dir, plan[i].name) && to
            == join_path(dest, plan[i].name),
        _ => true,
    } by {
        assert(plan[i] == mk_move_action(dir, dest)(m[i]));
        assert(plan[i] == move_action(dir, dest, m[i]));
    }
}

} // verus!
