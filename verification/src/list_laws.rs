//! What holds of the selectable list whatever its state and whatever
//! commands it is given.

use vstd::prelude::*;
use crate::action::Action;
use crate::keys::KeyChord;
use crate::list_model::{first_in, kept_from, span, survivors, without, ListModel};
use crate::value::{ImageInfo, ImageStatus};

verus! {

/// Adding items keeps the list well formed, appends them in order, and
/// leaves the cursor absent exactly when the list is still empty: a
/// cursor that was there stays, and the first item to arrive in an empty
/// list gets it.
pub proof fn lemma_adding_keeps_cursor_valid(start: ListModel, items: Seq<ImageInfo>)
    requires
        start.wf(),
        start.items.len() + items.len() <= usize::MAX,
    ensures
        start.add_all(items).wf(),
        start.add_all(items).items == start.items + items,
        start.add_all(items).cursor is None <==> start.add_all(items).items.len() == 0,
        start.add_all(items).cursor matches Some(c) ==> c < start.add_all(items).items.len(),
        start.cursor is Some ==> start.add_all(items).cursor == start.cursor,
        start.cursor is None && items.len() > 0 ==> start.add_all(items).cursor == Some(0usize),
        start.add_all(items).selected == start.selected,
        start.add_all(items).anchor == start.anchor,
    decreases items.len(),
{
    if items.len() > 0 {
        lemma_adding_keeps_cursor_valid(start, items.drop_last());
    }
}

/// A single plain move goes to the neighbouring row, or nowhere when the
/// cursor already is on the row at that end; it never wraps round.
pub proof fn lemma_plain_move_is_one_step(list: ListModel)
    requires
        list.wf(),
    ensures
        list.cursor_down().wf(),
        list.cursor_up().wf(),
        list.cursor_down().items == list.items,
        list.cursor_up().items == list.items,
        list.cursor matches Some(c) ==> list.cursor_down().cursor == Some(
            if c + 1 < list.items.len() {
                (c + 1) as usize
            } else {
                c
            },
        ),
        list.cursor matches Some(c) ==> list.cursor_up().cursor == Some(
            if c > 0 {
                (c - 1) as usize
            } else {
                c
            },
        ),
        list.cursor is None ==> list.cursor_down() == list && list.cursor_up() == list,
{
}

/// Whatever plain moves are made, the list stays well formed, its items
/// stay as they are, and the cursor stays on a row: it ends no further
/// from where it started than the number of moves.
pub proof fn lemma_walk_stays_in_range(list: ListModel, downs: Seq<bool>)
    requires
        list.wf(),
    ensures
        list.walk(downs).wf(),
        list.walk(downs).items == list.items,
        list.cursor is None ==> list.walk(downs).cursor is None,
        list.cursor matches Some(c) ==> (list.walk(downs).cursor matches Some(d) && 0 <= d
            < list.items.len() && c - downs.len() <= d <= c + downs.len()),
    decreases downs.len(),
{
    if downs.len() > 0 {
        lemma_walk_stays_in_range(list, downs.drop_last());
        lemma_plain_move_is_one_step(list.walk(downs.drop_last()));
    }
}

/// A plain move that succeeds while more than one row is selected leaves
/// nothing selected and no anchor.
pub proof fn lemma_plain_move_collapses_multi_selection(list: ListModel)
    requires
        list.wf(),
        list.selected.len() > 1,
    ensures
        list.cursor_down().cursor != list.cursor ==> list.cursor_down().selected
            == Set::<usize>::empty() && list.cursor_down().anchor is None,
        list.cursor_up().cursor != list.cursor ==> list.cursor_up().selected
            == Set::<usize>::empty() && list.cursor_up().anchor is None,
{
}

/// Extending down and then up again, with no plain move in between,
/// brings the cursor back and loses no member of the selection: it adds
/// the range from the anchor to the cursor and the row below the cursor.
pub proof fn lemma_extend_down_then_up(list: ListModel)
    requires
        list.wf(),
        list.cursor is Some,
        list.cursor->0 + 1 < list.items.len(),
    ensures
        list.extend_down().wf(),
        list.extend_down().extend_up().wf(),
        list.extend_down().extend_up().cursor == list.cursor,
        list.extend_down().extend_up().items == list.items,
        list.selected.subset_of(list.extend_down().extend_up().selected),
        list.extend_down().extend_up().selected == list.selected.union(
            span(
                match list.anchor {
                    Some(a) => a,
                    None => list.cursor->0,
                },
                list.cursor->0,
            ),
        ).insert((list.cursor->0 + 1) as usize),
        list.extend_down().extend_up().anchor == Some((list.cursor->0 + 1) as usize),
{
    let c = list.cursor->0;
    let from = match list.anchor {
        Some(a) => a,
        None => c,
    };
    lemma_span_is_finite(from, c);
    lemma_span_is_finite(c, (c + 1) as usize);
}

/// A plain move that succeeds between the two extensions forgets the
/// selection: what the extension up then selects is the one row it was
/// started from, or nothing if that is the first row, so of the rows
/// selected before only that one can still be selected.
pub proof fn lemma_plain_move_between_extensions_forgets(list: ListModel, down: bool)
    requires
        list.wf(),
        list.cursor is Some,
        list.cursor->0 + 1 < list.items.len(),
        list.extend_down().selected.len() > 1,
        list.extend_down().walk(seq![down]).cursor != list.extend_down().cursor,
    ensures
        list.extend_down().walk(seq![down]).selected == Set::<usize>::empty(),
        list.extend_down().walk(seq![down]).anchor is None,
        list.extend_down().walk(seq![down]).extend_up().selected == (if list.extend_down().walk(
            seq![down],
        ).cursor->0 > 0 {
            set![list.extend_down().walk(seq![down]).cursor->0]
        } else {
            Set::<usize>::empty()
        }),
        forall|i: usize|
            list.selected.contains(i) && i != list.extend_down().walk(seq![down]).cursor->0
                ==> !list.extend_down().walk(seq![down]).extend_up().selected.contains(i),
{
    lemma_selection_keeps_wf(list, 0, KeyChord { code: crate::keys::KeyCode::Null, modifiers: 0 });
    let extended = list.extend_down();
    assert(extended.walk(seq![down].drop_last()) == extended);
    lemma_plain_move_is_one_step(extended);
}

/// A range of indices is a finite set.
pub proof fn lemma_span_is_finite(a: usize, b: usize)
    ensures
        span(a, b).finite(),
    decreases
            if a <= b {
                b - a
            } else {
                a - b
            },
{
    if a == b {
        assert(span(a, b) =~= set![a]);
    } else if a < b {
        lemma_span_is_finite(a, (b - 1) as usize);
        assert(span(a, b) =~= span(a, (b - 1) as usize).insert(b));
    } else {
        lemma_span_is_finite((a - 1) as usize, b);
        assert(span(a, b) =~= span((a - 1) as usize, b).insert(a));
    }
}

/// Every selection command keeps the list well formed.
pub proof fn lemma_selection_keeps_wf(list: ListModel, index: usize, chord: KeyChord)
    requires
        list.wf(),
    ensures
        list.extend_selection(index).wf(),
        list.extend_down().wf(),
        list.extend_up().wf(),
        list.select_at_cursor(chord).wf(),
{
    if index < list.items.len() {
        let from = match list.anchor {
            Some(a) => a,
            None => index,
        };
        lemma_span_is_finite(from, index);
    }
    if let Some(c) = list.cursor {
        let from = match list.anchor {
            Some(a) => a,
            None => c,
        };
        lemma_span_is_finite(from, c);
    }
}

/// Selecting at the cursor with neither shift nor control held makes the
/// cursor row the whole selection.
pub proof fn lemma_plain_select_selects_cursor_only(list: ListModel, chord: KeyChord)
    requires
        list.wf(),
        !chord.shift_held(),
        !chord.control_held(),
    ensures
        list.select_at_cursor(chord).selected == list.cursor_set(),
        list.select_at_cursor(chord).cursor == list.cursor,
        list.select_at_cursor(chord).anchor == list.cursor,
        list.select_at_cursor(chord).items == list.items,
{
}

/// Toggling the cursor row twice with control held gives back the
/// selection that was there.
pub proof fn lemma_control_select_twice_restores(list: ListModel, chord: KeyChord)
    requires
        list.wf(),
        !chord.shift_held(),
        chord.control_held(),
    ensures
        list.select_at_cursor(chord).select_at_cursor(chord).selected == list.selected,
{
}

/// What `kept_from` keeps are the items at the surviving indices, and
/// these are, in rising order, the indices outside `gone`.
pub proof fn lemma_kept_are_the_survivors(items: Seq<ImageInfo>, gone: Set<usize>, from: int)
    requires
        0 <= from <= items.len() <= usize::MAX,
    ensures
        kept_from(items, gone, from).len() == survivors(items.len() as int, gone, from).len(),
        kept_from(items, gone, from).len() <= items.len() - from,
        forall|k: int|
            0 <= k < survivors(items.len() as int, gone, from).len() ==> {
                let s = #[trigger] survivors(items.len() as int, gone, from)[k];
                &&& from <= s < items.len()
                &&& !gone.contains(s as usize)
                &&& kept_from(items, gone, from)[k] == items[s]
            },
        forall|j: int, k: int|
            0 <= j < k < survivors(items.len() as int, gone, from).len() ==> survivors(
                items.len() as int,
                gone,
                from,
            )[j] < survivors(items.len() as int, gone, from)[k],
        forall|i: int|
            from <= i < items.len() && !gone.contains(i as usize) ==> survivors(
                items.len() as int,
                gone,
                from,
            ).contains(i),
    decreases items.len() - from,
{
    let len = items.len() as int;
    let here = survivors(len, gone, from);
    if from < len {
        lemma_kept_are_the_survivors(items, gone, from + 1);
        let rest = survivors(len, gone, from + 1);
        if !gone.contains(from as usize) {
            assert forall|k: int| 0 <= k < here.len() implies {
                let s = #[trigger] here[k];
                &&& from <= s < len
                &&& !gone.contains(s as usize)
                &&& kept_from(items, gone, from)[k] == items[s]
            } by {
            }
            assert forall|j: int, k: int| 0 <= j < k < here.len() implies here[j] < here[k] by {
            }
            assert forall|i: int|
                from <= i < len && !gone.contains(i as usize) implies here.contains(i) by {
                if i == from {
                    assert(here[0] == i);
                } else {
                    assert(rest.contains(i));
                    let k = choose|k: int| 0 <= k < rest.len() && rest[k] == i;
                    assert(here[k + 1] == i);
                }
            }
        }
    }
}

/// The members of `set` that are at least `from`.
pub open spec fn at_or_above(set: Set<usize>, from: int) -> Set<usize> {
    set.intersect(Set::new(|i: usize| from <= i))
}

/// Of the indices from `from` up to `len`, those that survive and those
/// that are gone add up to all of them.
pub proof fn lemma_survivors_and_gone_add_up(len: int, gone: Set<usize>, from: int)
    requires
        0 <= from <= len <= usize::MAX,
        gone.finite(),
        forall|i: usize| gone.contains(i) ==> i < len,
    ensures
        survivors(len, gone, from).len() + at_or_above(gone, from).len() == len - from,
    decreases len - from,
{
    if from < len {
        lemma_survivors_and_gone_add_up(len, gone, from + 1);
        if gone.contains(from as usize) {
            assert(at_or_above(gone, from) =~= at_or_above(gone, from + 1).insert(from as usize));
        } else {
            assert(at_or_above(gone, from) =~= at_or_above(gone, from + 1));
        }
    } else {
        assert(at_or_above(gone, from) =~= Set::<usize>::empty());
    }
}

/// Removing one item is the same as keeping all but its index.
pub proof fn lemma_remove_is_without_one(items: Seq<ImageInfo>, index: usize, from: int)
    requires
        0 <= from <= items.len() <= usize::MAX,
        index < items.len(),
    ensures
        from <= index ==> kept_from(items, set![index], from) == items.subrange(
            from,
            items.len() as int,
        ).remove(index - from),
        from > index ==> kept_from(items, set![index], from) == items.subrange(
            from,
            items.len() as int,
        ),
    decreases items.len() - from,
{
    let len = items.len() as int;
    if from < len {
        lemma_remove_is_without_one(items, index, from + 1);
        if from < index {
            assert(kept_from(items, set![index], from) =~= items.subrange(from, len).remove(
                index - from,
            ));
        }
    }
}

/// The lowest selected index is selected, and nothing below it is.
pub proof fn lemma_first_in_is_least(set: Set<usize>, from: int, len: int)
    requires
        0 <= from <= len <= usize::MAX,
    ensures
        from <= first_in(set, from, len) <= len,
        first_in(set, from, len) < len ==> set.contains(first_in(set, from, len) as usize),
        forall|i: usize| from <= i < first_in(set, from, len) ==> !set.contains(i),
    decreases len - from,
{
    if from < len && !set.contains(from as usize) {
        lemma_first_in_is_least(set, from + 1, len);
    }
}

/// The delete command removes exactly the doomed indices, that is the
/// selected rows, or the cursor row when none is selected: the items
/// that stay are those at the other indices, in the order they had. The
/// list stays well formed, nothing is selected afterwards, and after a
/// selection was deleted the cursor stands on the lowest removed index
/// or, if that is past the end, on the last row.
pub proof fn lemma_delete_removes_exactly_the_doomed(list: ListModel)
    requires
        list.wf(),
    ensures
        list.delete().wf(),
        list.delete().items == without(list.items, list.doomed()),
        list.delete().items.len() == survivors(list.items.len() as int, list.doomed(), 0).len(),
        list.delete().items.len() + list.doomed().len() == list.items.len(),
        forall|k: int|
            0 <= k < list.delete().items.len() ==> {
                let s = #[trigger] survivors(list.items.len() as int, list.doomed(), 0)[k];
                &&& 0 <= s < list.items.len()
                &&& !list.doomed().contains(s as usize)
                &&& list.delete().items[k] == list.items[s]
            },
        forall|j: int, k: int|
            0 <= j < k < list.delete().items.len() ==> survivors(
                list.items.len() as int,
                list.doomed(),
                0,
            )[j] < survivors(list.items.len() as int, list.doomed(), 0)[k],
        forall|i: int|
            0 <= i < list.items.len() && !list.doomed().contains(i as usize) ==> survivors(
                list.items.len() as int,
                list.doomed(),
                0,
            ).contains(i),
        list.delete().selected == Set::<usize>::empty(),
        list.selected.len() > 0 ==> list.delete().anchor is None && list.delete().cursor
            == crate::list_model::clamp(
            first_in(list.selected, 0, list.items.len() as int) as usize,
            list.delete().items.len(),
        ),
{
    let len = list.items.len() as int;
    lemma_kept_are_the_survivors(list.items, list.doomed(), 0);
    lemma_survivors_and_gone_add_up(len, list.doomed(), 0);
    assert(at_or_above(list.doomed(), 0) =~= list.doomed());
    if list.selected.len() == 0 {
        assert(list.selected =~= Set::<usize>::empty());
        if let Some(c) = list.cursor {
            lemma_remove_is_without_one(list.items, c, 0);
        }
    } else {
        lemma_first_in_is_least(list.selected, 0, len);
    }
}

/// Setting the status at an index that is no row changes nothing;
/// at a row it changes that item's status and nothing else.
pub proof fn lemma_set_status_touches_one_status(
    list: ListModel,
    index: usize,
    status: ImageStatus,
)
    requires
        list.wf(),
    ensures
        list.set_status(index, status).wf(),
        index >= list.items.len() ==> list.set_status(index, status) == list,
        list.set_status(index, status).items.len() == list.items.len(),
        list.set_status(index, status).cursor == list.cursor,
        list.set_status(index, status).selected == list.selected,
        list.set_status(index, status).anchor == list.anchor,
        forall|i: int|
            0 <= i < list.items.len() && i != index ==> list.set_status(index, status).items[i]
                == list.items[i],
        index < list.items.len() ==> list.set_status(index, status).items[index as int] == (
        ImageInfo { status, ..list.items[index as int] }),
{
}

/// Removing one item or all selected ones keeps the list well formed.
pub proof fn lemma_removal_keeps_wf(list: ListModel, index: usize)
    requires
        list.wf(),
    ensures
        list.remove(index).wf(),
        list.remove_selected().wf(),
{
    lemma_kept_are_the_survivors(list.items, list.selected, 0);
}

/// Whatever command a key press stands for, and whatever command is
/// broadcast, the list stays well formed.
pub proof fn lemma_commands_keep_wf(list: ListModel, command: Option<Action>, chord: KeyChord)
    requires
        list.wf(),
    ensures
        list.on_key(command, chord).wf(),
        command matches Some(action) ==> list.on_action(action).wf(),
{
    lemma_plain_move_is_one_step(list);
    lemma_selection_keeps_wf(list, 0, chord);
    lemma_delete_removes_exactly_the_doomed(list);
}

} // verus!
