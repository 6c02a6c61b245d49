//! The selection set: catalog positions the user explicitly toggled,
//! independent of the current view, and the rules that turn it into the
//! argument list of a bulk install or remove action.

use vstd::prelude::*;

use std::collections::HashSet;

verus! {

broadcast use vstd::std_specs::hash::group_hash_axioms;

/// What one toggle does: membership of the position flips, nothing else
/// changes.
pub open spec fn spec_toggle(s: Set<usize>, pos: usize) -> Set<usize> {
    if s.contains(pos) {
        s.remove(pos)
    } else {
        s.insert(pos)
    }
}

/// Flip membership of a catalog position in the selection set. Returns
/// whether the position is selected afterwards.
pub fn toggle(selected: &mut HashSet<usize>, pos: usize) -> (now_selected: bool)
    ensures
        final(selected)@ == spec_toggle(old(selected)@, pos),
        now_selected == !old(selected)@.contains(pos),
{
    if selected.contains(&pos) {
        selected.remove(&pos);
        false
    } else {
        selected.insert(pos);
        true
    }
}

/// Toggling the same position twice returns the selection set to its prior
/// state.
pub proof fn lemma_toggle_twice(s: Set<usize>, pos: usize)
    ensures
        spec_toggle(spec_toggle(s, pos), pos) == s,
{
    assert(spec_toggle(spec_toggle(s, pos), pos) =~= s);
}

/// The members of `s` below `upto`, in ascending order.
pub open spec fn positions_in(s: Set<usize>, upto: int) -> Seq<usize>
    decreases upto,
{
    if upto <= 0 {
        Seq::empty()
    } else if s.contains((upto - 1) as usize) {
        positions_in(s, upto - 1).push((upto - 1) as usize)
    } else {
        positions_in(s, upto - 1)
    }
}

/// The items an install action applies to: every selected catalog position
/// in ascending order, or the single item under the cursor when nothing is
/// selected.
pub open spec fn spec_install_targets(sel: Set<usize>, cursor_pos: usize, catalog_len: int) -> Seq<
    usize,
> {
    if sel.is_empty() {
        seq![cursor_pos]
    } else {
        positions_in(sel, catalog_len)
    }
}

/// The items a remove action applies to: the selected positions that are
/// known installed, or the cursor item alone when nothing is selected and it
/// is installed. An empty result means the action is a no-op.
pub open spec fn spec_remove_targets(
    sel: Set<usize>,
    inst: Set<usize>,
    cursor_pos: usize,
    catalog_len: int,
) -> Seq<usize> {
    if sel.is_empty() {
        if inst.contains(cursor_pos) {
            seq![cursor_pos]
        } else {
            Seq::empty()
        }
    } else {
        positions_in(sel.intersect(inst), catalog_len)
    }
}

/// The argument list of an install action.
pub fn install_targets(selected: &HashSet<usize>, cursor_pos: usize, catalog_len: usize) -> (r: Vec<
    usize,
>)
    ensures
        r@ == spec_install_targets(selected@, cursor_pos, catalog_len as int),
{
    if selected.is_empty() {
        let mut r: Vec<usize> = Vec::new();
        r.push(cursor_pos);
        assert(r@ =~= seq![cursor_pos]);
        r
    } else {
        let mut r: Vec<usize> = Vec::new();
        let mut i: usize = 0;
        while i < catalog_len
            invariant
                i <= catalog_len,
                r@ == positions_in(selected@, i as int),
            decreases catalog_len - i,
        {
            if selected.contains(&i) {
                r.push(i);
            }
            i = i + 1;
        }
        r
    }
}

/// The argument list of a remove action.
pub fn remove_targets(
    selected: &HashSet<usize>,
    installed: &HashSet<usize>,
    cursor_pos: usize,
    catalog_len: usize,
) -> (r: Vec<usize>)
    ensures
        r@ == spec_remove_targets(selected@, installed@, cursor_pos, catalog_len as int),
{
    if selected.is_empty() {
        let mut r: Vec<usize> = Vec::new();
        if installed.contains(&cursor_pos) {
            r.push(cursor_pos);
            assert(r@ =~= seq![cursor_pos]);
        }
        r
    } else {
        let mut r: Vec<usize> = Vec::new();
        let mut i: usize = 0;
        while i < catalog_len
            invariant
                i <= catalog_len,
                r@ == positions_in(selected@.intersect(installed@), i as int),
            decreases catalog_len - i,
        {
            if selected.contains(&i) && installed.contains(&i) {
                r.push(i);
            }
            i = i + 1;
        }
        r
    }
}

} // verus!
