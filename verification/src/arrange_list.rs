//! The reorder primitive behind the arrangeable list widget, together
//! with the small traits and the exit event the widget exchanges with
//! its callers.
//!
//! The widget owns a sequence of values. When the user picks the value
//! at one slot up and drops it on another, [`rearrange`] shifts the
//! backing vector so that the moved value lands on the destination slot
//! while every other value keeps its relative order. When the user
//! drags a value out of the list entirely, [`remove_by_index`] takes it
//! out and hands it back for disposal.

use vstd::prelude::*;

verus! {

/// Builder protocol implemented by item widgets that can be toggled
/// between a draggable and an inert state.
pub trait Arrangeable {
    fn arrangeable(self, flag: bool) -> Self;
}

/// Builder protocol implemented by item widgets that can render
/// themselves in a highlighted, selected state.
pub trait Selectable {
    fn selectable(self) -> Self;
}

/// Which edge of the list an element left through when it was dragged
/// out of the container.
pub enum ExitBy {
    Top,
    Bottom,
}

/// The sequence that results from removing the value at `selected` and
/// reinserting it at `corrected`: the moved value lands on slot
/// `corrected`, the values strictly between the two slots shift by one
/// position towards `selected`, and every other value stays put.
pub open spec fn rearranged<T>(s: Seq<T>, selected: int, corrected: int) -> Seq<T>
    recommends
        0 <= selected < s.len(),
        0 <= corrected < s.len(),
{
    s.remove(selected).insert(corrected, s[selected])
}

/// Move the value at slot `selected_i` to slot `corrected_i`, shifting
/// the values strictly between the two slots by exactly one position
/// and leaving all other slots untouched. Callers clamp `corrected_i`
/// to the live range before calling.
pub fn rearrange<T>(selected_i: usize, corrected_i: usize, hash: &mut Vec<T>)
    requires
        selected_i < old(hash).len(),
        corrected_i < old(hash).len(),
    ensures
        final(hash)@ == rearranged(old(hash)@, selected_i as int, corrected_i as int),
        final(hash)@.len() == old(hash)@.len(),
        final(hash)@[corrected_i as int] == old(hash)@[selected_i as int],
        forall|i: int|
            0 <= i < old(hash)@.len()
                && (i < selected_i && i < corrected_i || i > selected_i && i > corrected_i)
                ==> final(hash)@[i] == old(hash)@[i],
        selected_i < corrected_i ==> forall|i: int|
            selected_i <= i < corrected_i ==> final(hash)@[i] == old(hash)@[i + 1],
        corrected_i < selected_i ==> forall|i: int|
            corrected_i < i <= selected_i ==> final(hash)@[i] == old(hash)@[i - 1],
{
    let moved = hash.remove(selected_i);
    hash.insert(corrected_i, moved);
    proof {
        let s = old(hash)@;
        s.remove_ensures(selected_i as int);
        s.remove(selected_i as int).insert_ensures(corrected_i as int, s[selected_i as int]);
    }
}

/// Take the value at slot `c2` out of the list, shrinking it by one,
/// and return the removed value to the caller.
pub fn remove_by_index<T>(c2: usize, hash: &mut Vec<T>) -> (removed: T)
    requires
        c2 < old(hash).len(),
    ensures
        removed == old(hash)@[c2 as int],
        final(hash)@ == old(hash)@.remove(c2 as int),
        final(hash)@.len() == old(hash)@.len() - 1,
        forall|i: int| 0 <= i < c2 ==> final(hash)@[i] == old(hash)@[i],
        forall|i: int| c2 <= i < final(hash)@.len() ==> final(hash)@[i] == old(hash)@[i + 1],
{
    let removed = hash.remove(c2);
    proof {
        old(hash)@.remove_ensures(c2 as int);
    }
    removed
}

/// Law: reordering creates and destroys nothing. For any valid pair of
/// slots, the multiset of values after a rearrangement equals the
/// multiset before it.
pub proof fn lemma_rearranged_multiset<T>(s: Seq<T>, selected: int, corrected: int)
    requires
        0 <= selected < s.len(),
        0 <= corrected < s.len(),
    ensures
        rearranged(s, selected, corrected).to_multiset() == s.to_multiset(),
{
    broadcast use vstd::seq_lib::group_to_multiset_ensures;
    broadcast use vstd::multiset::group_multiset_axioms;

    vstd::seq_lib::to_multiset_insert(s.remove(selected), corrected, s[selected]);
    assert(s.contains(s[selected]));
    assert(rearranged(s, selected, corrected).to_multiset() =~= s.to_multiset());
}

/// Law: dropping a value back on the slot it was picked up from is a
/// no-op; the sequence comes out equal to the input.
pub proof fn lemma_rearranged_identity<T>(s: Seq<T>, i: int)
    requires
        0 <= i < s.len(),
    ensures
        rearranged(s, i, i) == s,
{
    s.remove_ensures(i);
    s.remove(i).insert_ensures(i, s[i]);
    assert(rearranged(s, i, i) =~= s);
}

/// The slot on which the value at slot `j` lands when the value at
/// `selected` is rearranged to `corrected`: the moved value lands on
/// the destination, the values strictly between the two slots slide by
/// one position towards `selected`, and everything else stays put.
pub open spec fn landing_slot(selected: int, corrected: int, j: int) -> int {
    if j == selected {
        corrected
    } else if selected < corrected && selected < j <= corrected {
        j - 1
    } else if corrected < selected && corrected <= j < selected {
        j + 1
    } else {
        j
    }
}

/// Law: a rearrangement displaces no value by more than one slot,
/// except the moved value itself, which lands on the destination slot.
/// Every value of the input is found again on its landing slot.
pub proof fn lemma_rearranged_shift_distance<T>(s: Seq<T>, selected: int, corrected: int)
    requires
        0 <= selected < s.len(),
        0 <= corrected < s.len(),
    ensures
        rearranged(s, selected, corrected)[corrected] == s[selected],
        forall|j: int|
            0 <= j < s.len() ==> #[trigger] rearranged(s, selected, corrected)[landing_slot(
                selected,
                corrected,
                j,
            )] == s[j],
        forall|j: int|
            0 <= j < s.len() ==> 0 <= #[trigger] landing_slot(selected, corrected, j) < s.len(),
        forall|j: int|
            j != selected ==> j - 1 <= #[trigger] landing_slot(selected, corrected, j) <= j + 1,
{
    s.remove_ensures(selected);
    s.remove(selected).insert_ensures(corrected, s[selected]);
    assert forall|j: int| 0 <= j < s.len() implies #[trigger] rearranged(
        s,
        selected,
        corrected,
    )[landing_slot(selected, corrected, j)] == s[j] by {
        if j == selected {
            assert(rearranged(s, selected, corrected)[corrected] == s[selected]);
        } else if selected < corrected && selected < j && j <= corrected {
            assert(rearranged(s, selected, corrected)[j - 1] == s[j]);
        } else if corrected < selected && corrected <= j && j < selected {
            assert(rearranged(s, selected, corrected)[j + 1] == s[j]);
        } else {
            assert(rearranged(s, selected, corrected)[j] == s[j]);
        }
    };
}

/// Law: the relative order of the values that were not moved is
/// preserved. Deleting the moved value from the result at its
/// destination gives the same sequence as deleting it from the input at
/// its origin.
pub proof fn lemma_rearranged_untouched_order<T>(s: Seq<T>, selected: int, corrected: int)
    requires
        0 <= selected < s.len(),
        0 <= corrected < s.len(),
    ensures
        rearranged(s, selected, corrected).remove(corrected) == s.remove(selected),
{
    s.remove_ensures(selected);
    let r = s.remove(selected);
    r.insert_ensures(corrected, s[selected]);
    r.insert(corrected, s[selected]).remove_ensures(corrected);
    assert(rearranged(s, selected, corrected).remove(corrected) =~= r);
}

} // verus!
