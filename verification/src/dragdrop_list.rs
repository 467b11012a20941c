//! The reorder primitive behind the drag-and-drop list widget.
//!
//! This widget keeps, next to each payload value, an optional cached
//! handle to the widget instance currently rendering that slot. When a
//! payload is dragged to a new slot only the payload values shift: the
//! cached handles stay with their slots, so a dropped item snaps onto
//! the destination slot's widget instead of carrying its old widget
//! along. [`rearrange`] and [`remove_by_index`] both keep that
//! asymmetry.

use vstd::prelude::*;
use crate::arrange_list::rearranged;

verus! {

/// Builder protocol implemented by item widgets that can be toggled
/// between a draggable and an inert state.
pub trait Draggable {
    fn draggable(self, flag: bool) -> Self;
}

/// A handle to the widget instance currently rendering a slot, cached
/// so that the drop position can be resolved by hit-testing on the
/// following frame.
#[derive(Clone, Copy, PartialEq, Eq, Debug)]
pub struct WidgetId(pub usize);

/// The payload values of a slot sequence, in slot order.
pub open spec fn payloads<T>(s: Seq<(Option<WidgetId>, T)>) -> Seq<T> {
    s.map_values(|slot: (Option<WidgetId>, T)| slot.1)
}

/// The cached widget handles of a slot sequence, in slot order.
pub open spec fn handles<T>(s: Seq<(Option<WidgetId>, T)>) -> Seq<Option<WidgetId>> {
    s.map_values(|slot: (Option<WidgetId>, T)| slot.0)
}

/// Exchange the payloads of the neighbouring slots `i` and `i + 1`,
/// leaving every cached handle on the slot it was on.
fn swap_payloads<T>(hash: &mut Vec<(Option<WidgetId>, T)>, i: usize)
    requires
        i + 1 < old(hash).len(),
    ensures
        final(hash)@.len() == old(hash)@.len(),
        final(hash)@[i as int].0 == old(hash)@[i as int].0,
        final(hash)@[i as int + 1].0 == old(hash)@[i as int + 1].0,
        final(hash)@[i as int].1 == old(hash)@[i as int + 1].1,
        final(hash)@[i as int + 1].1 == old(hash)@[i as int].1,
        forall|k: int|
            0 <= k < old(hash)@.len() && k != i && k != i + 1
                ==> final(hash)@[k] == old(hash)@[k],
{
    let a = hash.remove(i);
    let b = hash.remove(i);
    hash.insert(i, (a.0, b.1));
    hash.insert(i + 1, (b.0, a.1));
    proof {
        let s = old(hash)@;
        let r1 = s.remove(i as int);
        let r2 = r1.remove(i as int);
        let t1 = r2.insert(i as int, (s[i as int].0, s[i as int + 1].1));
        s.remove_ensures(i as int);
        r1.remove_ensures(i as int);
        r2.insert_ensures(i as int, (s[i as int].0, s[i as int + 1].1));
        t1.insert_ensures(i as int + 1, (s[i as int + 1].0, s[i as int].1));
    }
}

/// Move the payload at slot `selected_i` to slot `corrected_i`,
/// shifting the payloads strictly between the two slots by exactly one
/// position; payloads outside that span, and every cached widget
/// handle, stay where they were. Callers clamp `corrected_i` to the
/// live range before calling.
pub fn rearrange<T>(
    selected_i: usize,
    corrected_i: usize,
    hash: &mut Vec<(Option<WidgetId>, T)>,
)
    requires
        selected_i < old(hash).len(),
        corrected_i < old(hash).len(),
    ensures
        final(hash)@.len() == old(hash)@.len(),
        handles(final(hash)@) == handles(old(hash)@),
        payloads(final(hash)@) == rearranged(
            payloads(old(hash)@),
            selected_i as int,
            corrected_i as int,
        ),
        final(hash)@[corrected_i as int].1 == old(hash)@[selected_i as int].1,
        forall|k: int|
            0 <= k < old(hash)@.len() ==> final(hash)@[k].0 == old(hash)@[k].0,
        forall|k: int|
            0 <= k < old(hash)@.len()
                && (k < selected_i && k < corrected_i || k > selected_i && k > corrected_i)
                ==> final(hash)@[k].1 == old(hash)@[k].1,
        selected_i < corrected_i ==> forall|k: int|
            selected_i <= k < corrected_i ==> final(hash)@[k].1 == old(hash)@[k + 1].1,
        corrected_i < selected_i ==> forall|k: int|
            corrected_i < k <= selected_i ==> final(hash)@[k].1 == old(hash)@[k - 1].1,
{
    if selected_i < corrected_i {
        let mut j = selected_i;
        while j < corrected_i
            invariant
                selected_i <= j <= corrected_i,
                corrected_i < hash@.len(),
                hash@.len() == old(hash)@.len(),
                forall|k: int| 0 <= k < hash@.len() ==> hash@[k].0 == old(hash)@[k].0,
                hash@[j as int].1 == old(hash)@[selected_i as int].1,
                forall|k: int| selected_i <= k < j ==> hash@[k].1 == old(hash)@[k + 1].1,
                forall|k: int|
                    0 <= k < hash@.len() && (k < selected_i || k > j)
                        ==> hash@[k].1 == old(hash)@[k].1,
            decreases corrected_i - j,
        {
            swap_payloads(hash, j);
            j = j + 1;
        }
    } else if corrected_i < selected_i {
        let mut j = selected_i;
        while j > corrected_i
            invariant
                corrected_i <= j <= selected_i,
                selected_i < hash@.len(),
                hash@.len() == old(hash)@.len(),
                forall|k: int| 0 <= k < hash@.len() ==> hash@[k].0 == old(hash)@[k].0,
                hash@[j as int].1 == old(hash)@[selected_i as int].1,
                forall|k: int| j < k <= selected_i ==> hash@[k].1 == old(hash)@[k - 1].1,
                forall|k: int|
                    0 <= k < hash@.len() && (k < j || k > selected_i)
                        ==> hash@[k].1 == old(hash)@[k].1,
            decreases j,
        {
            j = j - 1;
            swap_payloads(hash, j);
        }
    }
    proof {
        let s0 = old(hash)@;
        let p = payloads(s0);
        let sel = selected_i as int;
        let cor = corrected_i as int;
        p.remove_ensures(sel);
        p.remove(sel).insert_ensures(cor, p[sel]);
        assert forall|k: int| 0 <= k < p.len() implies payloads(hash@)[k] == rearranged(
            p,
            sel,
            cor,
        )[k] by {
            assert(payloads(hash@)[k] == hash@[k].1);
            assert(p[k] == s0[k].1);
        };
        assert(payloads(hash@) =~= rearranged(p, sel, cor));
        assert forall|k: int| 0 <= k < s0.len() implies handles(hash@)[k] == handles(s0)[k] by {
            assert(handles(hash@)[k] == hash@[k].0);
        };
        assert(handles(hash@) =~= handles(s0));
    }
}

/// Take the slot at index `c2` out of the list entirely, cached handle
/// and all, and hand its payload back to the caller.
pub fn remove_by_index<T>(c2: usize, hash: &mut Vec<(Option<WidgetId>, T)>) -> (removed: T)
    requires
        c2 < old(hash).len(),
    ensures
        removed == old(hash)@[c2 as int].1,
        final(hash)@ == old(hash)@.remove(c2 as int),
        final(hash)@.len() == old(hash)@.len() - 1,
        forall|i: int| 0 <= i < c2 ==> final(hash)@[i] == old(hash)@[i],
        forall|i: int| c2 <= i < final(hash)@.len() ==> final(hash)@[i] == old(hash)@[i + 1],
{
    let slot = hash.remove(c2);
    proof {
        old(hash)@.remove_ensures(c2 as int);
    }
    slot.1
}

} // verus!
