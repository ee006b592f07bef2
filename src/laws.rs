use vstd::prelude::*;

use crate::item::{ItemView, ListItem};
use crate::producer::{ProducerAction, ProducerEvent, ProducerPhase, producer_step};
use crate::state::{StateView, appended, numbered_item};
use crate::sync::carried_forward;
use crate::window::{WindowView, rebuilt, range_fits, rendered_from, rendered_rows};

verus! {

/// The list after each item of `batch` has been appended, first to last.
pub open spec fn appended_all(s: StateView, batch: Seq<ItemView>) -> StateView
    decreases batch.len(),
{
    if batch.len() == 0 {
        s
    } else {
        appended(appended_all(s, batch.drop_last()), batch.last())
    }
}

/// The phase reached and the actions asked for while the producer takes in
/// `events`, first to last.
pub open spec fn producer_run(phase: ProducerPhase, events: Seq<ProducerEvent>) -> (ProducerPhase, Seq<ProducerAction>)
    decreases events.len(),
{
    if events.len() == 0 {
        (phase, Seq::empty())
    } else {
        let (before, actions) = producer_run(phase, events.drop_last());
        let (after, action) = producer_step(before, events.last());
        (after, actions.push(action))
    }
}

/// The list after `n` appends through the shared append path, each adding
/// the item numbered after the length it finds.
pub open spec fn added_numbered(s: StateView, n: nat) -> StateView
    decreases n,
{
    if n == 0 {
        s
    } else {
        let before = added_numbered(s, (n - 1) as nat);
        appended(before, numbered_item(before.items.len()))
    }
}

/// Appends only ever add at the end: after the items of `batch` are appended
/// to a list that takes items (every append then succeeds, and the list
/// stays open), the list is as long as before plus the batch, every earlier
/// item is where it was, and the i-th appended item stands right after them
/// at offset i.
pub proof fn append_only_growth(s: StateView, batch: Seq<ItemView>)
    ensures
        appended_all(s, batch).open == s.open,
        appended_all(s, batch).subscribers == s.subscribers,
        appended_all(s, batch).items == s.items + batch,
        appended_all(s, batch).items.len() == s.items.len() + batch.len(),
        forall|i: int| 0 <= i < s.items.len() ==> #[trigger] appended_all(s, batch).items[i] == s.items[i],
        forall|i: int| 0 <= i < batch.len() ==> #[trigger] appended_all(s, batch).items[s.items.len() + i] == batch[i],
    decreases batch.len(),
{
    if batch.len() > 0 {
        append_only_growth(s, batch.drop_last());
        assert(s.items + batch =~= (s.items + batch.drop_last()).push(batch.last()));
    } else {
        assert(s.items + batch =~= s.items);
    }
}

/// The items of `calls` in the order in which they were committed: `order[k]`
/// is the call whose item was committed k-th.
pub open spec fn in_commit_order(calls: Seq<ItemView>, order: Seq<int>) -> Seq<ItemView> {
    Seq::new(order.len(), |k: int| calls[order[k]])
}

/// Whether the item of call `j` stands in `added` at the one place that
/// `order` gives to that call.
pub open spec fn placed_once(added: Seq<ItemView>, calls: Seq<ItemView>, order: Seq<int>, j: int) -> bool {
    exists|k: int| 0 <= k < order.len() && #[trigger] order[k] == j && added[k] == calls[j]
}

/// Any number of appends through the shared append path, from the user's
/// action or the producer in whatever interleaving, to a list that takes
/// items: each read of the length and its append form one step, so the list
/// grows by one item per call, earlier items stay, and the item committed at
/// index i is numbered i. From an empty list, item i is numbered i.
pub proof fn numbered_appends_follow_their_index(s: StateView, n: nat)
    ensures
        added_numbered(s, n).open == s.open,
        added_numbered(s, n).subscribers == s.subscribers,
        added_numbered(s, n).items.len() == s.items.len() + n,
        forall|i: int| 0 <= i < s.items.len() ==> #[trigger] added_numbered(s, n).items[i] == s.items[i],
        forall|i: int|
            s.items.len() <= i < s.items.len() + n ==> #[trigger] added_numbered(s, n).items[i] == numbered_item(
                i as nat,
            ),
    decreases n,
{
    if n > 0 {
        numbered_appends_follow_their_index(s, (n - 1) as nat);
    }
}

/// Appends made from several callers, serialized in any order, lose and
/// duplicate nothing: with `order[k]` the call whose item was committed k-th,
/// the list grows by one item per call and holds each call's item at exactly
/// the one place that the order gave it.
pub proof fn serialized_appends_keep_each_once(s: StateView, calls: Seq<ItemView>, order: Seq<int>)
    requires
        order.len() == calls.len(),
        forall|k: int| 0 <= k < order.len() ==> 0 <= #[trigger] order[k] < calls.len(),
        forall|k1: int, k2: int| 0 <= k1 < order.len() && 0 <= k2 < order.len() && order[k1] == order[k2] ==> k1 == k2,
    ensures
        appended_all(s, in_commit_order(calls, order)).items.len() == s.items.len() + calls.len(),
        forall|k: int| 0 <= k < calls.len() ==> #[trigger] appended_all(s, in_commit_order(calls, order)).items[s.items.len()
            + k] == calls[order[k]],
        forall|j: int| 0 <= j < calls.len() ==> #[trigger] placed_once(
            appended_all(s, in_commit_order(calls, order)).items.subrange(s.items.len() as int, (s.items.len() + calls.len()) as int),
            calls,
            order,
            j,
        ),
{
    let committed = in_commit_order(calls, order);
    append_only_growth(s, committed);
    let r = appended_all(s, committed).items;
    assert forall|k: int| 0 <= k < calls.len() implies #[trigger] r[s.items.len() + k] == calls[order[k]] by {
        assert(r[s.items.len() + k] == committed[k]);
    }
    let range = vstd::set_lib::set_int_range(0, calls.len() as int);
    vstd::set_lib::lemma_int_range(0, calls.len() as int);
    assert(order.no_duplicates());
    order.unique_seq_to_set();
    assert forall|x: int| order.to_set().contains(x) implies range.contains(x) by {
        assert(order.contains(x));
    }
    vstd::set_lib::lemma_len_subset(order.to_set(), range);
    vstd::set_lib::lemma_subset_equality(order.to_set(), range);
    let added = r.subrange(s.items.len() as int, (s.items.len() + calls.len()) as int);
    assert forall|j: int| 0 <= j < calls.len() implies #[trigger] placed_once(added, calls, order, j) by {
        assert(range.contains(j));
        assert(order.to_set().contains(j));
        assert(order.contains(j));
        let k = choose|k: int| 0 <= k < order.len() && order[k] == j;
        assert(r[s.items.len() + k] == committed[k]);
        assert(added[k] == r[s.items.len() + k]);
    }
}

/// A window rebuilt over the list is complete: it has one row per item, and
/// rendering its whole range gives, in order, what the renderer gives for
/// each item of the list.
pub proof fn rebuild_is_complete<O, R, F: Fn(&ListItem) -> R>(s: StateView, render: F, out: Seq<R>)
    requires
        rendered_rows(render, rebuilt::<O>(s.items).items.subrange(0, s.items.len() as int), out),
    ensures
        rebuilt::<O>(s.items).items.len() == s.items.len(),
        range_fits(rebuilt::<O>(s.items).items.len(), 0, s.items.len()),
        out.len() == s.items.len(),
        forall|i: int| 0 <= i < s.items.len() ==> #[trigger] rendered_from(render, s.items[i], out[i]),
{
    assert(rebuilt::<O>(s.items).items.subrange(0, s.items.len() as int) =~= s.items);
}

/// An append followed by the rebuild it triggers keeps the scroll position:
/// the new window shows one more item and has the offset the old one had.
pub proof fn append_keeps_scroll_position<O>(w: WindowView<O>, s: StateView, item: ItemView, offset: O)
    requires
        w.scroll_offset == Some(offset),
    ensures
        carried_forward(w, appended(s, item).items).scroll_offset == Some(offset),
        carried_forward(w, appended(s, item).items).items.len() == s.items.len() + 1,
{
}

/// A failed append ends the producer at once, and a stopped producer asks
/// for no append again, whatever it is told afterwards.
pub proof fn failure_stops_producer(e: crate::state::ListError, events: Seq<ProducerEvent>)
    ensures
        producer_step(ProducerPhase::Appending, ProducerEvent::AppendFailed(e)) == (
            ProducerPhase::Stopped,
            ProducerAction::Report(e),
        ),
        producer_run(ProducerPhase::Stopped, events).0 == ProducerPhase::Stopped,
        producer_run(ProducerPhase::Stopped, events).1.len() == events.len(),
        forall|i: int| 0 <= i < events.len() ==> #[trigger] producer_run(ProducerPhase::Stopped, events).1[i]
            == ProducerAction::Idle,
    decreases events.len(),
{
    if events.len() > 0 {
        failure_stops_producer(e, events.drop_last());
    }
}

} // verus!
