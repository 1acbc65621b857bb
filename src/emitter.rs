//! The change emitter: one poll cycle turns the entries read after the
//! cursor into events and advances the cursor.

use vstd::prelude::*;
use crate::event::{LogEntry, ChangeEvent, describes, build_event};

verus! {

/// The ids of a batch of entries, in order.
pub open spec fn entry_ids(batch: Seq<LogEntry>) -> Seq<i64> {
    batch.map_values(|e: LogEntry| e.id)
}

/// The cursor after consuming `ids` from cursor `c`: the largest id seen.
pub open spec fn cursor_after(c: int, ids: Seq<i64>) -> int
    decreases ids.len(),
{
    if ids.len() == 0 {
        c
    } else {
        let prev = cursor_after(c, ids.drop_last());
        if ids.last() > prev { ids.last() as int } else { prev }
    }
}

/// The positions in `ids` that are emitted from cursor `c`: each entry whose
/// id is beyond the cursor at the moment it is reached.
pub open spec fn admitted(c: int, ids: Seq<i64>) -> Seq<int>
    decreases ids.len(),
{
    if ids.len() == 0 {
        Seq::empty()
    } else {
        let prev = admitted(c, ids.drop_last());
        if ids.last() > cursor_after(c, ids.drop_last()) {
            prev.push(ids.len() - 1)
        } else {
            prev
        }
    }
}

/// Ids in strictly ascending order.
pub open spec fn strictly_ascending(ids: Seq<i64>) -> bool {
    forall|i: int, j: int| 0 <= i < j < ids.len() ==> ids[i] < ids[j]
}

/// The emitter's state: the id of the last entry consumed.
pub struct Emitter {
    pub last_id: i64,
}

impl Emitter {
    /// A fresh emitter, which replays the whole log.
    pub fn new() -> (r: Emitter)
        ensures
            r.last_id == 0,
    {
        Emitter { last_id: 0 }
    }

    /// One poll cycle over `batch`, the entries read after the cursor in
    /// ascending id order. Each entry beyond the cursor gives one event, in
    /// order, and moves the cursor to its id; an entry at or below the
    /// cursor is passed over.
    pub fn poll_changes(&mut self, batch: &Vec<LogEntry>) -> (events: Vec<ChangeEvent>)
        ensures
            final(self).last_id == cursor_after(old(self).last_id as int, entry_ids(batch@)),
            events@.len() == admitted(old(self).last_id as int, entry_ids(batch@)).len(),
            forall|k: int|
                0 <= k < events@.len() ==> {
                    let p = admitted(old(self).last_id as int, entry_ids(batch@))[k];
                    0 <= p < batch@.len() && describes(#[trigger] events@[k], batch@[p])
                },
            forall|k: int|
                0 <= k < events@.len() ==> old(self).last_id < #[trigger] events@[k].id
                    <= final(self).last_id,
            forall|j: int, k: int|
                0 <= j < k < events@.len() ==> #[trigger] events@[j].id < #[trigger] events@[k].id,
    {
        let ghost c = self.last_id as int;
        let ghost ids = entry_ids(batch@);
        let mut events: Vec<ChangeEvent> = Vec::new();
        let mut i: usize = 0;
        while i < batch.len()
            invariant
                ids == entry_ids(batch@),
                i <= batch.len(),
                self.last_id as int == cursor_after(c, ids.subrange(0, i as int)),
                c <= self.last_id,
                events@.len() == admitted(c, ids.subrange(0, i as int)).len(),
                forall|k: int|
                    0 <= k < events@.len() ==> 0 <= #[trigger] admitted(c, ids.subrange(0, i as int))[k]
                        < i,
                forall|k: int|
                    0 <= k < events@.len() ==> describes(
                        #[trigger] events@[k],
                        batch@[admitted(c, ids.subrange(0, i as int))[k]],
                    ),
                forall|k: int|
                    0 <= k < events@.len() ==> c < #[trigger] events@[k].id <= self.last_id,
                forall|j: int, k: int|
                    0 <= j < k < events@.len() ==> #[trigger] events@[j].id
                        < #[trigger] events@[k].id,
            decreases batch.len() - i,
        {
            let ghost before = ids.subrange(0, i as int);
            let ghost after = ids.subrange(0, i + 1);
            assert(after.drop_last() =~= before);
            assert(after.last() == batch@[i as int].id);
            let entry = &batch[i];
            let ghost old_events = events@;
            if entry.id > self.last_id {
                let ev = build_event(entry);
                assert(describes(ev, batch@[i as int]));
                self.last_id = entry.id;
                events.push(ev);
                assert(admitted(c, after) == admitted(c, before).push(i as int));
                assert forall|k: int| 0 <= k < events@.len() implies
                    0 <= admitted(c, after)[k] < i + 1 && describes(#[trigger] events@[k], batch@[admitted(c, after)[k]]) by {
                    if k < old_events.len() {
                        assert(events@[k] == old_events[k]);
                        assert(admitted(c, after)[k] == admitted(c, before)[k]);
                    } else {
                        assert(events@[k] == ev);
                        assert(admitted(c, after)[k] == i);
                    }
                }
            } else {
                assert(admitted(c, after) == admitted(c, before));
            }
            i = i + 1;
        }
        assert(ids.subrange(0, batch.len() as int) =~= ids);
        assert(ids.len() == batch@.len());
        events
    }
}

/// Every position emitted from cursor `c` holds an id beyond `c` and at
/// most the cursor after the batch, and the emitted ids strictly ascend.
pub proof fn lemma_admitted_bounds(c: int, ids: Seq<i64>)
    ensures
        c <= cursor_after(c, ids),
        forall|k: int|
            0 <= k < admitted(c, ids).len() ==> {
                let p = #[trigger] admitted(c, ids)[k];
                &&& 0 <= p < ids.len()
                &&& c < ids[p] <= cursor_after(c, ids)
            },
        forall|j: int, k: int|
            0 <= j < k < admitted(c, ids).len() ==> ids[#[trigger] admitted(c, ids)[j]]
                < ids[#[trigger] admitted(c, ids)[k]],
    decreases ids.len(),
{
    if ids.len() > 0 {
        let prev = ids.drop_last();
        lemma_admitted_bounds(c, prev);
        assert forall|k: int| 0 <= k < admitted(c, prev).len() implies
            ids[admitted(c, prev)[k]] == prev[admitted(c, prev)[k]] by {}
    }
}

/// A cursor that moves across poll cycles: whatever the batches read, each
/// cycle emits ids beyond all ids emitted by the cycle before it.
pub proof fn lemma_cursor_monotonic(c: int, first: Seq<i64>, second: Seq<i64>)
    ensures
        cursor_after(c, first) <= cursor_after(cursor_after(c, first), second),
        forall|j: int, k: int|
            0 <= j < admitted(c, first).len() && 0 <= k < admitted(cursor_after(c, first), second).len()
                ==> first[#[trigger] admitted(c, first)[j]]
                < second[#[trigger] admitted(cursor_after(c, first), second)[k]],
{
    lemma_admitted_bounds(c, first);
    lemma_admitted_bounds(cursor_after(c, first), second);
}

/// A faithful read of the log after cursor `c` (ids beyond `c`, strictly
/// ascending) is emitted whole: one event per entry, in order, and the
/// cursor ends on the last id.
pub proof fn lemma_faithful_read_emits_all(c: int, ids: Seq<i64>)
    requires
        strictly_ascending(ids),
        forall|i: int| 0 <= i < ids.len() ==> c < #[trigger] ids[i],
    ensures
        admitted(c, ids) == Seq::new(ids.len(), |i: int| i),
        cursor_after(c, ids) == if ids.len() == 0 { c } else { ids.last() as int },
    decreases ids.len(),
{
    if ids.len() > 0 {
        let prev = ids.drop_last();
        lemma_faithful_read_emits_all(c, prev);
        assert(admitted(c, ids) =~= Seq::new(ids.len(), |i: int| i));
    }
}

} // verus!
