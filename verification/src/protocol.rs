//! The protocol of a shared vector table, as a state machine.
//!
//! Any number of clients take steps in any order. A dispatch is two steps
//! of its client: it takes a read lease and loads the vector, later it
//! gives the lease back. A modify is three: it takes the write lease, it
//! stores the vector, it gives the lease back. The laws of this module
//! hold of every interleaving.

use vstd::prelude::*;
use crate::lease::{counter_admits, counter_after, LeaseEvent};

verus! {

/// One step of one client.
pub enum TableEvent<S> {
    /// The client tries to take a read lease and, under it, loads the
    /// vector of a slot.
    BeginDispatch { client: int, slot: S },
    /// The client gives its read lease back.
    EndDispatch { client: int },
    /// The client tries to take the write lease.
    BeginModify { client: int },
    /// The client overwrites the vector of a slot.
    Store { client: int, slot: S, vector: usize },
    /// The client gives the write lease back.
    EndModify { client: int },
}

/// A shared table and its clients.
#[verifier::reject_recursive_types(S)]
pub struct TableState<S> {
    /// The value of the lease counter.
    pub count: int,
    /// The vector in each slot.
    pub vectors: Map<S, usize>,
    /// For each client that holds a read lease, the slot it selected and
    /// the vector it loaded.
    pub loaded: Map<int, (S, usize)>,
    /// The client that holds the write lease, if any.
    pub writer: Option<int>,
}

/// A table with the given vectors on which nobody holds a lease.
pub open spec fn initial_state<S>(vectors: Map<S, usize>) -> TableState<S> {
    TableState { count: 0, vectors, loaded: Map::empty(), writer: None }
}

/// The step of the lease counter that an event is.
pub open spec fn lease_event<S>(event: TableEvent<S>) -> Option<LeaseEvent> {
    match event {
        TableEvent::BeginDispatch { .. } => Some(LeaseEvent::AcquireRead),
        TableEvent::EndDispatch { .. } => Some(LeaseEvent::ReleaseRead),
        TableEvent::BeginModify { .. } => Some(LeaseEvent::AcquireWrite),
        TableEvent::Store { .. } => None,
        TableEvent::EndModify { .. } => Some(LeaseEvent::ReleaseWrite),
    }
}

/// Whether a step takes effect. The acquires go by the counter alone; a
/// client releases or stores only under the lease that it holds, and
/// holds one lease at a time.
pub open spec fn enabled<S>(s: TableState<S>, event: TableEvent<S>) -> bool {
    match event {
        TableEvent::BeginDispatch { client, slot } => s.count >= 0 && !s.loaded.dom().contains(
            client,
        ),
        TableEvent::EndDispatch { client } => s.loaded.dom().contains(client),
        TableEvent::BeginModify { client } => s.count == 0,
        TableEvent::Store { client, slot, vector } => s.writer == Some(client),
        TableEvent::EndModify { client } => s.writer == Some(client),
    }
}

/// The state after one attempted step. A step that is not enabled changes
/// nothing: its client spins and tries again.
pub open spec fn step<S>(s: TableState<S>, event: TableEvent<S>) -> TableState<S> {
    if !enabled(s, event) {
        s
    } else {
        match event {
            TableEvent::BeginDispatch { client, slot } => TableState {
                count: s.count + 1,
                loaded: s.loaded.insert(client, (slot, s.vectors[slot])),
                ..s
            },
            TableEvent::EndDispatch { client } => TableState {
                count: s.count - 1,
                loaded: s.loaded.remove(client),
                ..s
            },
            TableEvent::BeginModify { client } => TableState {
                count: -1,
                writer: Some(client),
                ..s
            },
            TableEvent::Store { client, slot, vector } => TableState {
                vectors: s.vectors.insert(slot, vector),
                ..s
            },
            TableEvent::EndModify { client } => TableState { count: 0, writer: None, ..s },
        }
    }
}

/// The state after a whole interleaving of attempted steps.
pub open spec fn run<S>(s: TableState<S>, trace: Seq<TableEvent<S>>) -> TableState<S>
    decreases trace.len(),
{
    if trace.len() == 0 {
        s
    } else {
        step(run(s, trace.drop_last()), trace.last())
    }
}

/// The counter tells the truth and readers see the truth: a writer shows
/// as minus one and excludes every reader; without a writer the counter is
/// the number of readers; and what a reader loaded is what its slot holds.
pub open spec fn table_invariant<S>(s: TableState<S>) -> bool {
    &&& s.loaded.dom().finite()
    &&& s.writer is Some ==> s.count == -1 && s.loaded.dom().len() == 0
    &&& s.writer is None ==> s.count == s.loaded.dom().len()
    &&& forall|client: int| #[trigger]
        s.loaded.dom().contains(client) ==> s.loaded[client].1 == s.vectors[s.loaded[client].0]
}

/// One step keeps the invariant, and moves the counter exactly as the
/// lease counter prescribes for that kind of step.
pub proof fn lemma_step_preserves_invariant<S>(s: TableState<S>, event: TableEvent<S>)
    requires
        table_invariant(s),
    ensures
        table_invariant(step(s, event)),
        lease_event(event) matches Some(kind) ==> enabled(s, event) ==> counter_admits(
            s.count,
            kind,
        ) && step(s, event).count == counter_after(s.count, kind),
        lease_event(event) is None ==> step(s, event).count == s.count,
{
    let next = step(s, event);
    if enabled(s, event) {
        match event {
            TableEvent::BeginDispatch { client, slot } => {
                assert(s.writer is None);
                assert(next.loaded.dom() =~= s.loaded.dom().insert(client));
            },
            TableEvent::EndDispatch { client } => {
                if s.writer is Some {
                    s.loaded.dom().lemma_len0_is_empty();
                }
                assert(next.loaded.dom() =~= s.loaded.dom().remove(client));
            },
            TableEvent::BeginModify { client } => {
                assert(s.writer is None);
            },
            TableEvent::Store { client, slot, vector } => {
                s.loaded.dom().lemma_len0_is_empty();
            },
            TableEvent::EndModify { client } => {},
        }
    }
}

/// Whatever the interleaving, the invariant holds, and so the counter is
/// never below minus one.
pub proof fn lemma_run_preserves_invariant<S>(vectors: Map<S, usize>, trace: Seq<TableEvent<S>>)
    ensures
        table_invariant(run(initial_state(vectors), trace)),
        run(initial_state(vectors), trace).count >= -1,
    decreases trace.len(),
{
    if trace.len() > 0 {
        lemma_run_preserves_invariant(vectors, trace.drop_last());
        lemma_step_preserves_invariant(
            run(initial_state(vectors), trace.drop_last()),
            trace.last(),
        );
    }
}

/// While no writer holds the table, every client without a lease is
/// admitted as a reader, however many readers there are.
pub proof fn lemma_readers_proceed_together<S>(s: TableState<S>, client: int, slot: S)
    requires
        table_invariant(s),
        s.writer is None,
        !s.loaded.dom().contains(client),
    ensures
        enabled(s, TableEvent::BeginDispatch { client, slot }),
        step(s, TableEvent::BeginDispatch { client, slot }).loaded[client] == (
            slot,
            s.vectors[slot],
        ),
        step(s, TableEvent::BeginDispatch { client, slot }).loaded.dom().len()
            == s.loaded.dom().len() + 1,
{
    let next = step(s, TableEvent::BeginDispatch { client, slot });
    assert(next.loaded.dom() =~= s.loaded.dom().insert(client));
}

/// While a client holds a read lease, nobody takes the write lease and
/// nobody stores: no modify completes its write under a reader.
pub proof fn lemma_readers_exclude_the_writer<S>(
    s: TableState<S>,
    reader: int,
    event: TableEvent<S>,
)
    requires
        table_invariant(s),
        s.loaded.dom().contains(reader),
    ensures
        s.writer is None,
        event is BeginModify || event is Store || event is EndModify ==> !enabled(s, event)
            && step(s, event) == s,
        step(s, event).vectors == s.vectors,
{
    if s.writer is Some {
        s.loaded.dom().lemma_len0_is_empty();
    }
}

/// While a client holds the write lease, nobody loads a vector: no
/// dispatch observes a value in the middle of a write.
pub proof fn lemma_writer_excludes_readers<S>(s: TableState<S>, event: TableEvent<S>)
    requires
        table_invariant(s),
        s.writer is Some,
    ensures
        s.loaded.dom() == Set::<int>::empty(),
        event is BeginDispatch || event is BeginModify ==> !enabled(s, event) && step(s, event)
            == s,
{
    s.loaded.dom().lemma_len0_is_empty();
}

/// What a reader loaded stays what its slot holds for as long as it holds
/// its lease, whatever the other clients attempt in the meantime.
pub proof fn lemma_loaded_vector_is_stable<S>(
    s: TableState<S>,
    reader: int,
    others: Seq<TableEvent<S>>,
)
    requires
        table_invariant(s),
        s.loaded.dom().contains(reader),
        forall|i: int|
            0 <= i < others.len() ==> (#[trigger] others[i]) != (TableEvent::<S>::EndDispatch {
                client: reader,
            }),
    ensures
        run(s, others).loaded.dom().contains(reader),
        run(s, others).loaded[reader] == s.loaded[reader],
        run(s, others).vectors == s.vectors,
        table_invariant(run(s, others)),
    decreases others.len(),
{
    if others.len() > 0 {
        let before = run(s, others.drop_last());
        let event = others.last();
        assert forall|i: int| 0 <= i < others.drop_last().len() implies (
        #[trigger] others.drop_last()[i]) != (TableEvent::<S>::EndDispatch { client: reader }) by {
            assert(others.drop_last()[i] == others[i]);
        }
        lemma_loaded_vector_is_stable(s, reader, others.drop_last());
        lemma_step_preserves_invariant(before, event);
        lemma_readers_exclude_the_writer(before, reader, event);
        assert(event == others[others.len() - 1]);
    }
}

/// A reader that starts after a modify has completed loads the vector
/// that the modify stored.
pub proof fn lemma_dispatch_after_modify<S>(
    s: TableState<S>,
    writer: int,
    reader: int,
    slot: S,
    vector: usize,
)
    requires
        table_invariant(s),
        s.count == 0,
    ensures
        ({
            let modified = run(
                s,
                seq![
                    TableEvent::BeginModify { client: writer },
                    TableEvent::Store { client: writer, slot, vector },
                    TableEvent::EndModify { client: writer },
                ],
            );
            &&& table_invariant(modified)
            &&& modified.count == 0
            &&& modified.vectors == s.vectors.insert(slot, vector)
            &&& step(modified, TableEvent::BeginDispatch { client: reader, slot }).loaded[reader]
                == (slot, vector)
        }),
{
    let begin = TableEvent::BeginModify { client: writer };
    let store = TableEvent::Store { client: writer, slot, vector };
    let end = TableEvent::EndModify { client: writer };
    let trace = seq![begin, store, end];
    assert(s.writer is None);
    s.loaded.dom().lemma_len0_is_empty();
    assert(trace.drop_last() =~= seq![begin, store]);
    assert(trace.drop_last().drop_last() =~= seq![begin]);
    assert(trace.drop_last().drop_last().drop_last() =~= Seq::<TableEvent<S>>::empty());
    let s0 = run(s, Seq::<TableEvent<S>>::empty());
    assert(s0 == s);
    let s1 = run(s, seq![begin]);
    assert(s1 == step(s0, begin));
    let s2 = run(s, seq![begin, store]);
    assert(s2 == step(s1, store));
    let s3 = run(s, trace);
    assert(s3 == step(s2, end));
    lemma_step_preserves_invariant(s0, begin);
    lemma_step_preserves_invariant(s1, store);
    lemma_step_preserves_invariant(s2, end);
    assert(s3.loaded.dom() =~= Set::<int>::empty());
}

} // verus!
