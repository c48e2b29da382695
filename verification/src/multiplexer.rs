//! The event multiplexer: how the merged sub-streams become the one stream
//! that the state machine reads.
//!
//! The caller merges the sub-streams fairly. The stream made of them is cut
//! before the first `Shutdown`, and one `Shutdown` is put at its end, so that
//! the reader meets a last event even where only sentinels came.

use crate::configuration::{Configuration, Schema};
use crate::event::Event;
use crate::source::{configuration_events, schema_events};
use vstd::prelude::*;

verus! {

/// The events of `events` that come before its first `Shutdown`: all of them
/// where it holds none.
pub open spec fn until_shutdown(events: Seq<Event>) -> Seq<Event>
    decreases events.len(),
{
    if events.len() == 0 {
        Seq::empty()
    } else {
        let earlier = until_shutdown(events.drop_last());
        if earlier.len() == events.len() - 1 && !(events.last() is Shutdown) {
            earlier.push(events.last())
        } else {
            earlier
        }
    }
}

/// The unified stream made of the merged events: those before the first
/// `Shutdown`, then `Shutdown`.
pub open spec fn terminated(events: Seq<Event>) -> Seq<Event> {
    until_shutdown(events).push(Event::Shutdown)
}

/// `until_shutdown` is the longest start of the events that holds no
/// `Shutdown`.
pub proof fn lemma_until_shutdown(events: Seq<Event>)
    ensures
        until_shutdown(events).len() <= events.len(),
        until_shutdown(events) == events.take(until_shutdown(events).len() as int),
        forall|i: int| 0 <= i < until_shutdown(events).len() ==> !(#[trigger] events[i] is Shutdown),
        until_shutdown(events).len() < events.len() ==> events[until_shutdown(events).len() as int] is Shutdown,
    decreases events.len(),
{
    if events.len() > 0 {
        let shorter = events.drop_last();
        lemma_until_shutdown(shorter);
        let earlier = until_shutdown(shorter);
        assert(earlier == events.take(earlier.len() as int));
        assert forall|i: int| 0 <= i < earlier.len() implies !(#[trigger] events[i] is Shutdown) by {
            assert(shorter[i] == events[i]);
        }
        if earlier.len() == events.len() - 1 && !(events.last() is Shutdown) {
            assert(earlier.push(events.last()) == events.take(events.len() as int));
        }
    }
}

/// The multiplexer's memory: whether the unified stream has ended.
#[derive(Clone, Copy, Debug, PartialEq, Eq, Structural)]
pub struct Multiplexer {
    /// Whether the last `Shutdown` was forwarded.
    pub closed: bool,
}

impl Multiplexer {
    /// What is forwarded for `item`, the next item of the merged sub-streams
    /// or `None` at their end, and whether the unified stream is closed after
    /// it. An open multiplexer forwards every event but `Shutdown` as it is;
    /// at `Shutdown`, or at the end of the sub-streams, it forwards `Shutdown`
    /// and closes. A closed one forwards nothing.
    pub open spec fn forwarded(self, item: Option<Event>) -> (Multiplexer, Option<Event>) {
        if self.closed {
            (self, None)
        } else {
            match item {
                Some(Event::Shutdown) => (Multiplexer { closed: true }, Some(Event::Shutdown)),
                Some(event) => (self, Some(event)),
                None => (Multiplexer { closed: true }, Some(Event::Shutdown)),
            }
        }
    }

    /// A multiplexer whose unified stream is open.
    pub fn new() -> (multiplexer: Self)
        ensures
            !multiplexer.closed,
    {
        Multiplexer { closed: false }
    }

    /// Takes the next item of the merged sub-streams, or `None` at their end,
    /// and gives the event to forward, if any.
    pub fn forward(&mut self, item: Option<Event>) -> (event: Option<Event>)
        ensures
            (*final(self), event) == old(self).forwarded(item),
    {
        if self.closed {
            return None;
        }
        match item {
            Some(Event::Shutdown) => {
                self.closed = true;
                Some(Event::Shutdown)
            },
            Some(event) => Some(event),
            None => {
                self.closed = true;
                Some(Event::Shutdown)
            },
        }
    }
}

/// Makes the unified stream of the merged events: forwards them until the
/// first `Shutdown` and ends with one `Shutdown`, whether one came or not.
pub fn generate_event_stream(merged: Vec<Event>) -> (unified: Vec<Event>)
    ensures
        unified@ == terminated(merged@),
{
    let mut multiplexer = Multiplexer::new();
    let mut unified: Vec<Event> = Vec::new();
    let ghost all = merged@;
    for event in it: merged
        invariant
            it.seq() == all,
            !multiplexer.closed ==> unified@ == until_shutdown(all.take(it.index())) && unified@.len()
                == it.index(),
            multiplexer.closed ==> unified@ == terminated(all.take(it.index())) && unified@.len()
                <= it.index(),
    {
        proof {
            let next = all.take(it.index() + 1);
            assert(next.drop_last() == all.take(it.index()));
            assert(next.last() == event);
        }
        match multiplexer.forward(Some(event)) {
            Some(forwarded) => {
                unified.push(forwarded);
            },
            None => {},
        }
    }
    proof {
        assert(all.take(all.len() as int) == all);
    }
    match multiplexer.forward(None) {
        Some(forwarded) => {
            unified.push(forwarded);
        },
        None => {},
    }
    unified
}

/// The unified stream ends with exactly one `Shutdown`: its last event is
/// `Shutdown` and no other is. Before it stand the merged events up to their
/// first `Shutdown`, unchanged and in order.
pub proof fn lemma_ends_with_one_shutdown(merged: Seq<Event>)
    ensures
        terminated(merged).len() >= 1,
        terminated(merged).last() is Shutdown,
        forall|i: int| 0 <= i < terminated(merged).len() - 1 ==> !(#[trigger] terminated(merged)[i] is Shutdown),
        terminated(merged).len() - 1 <= merged.len(),
        forall|i: int| 0 <= i < terminated(merged).len() - 1 ==> #[trigger] terminated(merged)[i] == merged[i],
        terminated(merged).len() - 1 < merged.len() ==> merged[terminated(merged).len() - 1] is Shutdown,
{
    lemma_until_shutdown(merged);
}

/// Whether `merged` is a merge of `parts`: it holds every event of every
/// part, and those of one part in that part's order. How the parts are
/// interleaved is open.
pub open spec fn interleaves(merged: Seq<Event>, parts: Seq<Seq<Event>>) -> bool
    decreases merged.len(),
{
    if merged.len() == 0 {
        forall|k: int| 0 <= k < parts.len() ==> (#[trigger] parts[k]).len() == 0
    } else {
        exists|k: int|
            0 <= k < parts.len() && (#[trigger] parts[k]).len() > 0 && parts[k].last() == merged.last()
                && interleaves(merged.drop_last(), parts.update(k, parts[k].drop_last()))
    }
}

/// Whether `event` belongs to the configuration source.
pub open spec fn of_configuration(event: Event) -> bool {
    event is UpdateConfiguration || event is NoMoreConfiguration
}

/// Whether `event` belongs to the schema source.
pub open spec fn of_schema(event: Event) -> bool {
    event is UpdateSchema || event is NoMoreSchema
}

/// Every event of a merge is an event of one of its parts.
proof fn lemma_merged_from_parts(merged: Seq<Event>, parts: Seq<Seq<Event>>, i: int)
    requires
        interleaves(merged, parts),
        0 <= i < merged.len(),
    ensures
        exists|k: int, j: int| 0 <= k < parts.len() && 0 <= j < parts[k].len() && #[trigger] parts[k][j] == merged[i],
    decreases merged.len(),
{
    let k = choose|k: int|
        0 <= k < parts.len() && (#[trigger] parts[k]).len() > 0 && parts[k].last() == merged.last()
            && interleaves(merged.drop_last(), parts.update(k, parts[k].drop_last()));
    if i == merged.len() - 1 {
        assert(parts[k][parts[k].len() - 1] == merged[i]);
    } else {
        let rest = parts.update(k, parts[k].drop_last());
        lemma_merged_from_parts(merged.drop_last(), rest, i);
        let (p, j) = choose|p: int, j: int|
            0 <= p < rest.len() && 0 <= j < rest[p].len() && #[trigger] rest[p][j] == merged.drop_last()[i];
        assert(parts[p][j] == merged[i]);
    }
}

/// In a merge where one part alone holds the events of a kind, and holds the
/// kind's sentinel last if at all, no event of the kind follows the sentinel.
proof fn lemma_nothing_after_sentinel(
    merged: Seq<Event>,
    parts: Seq<Seq<Event>>,
    source: int,
    kind: spec_fn(Event) -> bool,
    sentinel: Event,
)
    requires
        interleaves(merged, parts),
        0 <= source < parts.len(),
        kind(sentinel),
        forall|k: int, j: int|
            0 <= k < parts.len() && k != source && 0 <= j < parts[k].len() ==> !kind(#[trigger] parts[k][j]),
        forall|j: int| 0 <= j < parts[source].len() - 1 ==> #[trigger] parts[source][j] != sentinel,
    ensures
        forall|i: int, j: int| 0 <= i < j < merged.len() && #[trigger] merged[i] == sentinel ==> !kind(#[trigger] merged[j]),
    decreases merged.len(),
{
    if merged.len() > 0 {
        let k = choose|k: int|
            0 <= k < parts.len() && (#[trigger] parts[k]).len() > 0 && parts[k].last() == merged.last()
                && interleaves(merged.drop_last(), parts.update(k, parts[k].drop_last()));
        let shorter = merged.drop_last();
        let rest = parts.update(k, parts[k].drop_last());
        assert forall|p: int, j: int| 0 <= p < rest.len() && p != source && 0 <= j < rest[p].len() implies !kind(
            #[trigger] rest[p][j],
        ) by {
            assert(rest[p][j] == parts[p][j]);
        }
        assert forall|j: int| 0 <= j < rest[source].len() - 1 implies #[trigger] rest[source][j] != sentinel by {
            assert(rest[source][j] == parts[source][j]);
        }
        lemma_nothing_after_sentinel(shorter, rest, source, kind, sentinel);
        assert forall|i: int, j: int| 0 <= i < j < merged.len() && #[trigger] merged[i] == sentinel implies !kind(
            #[trigger] merged[j],
        ) by {
            if j < merged.len() - 1 {
                assert(shorter[i] == merged[i]);
                assert(shorter[j] == merged[j]);
            } else if kind(merged[j]) {
                assert(parts[k][parts[k].len() - 1] == merged[j]);
                assert(k == source);
                lemma_merged_from_parts(shorter, rest, i);
                let (p, q) = choose|p: int, q: int|
                    0 <= p < rest.len() && 0 <= q < rest[p].len() && #[trigger] rest[p][q] == shorter[i];
                assert(shorter[i] == sentinel);
                if p == source {
                    assert(rest[source][q] == parts[source][q]);
                } else {
                    assert(rest[p][q] == parts[p][q]);
                }
            }
        }
    }
}

/// In the stream that the state machine reads, each of the two sentinels
/// appears once at most, and after `NoMoreConfiguration` comes no
/// configuration, after `NoMoreSchema` no schema. This holds of the unified
/// stream made of any merge of the four sub-streams: the shutdown source, the
/// configuration source, the schema source and the handle's shutdown signal.
pub proof fn lemma_sentinels_come_last(
    merged: Seq<Event>,
    shutdown: Seq<Event>,
    configurations: Seq<Configuration>,
    schemas: Seq<Schema>,
    handle_shutdown: Seq<Event>,
)
    requires
        interleaves(
            merged,
            seq![shutdown, configuration_events(configurations), schema_events(schemas), handle_shutdown],
        ),
        forall|i: int| 0 <= i < shutdown.len() ==> #[trigger] shutdown[i] is Shutdown,
        forall|i: int| 0 <= i < handle_shutdown.len() ==> #[trigger] handle_shutdown[i] is Shutdown,
    ensures
        forall|i: int, j: int|
            0 <= i < j < terminated(merged).len() && #[trigger] terminated(merged)[i] is NoMoreConfiguration
                ==> !of_configuration(#[trigger] terminated(merged)[j]),
        forall|i: int, j: int|
            0 <= i < j < terminated(merged).len() && #[trigger] terminated(merged)[i] is NoMoreSchema
                ==> !of_schema(#[trigger] terminated(merged)[j]),
{
    let parts = seq![shutdown, configuration_events(configurations), schema_events(schemas), handle_shutdown];
    let unified = terminated(merged);
    lemma_until_shutdown(merged);
    lemma_nothing_after_sentinel(
        merged,
        parts,
        1,
        |event: Event| of_configuration(event),
        Event::NoMoreConfiguration,
    );
    lemma_nothing_after_sentinel(merged, parts, 2, |event: Event| of_schema(event), Event::NoMoreSchema);
    assert forall|i: int, j: int|
        0 <= i < j < unified.len() && #[trigger] unified[i] is NoMoreConfiguration implies !of_configuration(
        #[trigger] unified[j],
    ) by {
        assert(unified[i] == merged[i]);
        if j < unified.len() - 1 {
            assert(unified[j] == merged[j]);
        }
    }
    assert forall|i: int, j: int|
        0 <= i < j < unified.len() && #[trigger] unified[i] is NoMoreSchema implies !of_schema(
        #[trigger] unified[j],
    ) by {
        assert(unified[i] == merged[i]);
        if j < unified.len() - 1 {
            assert(unified[j] == merged[j]);
        }
    }
}

} // verus!
