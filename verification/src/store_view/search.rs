//! The search for events: what is found, and in which order.

use crate::models::{ArtistView, EventArtist, EventStatus, EventView};
use crate::seqs::{filtered, find_where, first_where, lemma_first_is};
use crate::store_view::StoreView;
use crate::text::{Id, is_infix, lex_less, lowercase};
use vstd::prelude::*;

verus! {

impl StoreView {
    pub open spec fn artist(self, id: Id) -> Option<ArtistView> {
        find_where(self.artists, artist_with_id(id))
    }

    /// Whether the link says that an artist whose name holds the query plays at the event.
    pub open spec fn plays_like(self, link: EventArtist, event_id: Id, query: Seq<char>) -> bool {
        link.event_id == event_id && (self.artist(link.artist_id) matches Some(a) && like(a.name, query))
    }

    /// Whether an artist whose name holds the query plays at the event.
    pub open spec fn artist_like(self, event_id: Id, query: Seq<char>) -> bool {
        exists|k: int|
            0 <= k < self.event_artists.len() && self.plays_like(#[trigger] self.event_artists[k], event_id, query)
    }

    /// Whether the venue exists and its name holds the query.
    pub open spec fn venue_like(self, venue_id: Option<Id>, query: Seq<char>) -> bool {
        venue_id matches Some(id) && (self.venue(id) matches Some(v) && like(v.name, query))
    }

    /// Whether a search for the query finds the event by a name: its own,
    /// that of its venue, or that of an artist who plays at it. A search
    /// without a query finds every event.
    pub open spec fn named_like(self, event: EventView, query: Option<Seq<char>>) -> bool {
        match query {
            None => true,
            Some(q) => like(event.name, q) || self.venue_like(event.venue_id, q) || self.artist_like(event.id, q),
        }
    }

    /// Whether the event is at a venue of the region, where a region is asked for.
    pub open spec fn in_region(self, event: EventView, region_id: Option<Id>) -> bool {
        match region_id {
            None => true,
            Some(r) => event.venue_id matches Some(id) && (self.venue(id) matches Some(v) && v.region_id == Some(r)),
        }
    }

    /// Whether a search finds the event: it starts after `start_time` and
    /// before `end_time`, a name holds the query, it is no draft, it is in
    /// one of the states asked for, and in the region asked for.
    pub open spec fn found(
        self,
        event: EventView,
        query: Option<Seq<char>>,
        region_id: Option<Id>,
        start_time: Option<i64>,
        end_time: Option<i64>,
        statuses: Option<Seq<EventStatus>>,
    ) -> bool {
        &&& event.event_start matches Some(t) && search_from(start_time) < t < search_until(end_time)
        &&& self.named_like(event, query)
        &&& event.status != EventStatus::Draft
        &&& statuses matches Some(list) ==> list.contains(event.status)
        &&& self.in_region(event, region_id)
    }

    pub open spec fn searched(
        self,
        query: Option<Seq<char>>,
        region_id: Option<Id>,
        start_time: Option<i64>,
        end_time: Option<i64>,
        statuses: Option<Seq<EventStatus>>,
    ) -> spec_fn(EventView) -> bool {
        |e: EventView| self.found(e, query, region_id, start_time, end_time, statuses)
    }

    /// The events that a search finds, by their start and then by their
    /// name; events that are the same in both stay in the order of the store.
    pub open spec fn search(
        self,
        query: Option<Seq<char>>,
        region_id: Option<Id>,
        start_time: Option<i64>,
        end_time: Option<i64>,
        statuses: Option<Seq<EventStatus>>,
    ) -> Seq<EventView> {
        ordered(filtered(self.events, self.searched(query, region_id, start_time, end_time, statuses)))
    }
}

pub open spec fn artist_with_id(id: Id) -> spec_fn(ArtistView) -> bool {
    |a: ArtistView| a.id == id
}

/// The start of time for a search that names none: the first of January 1970.
pub const SEARCH_FROM: i64 = 0;

/// The end of time for a search that names none: the first of January 3970.
pub const SEARCH_UNTIL: i64 = 63_113_904_000;

pub open spec fn search_from(start_time: Option<i64>) -> i64 {
    match start_time {
        Some(t) => t,
        None => SEARCH_FROM,
    }
}

pub open spec fn search_until(end_time: Option<i64>) -> i64 {
    match end_time {
        Some(t) => t,
        None => SEARCH_UNTIL,
    }
}

/// Whether the text holds the query, whatever the case of the letters.
pub open spec fn like(text: Seq<char>, query: Seq<char>) -> bool {
    is_infix(lowercase(query), lowercase(text))
}

/// The states of a filter.
pub open spec fn status_list(statuses: Option<Vec<EventStatus>>) -> Option<Seq<EventStatus>> {
    match statuses {
        Some(list) => Some(list@),
        None => None,
    }
}

/// What events are ordered by first: their start. An event without one comes first.
pub open spec fn start_key(event: EventView) -> int {
    match event.event_start {
        Some(t) => t as int,
        None => i64::MIN - 1,
    }
}

/// Whether `a` comes before `b`: it starts earlier, or at the same time
/// with a name that comes first in the order of the dictionary.
pub open spec fn comes_before(a: EventView, b: EventView) -> bool {
    start_key(a) < start_key(b) || (start_key(a) == start_key(b) && lex_less(a.name, b.name))
}

pub open spec fn after(event: EventView) -> spec_fn(EventView) -> bool {
    |x: EventView| comes_before(event, x)
}

/// The list with the event put before the first event that comes after it.
pub open spec fn placed(sorted: Seq<EventView>, event: EventView) -> Seq<EventView> {
    match first_where(sorted, after(event)) {
        Some(i) => sorted.insert(i, event),
        None => sorted.push(event),
    }
}

/// The events by start and name.
pub open spec fn ordered(list: Seq<EventView>) -> Seq<EventView>
    decreases list.len(),
{
    if list.len() == 0 {
        Seq::empty()
    } else {
        placed(ordered(list.drop_last()), list.last())
    }
}

/// No event of the list comes before one that stands earlier in it.
pub open spec fn in_order(list: Seq<EventView>) -> bool {
    forall|i: int, j: int| 0 <= i < j < list.len() ==> !comes_before(#[trigger] list[j], #[trigger] list[i])
}

/// The order of the dictionary is transitive.
pub proof fn lemma_lex_less_transitive(a: Seq<char>, b: Seq<char>, c: Seq<char>)
    requires
        lex_less(a, b),
        lex_less(b, c),
    ensures
        lex_less(a, c),
    decreases a.len(),
{
    if a.len() > 0 && b.len() > 0 && c.len() > 0 {
        if a[0] == b[0] && b[0] == c[0] {
            lemma_lex_less_transitive(a.drop_first(), b.drop_first(), c.drop_first());
        }
    }
}

/// No text comes before itself.
pub proof fn lemma_lex_less_irreflexive(a: Seq<char>)
    ensures
        !lex_less(a, a),
    decreases a.len(),
{
    if a.len() > 0 {
        lemma_lex_less_irreflexive(a.drop_first());
    }
}

/// Coming before is transitive.
pub proof fn lemma_comes_before_transitive(a: EventView, b: EventView, c: EventView)
    requires
        comes_before(a, b),
        comes_before(b, c),
    ensures
        comes_before(a, c),
{
    if start_key(a) == start_key(b) && start_key(b) == start_key(c) {
        lemma_lex_less_transitive(a.name, b.name, c.name);
    }
}

/// Putting an event in its place keeps a list in order, and adds that event and no other.
pub proof fn lemma_placed(sorted: Seq<EventView>, event: EventView)
    requires
        in_order(sorted),
    ensures
        in_order(placed(sorted, event)),
        placed(sorted, event).len() == sorted.len() + 1,
        forall|x: EventView| placed(sorted, event).contains(x) <==> (sorted.contains(x) || x == event),
{
    lemma_first_is(sorted, after(event));
    let next = placed(sorted, event);
    let p = match first_where(sorted, after(event)) {
        Some(i) => i,
        None => sorted.len() as int,
    };
    assert(next == sorted.insert(p, event));
    assert forall|i: int, j: int| 0 <= i < j < next.len() implies !comes_before(
        #[trigger] next[j],
        #[trigger] next[i],
    ) by {
        if j == p {
            assert(next[i] == sorted[i]);
            assert(!after(event)(sorted[i]));
        } else if i == p {
            assert(next[j] == sorted[j - 1]);
            assert(after(event)(sorted[p]));
            if comes_before(sorted[j - 1], event) {
                lemma_comes_before_transitive(sorted[j - 1], event, sorted[p]);
                if j - 1 > p {
                    assert(!comes_before(sorted[j - 1], sorted[p]));
                } else {
                    lemma_lex_less_irreflexive(sorted[p].name);
                }
            }
        } else {
            let a = if i < p { i } else { i - 1 };
            let b = if j < p { j } else { j - 1 };
            assert(next[i] == sorted[a] && next[j] == sorted[b]);
        }
    }
    assert forall|x: EventView| next.contains(x) <==> (sorted.contains(x) || x == event) by {
        if sorted.contains(x) {
            let k = choose|k: int| 0 <= k < sorted.len() && sorted[k] == x;
            if k < p {
                assert(next[k] == x);
            } else {
                assert(next[k + 1] == x);
            }
        }
        if x == event {
            assert(next[p] == x);
        }
        if next.contains(x) {
            let k = choose|k: int| 0 <= k < next.len() && next[k] == x;
            if k < p {
                assert(sorted[k] == x);
            } else if k > p {
                assert(sorted[k - 1] == x);
            }
        }
    }
}

/// Events by start and name are in order, and are the events of the list.
pub proof fn lemma_ordered(list: Seq<EventView>)
    ensures
        in_order(ordered(list)),
        ordered(list).len() == list.len(),
        forall|x: EventView| ordered(list).contains(x) <==> list.contains(x),
    decreases list.len(),
{
    if list.len() > 0 {
        let front = list.drop_last();
        lemma_ordered(front);
        lemma_placed(ordered(front), list.last());
        assert forall|x: EventView| ordered(list).contains(x) <==> list.contains(x) by {
            if front.contains(x) {
                let k = choose|k: int| 0 <= k < front.len() && front[k] == x;
                assert(list[k] == x);
            }
            if x == list.last() {
                assert(list[list.len() - 1] == x);
            }
            if list.contains(x) {
                let k = choose|k: int| 0 <= k < list.len() && list[k] == x;
                if k < front.len() {
                    assert(front[k] == x);
                }
            }
        }
    }
}

} // verus!
