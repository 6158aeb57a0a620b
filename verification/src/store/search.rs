//! Searching the events of the store.

use crate::models::{Artist, ArtistView, Event, EventStatus};
use crate::seqs::{at, filtered, first_where, lemma_first_found, lemma_first_none};
use crate::store::OrderStore;
use crate::store_view::{
    SEARCH_FROM, SEARCH_UNTIL, StoreView, after, artist_with_id, comes_before, in_order, lemma_inv_grow,
    lemma_ordered, ordered, placed, status_list,
};
use crate::text::{Id, contains_text, is_infix, opt_text, text_less, to_lowercase, lowercase};
use vstd::prelude::*;

verus! {

/// Whether the text holds the query, which is in lower case already.
fn holds_query(text: &str, lower_query: &str) -> (r: bool)
    ensures
        r == is_infix(lower_query@, lowercase(text@)),
{
    let lower = to_lowercase(text);
    contains_text(lower.as_str(), lower_query)
}

/// Whether `a` comes before `b` by start and name.
fn event_comes_before(a: &Event, b: &Event) -> (r: bool)
    ensures
        r == comes_before(a@, b@),
{
    match (a.event_start, b.event_start) {
        (Some(x), Some(y)) => x < y || (x == y && text_less(a.name.as_str(), b.name.as_str())),
        (None, Some(_)) => true,
        (Some(_), None) => false,
        (None, None) => text_less(a.name.as_str(), b.name.as_str()),
    }
}

/// Puts an event before the first event of the list that comes after it.
fn place(sorted: &mut Vec<Event>, event: Event)
    ensures
        final(sorted)@.map_values(|e: Event| e@) == placed(old(sorted)@.map_values(|e: Event| e@), event@),
{
    let ghost views = sorted@.map_values(|e: Event| e@);
    let mut p: usize = 0;
    while p < sorted.len()
        invariant
            p <= sorted.len(),
            *sorted == *old(sorted),
            views == sorted@.map_values(|e: Event| e@),
            forall|j: int| 0 <= j < p ==> !#[trigger] after(event@)(views[j]),
        decreases sorted.len() - p,
    {
        if event_comes_before(&event, &sorted[p]) {
            proof {
                lemma_first_found(views, after(event@), p as int);
            }
            let ghost v = event@;
            sorted.insert(p, event);
            assert(sorted@.map_values(|e: Event| e@) =~= views.insert(p as int, v));
            return ;
        }
        p += 1;
    }
    proof {
        lemma_first_none(views, after(event@));
    }
    let ghost v = event@;
    sorted.push(event);
    assert(sorted@.map_values(|e: Event| e@) =~= views.push(v));
}

/// Whether the list holds the state.
fn holds_status(statuses: &Vec<EventStatus>, status: EventStatus) -> (r: bool)
    ensures
        r == statuses@.contains(status),
{
    let mut i: usize = 0;
    while i < statuses.len()
        invariant
            i <= statuses.len(),
            forall|j: int| 0 <= j < i ==> statuses@[j] != status,
        decreases statuses.len() - i,
    {
        if statuses[i] == status {
            return true;
        }
        i += 1;
    }
    false
}

impl OrderStore {
    /// Adds an artist and returns the identifier given to it.
    pub fn add_artist(&mut self, name: String) -> (id: Id)
        requires
            old(self).wf(),
        ensures
            final(self).wf(),
            id == old(self)@.next_id,
            final(self)@ == (StoreView {
                next_id: (id + 1) as Id,
                artists: old(self)@.artists.push(ArtistView { id, name: name@ }),
                ..old(self)@
            }),
    {
        let id = self.fresh_id();
        let artist = Artist { id, name };
        let ghost v = artist@;
        self.artists.push(artist);
        proof {
            assert(self@.artists =~= old(self)@.artists.push(v));
            lemma_inv_grow(old(self)@, self@);
        }
        id
    }

    fn artist_index(&self, id: Id) -> (r: Option<usize>)
        ensures
            at(r) == first_where(self@.artists, artist_with_id(id)),
            r matches Some(i) ==> i < self.artists.len(),
    {
        let mut i: usize = 0;
        while i < self.artists.len()
            invariant
                i <= self.artists.len(),
                forall|j: int| 0 <= j < i ==> !#[trigger] artist_with_id(id)(self@.artists[j]),
            decreases self.artists.len() - i,
        {
            if self.artists[i].id == id {
                proof {
                    lemma_first_found(self@.artists, artist_with_id(id), i as int);
                }
                return Some(i);
            }
            i += 1;
        }
        proof {
            lemma_first_none(self@.artists, artist_with_id(id));
        }
        None
    }

    fn artist_like(&self, event_id: Id, query: &str, lower_query: &str) -> (r: bool)
        requires
            lower_query@ == lowercase(query@),
        ensures
            r == self@.artist_like(event_id, query@),
    {
        let mut k: usize = 0;
        while k < self.event_artists.len()
            invariant
                k <= self.event_artists.len(),
                lower_query@ == lowercase(query@),
                forall|j: int| 0 <= j < k ==> !self@.plays_like(#[trigger] self@.event_artists[j], event_id, query@),
            decreases self.event_artists.len() - k,
        {
            let link = self.event_artists[k];
            if link.event_id == event_id {
                if let Some(i) = self.artist_index(link.artist_id) {
                    if holds_query(self.artists[i].name.as_str(), lower_query) {
                        assert(self@.plays_like(self@.event_artists[k as int], event_id, query@));
                        return true;
                    }
                }
            }
            k += 1;
        }
        false
    }

    fn venue_like(&self, venue_id: Option<Id>, query: &str, lower_query: &str) -> (r: bool)
        requires
            lower_query@ == lowercase(query@),
        ensures
            r == self@.venue_like(venue_id, query@),
    {
        match venue_id {
            Some(id) => match self.venue(id) {
                Some(v) => holds_query(v.name.as_str(), lower_query),
                None => false,
            },
            None => false,
        }
    }

    fn in_region(&self, event: &Event, region_id: Option<Id>) -> (r: bool)
        ensures
            r == self@.in_region(event@, region_id),
    {
        match region_id {
            None => true,
            Some(region) => match event.venue_id {
                Some(id) => match self.venue(id) {
                    Some(v) => v.region_id == Some(region),
                    None => false,
                },
                None => false,
            },
        }
    }

    fn found(
        &self,
        event: &Event,
        query: &Option<String>,
        lower_query: &Option<String>,
        region_id: Option<Id>,
        start_time: Option<i64>,
        end_time: Option<i64>,
        statuses: &Option<Vec<EventStatus>>,
    ) -> (r: bool)
        requires
            match *query {
                Some(q) => *lower_query matches Some(l) && l@ == lowercase(q@),
                None => *lower_query is None,
            },
        ensures
            r == self@.found(event@, opt_text(*query), region_id, start_time, end_time, status_list(*statuses)),
    {
        let from = match start_time {
            Some(t) => t,
            None => SEARCH_FROM,
        };
        let until = match end_time {
            Some(t) => t,
            None => SEARCH_UNTIL,
        };
        let in_time = match event.event_start {
            Some(t) => from < t && t < until,
            None => false,
        };
        if !in_time {
            return false;
        }
        let named = match (query, lower_query) {
            (Some(q), Some(l)) => holds_query(event.name.as_str(), l.as_str()) || self.venue_like(
                event.venue_id,
                q.as_str(),
                l.as_str(),
            ) || self.artist_like(event.id, q.as_str(), l.as_str()),
            _ => true,
        };
        if !named {
            return false;
        }
        if event.status == EventStatus::Draft {
            return false;
        }
        let in_status = match statuses {
            Some(list) => holds_status(list, event.status),
            None => true,
        };
        in_status && self.in_region(event, region_id)
    }

    /// Searches the events.
    ///
    /// An event is found if it starts after `start_time` (or 1970) and
    /// before `end_time` (or 3970), is no draft, is in one of the states of
    /// `status_filter` if there is one, is at a venue of the region if one
    /// is given, and, if there is a query, holds it in its name, in the
    /// name of its venue or in the name of an artist who plays at it,
    /// whatever the case of the letters. The events come by their start,
    /// then by their name.
    pub fn search_events(
        &self,
        query_filter: Option<String>,
        region_id: Option<Id>,
        start_time: Option<i64>,
        end_time: Option<i64>,
        status_filter: Option<Vec<EventStatus>>,
    ) -> (events: Vec<Event>)
        ensures
            events@.map_values(|e: Event| e@) == self@.search(
                opt_text(query_filter),
                region_id,
                start_time,
                end_time,
                status_list(status_filter),
            ),
            in_order(events@.map_values(|e: Event| e@)),
    {
        let ghost statuses = status_list(status_filter);
        let ghost wanted = self@.searched(opt_text(query_filter), region_id, start_time, end_time, statuses);
        let lower_query = match &query_filter {
            Some(q) => Some(to_lowercase(q.as_str())),
            None => None,
        };
        let mut events: Vec<Event> = Vec::new();
        let mut i: usize = 0;
        assert(self@.events.take(0) =~= Seq::empty());
        while i < self.events.len()
            invariant
                i <= self.events.len(),
                statuses == status_list(status_filter),
                wanted == self@.searched(opt_text(query_filter), region_id, start_time, end_time, statuses),
                match query_filter {
                    Some(q) => lower_query matches Some(l) && l@ == lowercase(q@),
                    None => lower_query is None,
                },
                events@.map_values(|e: Event| e@) =~= ordered(filtered(self@.events.take(i as int), wanted)),
            decreases self.events.len() - i,
        {
            assert(self@.events.take(i + 1).drop_last() =~= self@.events.take(i as int));
            let ghost e = self@.events[i as int];
            let ghost before = filtered(self@.events.take(i as int), wanted);
            assert(self@.events.take(i + 1).last() == e);
            assert(wanted(e) == self@.found(e, opt_text(query_filter), region_id, start_time, end_time, statuses));
            if self.found(
                &self.events[i],
                &query_filter,
                &lower_query,
                region_id,
                start_time,
                end_time,
                &status_filter,
            ) {
                place(&mut events, self.events[i].copy());
                assert(filtered(self@.events.take(i + 1), wanted) == before.push(e));
                assert(before.push(e).drop_last() =~= before);
            }
            i += 1;
        }
        proof {
            assert(self@.events.take(i as int) =~= self@.events);
            lemma_ordered(filtered(self@.events, wanted));
        }
        events
    }
}

} // verus!
