//! Events, venues, fee schedules and holds.

use crate::models::{
    Event, EventArtist, EventEditableAttributes, EventView, FeeSchedule, FeeScheduleRange, FeeScheduleView,
    Hold, HoldTypes, HoldView, NewEvent, NewFeeSchedule, TicketType, Venue, VenueView,
};
use crate::seqs::{at, filtered, first_where, lemma_first_found, lemma_first_none};
use crate::store::OrderStore;
use crate::store_view::{
    StoreView, edited, event_at, event_by, event_of_new, event_with_id, fee_schedule_with_id, hold_with_code,
    lemma_inv_frame, lemma_inv_grow, new_ranges, opt_view, range_of, ticket_type_for, venue_with_id,
};
use crate::text::{Id, copy_opt, text_eq};
use vstd::prelude::*;

verus! {

impl OrderStore {
    /// Puts a new event in the store, made and last changed at `now`.
    pub fn insert_event(&mut self, new: &NewEvent, now: i64) -> (event: Event)
        requires
            old(self).wf(),
        ensures
            final(self).wf(),
            event@ == event_of_new(old(self)@.next_id, *new, now),
            final(self)@ == old(self)@.with_event(event@),
    {
        let id = self.fresh_id();
        let event = Event {
            id,
            name: new.name.clone(),
            organization_id: new.organization_id,
            venue_id: new.venue_id,
            created_at: now,
            event_start: new.event_start,
            door_time: new.door_time,
            status: new.status,
            publish_date: new.publish_date,
            promo_image_url: copy_opt(&new.promo_image_url),
            additional_info: copy_opt(&new.additional_info),
            age_limit: new.age_limit,
            cancelled_at: None,
            updated_at: now,
        };
        let copy = event.copy();
        let ghost v = event@;
        self.events.push(event);
        proof {
            assert(self@.events =~= old(self)@.events.push(v));
            lemma_inv_grow(old(self)@, self@);
        }
        copy
    }

    fn event_index(&self, id: Id) -> (r: Option<usize>)
        ensures
            at(r) == first_where(self@.events, event_with_id(id)),
            r matches Some(i) ==> i < self.events.len(),
    {
        let mut i: usize = 0;
        while i < self.events.len()
            invariant
                i <= self.events.len(),
                forall|j: int| 0 <= j < i ==> !#[trigger] event_with_id(id)(self@.events[j]),
            decreases self.events.len() - i,
        {
            if self.events[i].id == id {
                proof {
                    lemma_first_found(self@.events, event_with_id(id), i as int);
                }
                return Some(i);
            }
            i += 1;
        }
        proof {
            lemma_first_none(self@.events, event_with_id(id));
        }
        None
    }

    /// Changes the attributes of an event that are given, at `now`, and
    /// returns the event as it is then; `None` where there is no such event.
    pub fn update_event(&mut self, id: Id, attributes: EventEditableAttributes, now: i64) -> (r: Option<Event>)
        requires
            old(self).wf(),
        ensures
            final(self).wf(),
            opt_view(r) == match old(self)@.event(id) {
                Some(e) => Some(edited(e, attributes, now)),
                None => None,
            },
            final(self)@ == match old(self)@.event(id) {
                Some(e) => old(self)@.set_event(edited(e, attributes, now)),
                None => old(self)@,
            },
    {
        match self.event_index(id) {
            Some(i) => {
                let ghost before = self@.events[i as int];
                let mut event = self.events[i].copy();
                if let Some(name) = attributes.name {
                    event.name = name;
                }
                if let Some(v) = attributes.venue_id {
                    event.venue_id = Some(v);
                }
                if let Some(v) = attributes.event_start {
                    event.event_start = Some(v);
                }
                if let Some(v) = attributes.door_time {
                    event.door_time = Some(v);
                }
                if let Some(v) = attributes.publish_date {
                    event.publish_date = Some(v);
                }
                if let Some(v) = attributes.promo_image_url {
                    event.promo_image_url = Some(v);
                }
                if let Some(v) = attributes.additional_info {
                    event.additional_info = Some(v);
                }
                if let Some(v) = attributes.age_limit {
                    event.age_limit = Some(v);
                }
                if let Some(v) = attributes.cancelled_at {
                    event.cancelled_at = Some(v);
                }
                event.updated_at = now;
                assert(event@ == edited(before, attributes, now));
                let copy = event.copy();
                let ghost v = event@;
                self.events[i] = event;
                proof {
                    assert(self@.events =~= old(self)@.events.update(i as int, v));
                    lemma_inv_frame(old(self)@, self@);
                }
                Some(copy)
            },
            None => None,
        }
    }

    /// Cancels an event at `now`, and returns the event as it is then;
    /// `None` where there is no such event.
    pub fn cancel_event(&mut self, id: Id, now: i64) -> (r: Option<Event>)
        requires
            old(self).wf(),
        ensures
            final(self).wf(),
            opt_view(r) == match old(self)@.event(id) {
                Some(e) => Some(EventView { cancelled_at: Some(now), ..e }),
                None => None,
            },
            final(self)@ == match old(self)@.event(id) {
                Some(e) => old(self)@.set_event(EventView { cancelled_at: Some(now), ..e }),
                None => old(self)@,
            },
    {
        match self.event_index(id) {
            Some(i) => {
                self.events[i].cancelled_at = Some(now);
                proof {
                    assert(self@.events =~= old(self)@.events.update(
                        i as int,
                        EventView { cancelled_at: Some(now), ..old(self)@.events[i as int] },
                    ));
                    lemma_inv_frame(old(self)@, self@);
                }
                Some(self.events[i].copy())
            },
            None => None,
        }
    }

    /// The events at a venue.
    pub fn events_at(&self, venue_id: Id) -> (list: Vec<Event>)
        ensures
            list@.map_values(|e: Event| e@) == self@.events_at(venue_id),
    {
        let mut list: Vec<Event> = Vec::new();
        let mut i: usize = 0;
        assert(self@.events.take(0) =~= Seq::empty());
        while i < self.events.len()
            invariant
                i <= self.events.len(),
                list@.map_values(|e: Event| e@) =~= filtered(self@.events.take(i as int), event_at(venue_id)),
            decreases self.events.len() - i,
        {
            assert(self@.events.take(i + 1).drop_last() =~= self@.events.take(i as int));
            if self.events[i].venue_id == Some(venue_id) {
                list.push(self.events[i].copy());
            }
            i += 1;
        }
        assert(self@.events.take(i as int) =~= self@.events);
        list
    }

    /// The events of an organization.
    pub fn events_by(&self, organization_id: Id) -> (list: Vec<Event>)
        ensures
            list@.map_values(|e: Event| e@) == self@.events_by(organization_id),
    {
        let mut list: Vec<Event> = Vec::new();
        let mut i: usize = 0;
        assert(self@.events.take(0) =~= Seq::empty());
        while i < self.events.len()
            invariant
                i <= self.events.len(),
                list@.map_values(|e: Event| e@) =~= filtered(
                    self@.events.take(i as int),
                    event_by(organization_id),
                ),
            decreases self.events.len() - i,
        {
            assert(self@.events.take(i + 1).drop_last() =~= self@.events.take(i as int));
            if self.events[i].organization_id == organization_id {
                list.push(self.events[i].copy());
            }
            i += 1;
        }
        assert(self@.events.take(i as int) =~= self@.events);
        list
    }

    /// The ticket types of an event.
    pub fn ticket_types_of(&self, event_id: Id) -> (list: Vec<TicketType>)
        ensures
            list@ == self@.ticket_types_of(event_id),
    {
        let mut list: Vec<TicketType> = Vec::new();
        let mut i: usize = 0;
        assert(self@.ticket_types.take(0) =~= Seq::empty());
        while i < self.ticket_types.len()
            invariant
                i <= self.ticket_types.len(),
                list@ =~= filtered(self@.ticket_types.take(i as int), ticket_type_for(event_id)),
            decreases self.ticket_types.len() - i,
        {
            assert(self@.ticket_types.take(i + 1).drop_last() =~= self@.ticket_types.take(i as int));
            if self.ticket_types[i].event_id == event_id {
                list.push(self.ticket_types[i]);
            }
            i += 1;
        }
        assert(self@.ticket_types.take(i as int) =~= self@.ticket_types);
        list
    }

    /// Adds a venue and returns the identifier given to it.
    pub fn add_venue(&mut self, name: String, region_id: Option<Id>) -> (id: Id)
        requires
            old(self).wf(),
        ensures
            final(self).wf(),
            id == old(self)@.next_id,
            final(self)@ == (StoreView {
                next_id: (id + 1) as Id,
                venues: old(self)@.venues.push(VenueView { id, name: name@, region_id }),
                ..old(self)@
            }),
    {
        let id = self.fresh_id();
        let venue = Venue { id, name, region_id };
        let ghost v = venue@;
        self.venues.push(venue);
        proof {
            assert(self@.venues =~= old(self)@.venues.push(v));
            lemma_inv_grow(old(self)@, self@);
        }
        id
    }

    /// The venue with the identifier.
    pub fn venue(&self, id: Id) -> (r: Option<Venue>)
        ensures
            opt_view(r) == self@.venue(id),
    {
        let mut i: usize = 0;
        while i < self.venues.len()
            invariant
                i <= self.venues.len(),
                forall|j: int| 0 <= j < i ==> !#[trigger] venue_with_id(id)(self@.venues[j]),
            decreases self.venues.len() - i,
        {
            if self.venues[i].id == id {
                proof {
                    lemma_first_found(self@.venues, venue_with_id(id), i as int);
                }
                return Some(self.venues[i].copy());
            }
            i += 1;
        }
        proof {
            lemma_first_none(self@.venues, venue_with_id(id));
        }
        None
    }

    /// Says that an artist plays at an event.
    pub fn add_event_artist(&mut self, artist: EventArtist)
        requires
            old(self).wf(),
        ensures
            final(self).wf(),
            final(self)@ == (StoreView { event_artists: old(self)@.event_artists.push(artist), ..old(self)@ }),
    {
        self.event_artists.push(artist);
        proof {
            lemma_inv_frame(old(self)@, self@);
        }
    }

    /// Puts a new fee schedule and its ranges in the store, made at `now`.
    pub fn insert_fee_schedule(&mut self, new: &NewFeeSchedule, now: i64) -> (schedule: FeeSchedule)
        requires
            old(self).wf(),
        ensures
            final(self).wf(),
            schedule@ == (FeeScheduleView {
                id: old(self)@.next_id,
                name: new.name@,
                created_at: now,
                updated_at: now,
            }),
            final(self)@ == old(self)@.with_fee_schedule(new.name@, new.ranges@, now),
    {
        let id = self.fresh_id();
        let schedule = FeeSchedule { id, name: new.name.clone(), created_at: now, updated_at: now };
        let copy = schedule.copy();
        let ghost v = schedule@;
        self.fee_schedules.push(schedule);
        assert(self@.fee_schedules =~= old(self)@.fee_schedules.push(v));
        let ghost added = new_ranges(id, new.ranges@, now);
        let mut k: usize = 0;
        while k < new.ranges.len()
            invariant
                k <= new.ranges.len(),
                old(self).wf(),
                id == old(self)@.next_id,
                added == new_ranges(id, new.ranges@, now),
                self@ == (StoreView {
                    next_id: (id + 1 + k) as Id,
                    fee_schedules: old(self)@.fee_schedules.push(v),
                    fee_schedule_ranges: old(self)@.fee_schedule_ranges + added.take(k as int),
                    ..old(self)@
                }),
                self.next_id == 1 + self@.identified(),
            decreases new.ranges.len() - k,
        {
            let ghost before = self@;
            let range_id = self.fresh_id();
            let range = new.ranges[k];
            self.fee_schedule_ranges.push(
                FeeScheduleRange {
                    id: range_id,
                    fee_schedule_id: id,
                    min_price: range.0,
                    fee: range.1,
                    created_at: now,
                    updated_at: now,
                },
            );
            assert(added.take(k + 1) =~= added.take(k as int).push(added[k as int]));
            assert(self@.fee_schedule_ranges =~= old(self)@.fee_schedule_ranges + added.take(k + 1));
            k += 1;
        }
        proof {
            assert(added.take(k as int) =~= added);
            lemma_inv_grow(old(self)@, self@);
        }
        copy
    }

    /// The fee schedule with the identifier.
    pub fn fee_schedule(&self, id: Id) -> (r: Option<FeeSchedule>)
        ensures
            opt_view(r) == self@.fee_schedule(id),
    {
        let mut i: usize = 0;
        while i < self.fee_schedules.len()
            invariant
                i <= self.fee_schedules.len(),
                forall|j: int| 0 <= j < i ==> !#[trigger] fee_schedule_with_id(id)(self@.fee_schedules[j]),
            decreases self.fee_schedules.len() - i,
        {
            if self.fee_schedules[i].id == id {
                proof {
                    lemma_first_found(self@.fee_schedules, fee_schedule_with_id(id), i as int);
                }
                return Some(self.fee_schedules[i].copy());
            }
            i += 1;
        }
        proof {
            lemma_first_none(self@.fee_schedules, fee_schedule_with_id(id));
        }
        None
    }

    /// The ranges of a fee schedule.
    pub fn fee_schedule_ranges(&self, fee_schedule_id: Id) -> (list: Vec<FeeScheduleRange>)
        ensures
            list@ == self@.ranges_of(fee_schedule_id),
    {
        let mut list: Vec<FeeScheduleRange> = Vec::new();
        let mut i: usize = 0;
        assert(self@.fee_schedule_ranges.take(0) =~= Seq::empty());
        while i < self.fee_schedule_ranges.len()
            invariant
                i <= self.fee_schedule_ranges.len(),
                list@ =~= filtered(self@.fee_schedule_ranges.take(i as int), range_of(fee_schedule_id)),
            decreases self.fee_schedule_ranges.len() - i,
        {
            assert(self@.fee_schedule_ranges.take(i + 1).drop_last() =~= self@.fee_schedule_ranges.take(i as int));
            if self.fee_schedule_ranges[i].fee_schedule_id == fee_schedule_id {
                list.push(self.fee_schedule_ranges[i]);
            }
            i += 1;
        }
        assert(self@.fee_schedule_ranges.take(i as int) =~= self@.fee_schedule_ranges);
        list
    }

    /// Sets tickets of a type aside under a redemption code.
    pub fn add_hold(
        &mut self,
        ticket_type_id: Id,
        redemption_code: String,
        max_per_order: Option<i64>,
        discount_in_cents: Option<i64>,
        hold_type: HoldTypes,
    ) -> (id: Id)
        requires
            old(self).wf(),
        ensures
            final(self).wf(),
            id == old(self)@.next_id,
            final(self)@ == (StoreView {
                next_id: (id + 1) as Id,
                holds: old(self)@.holds.push(
                    HoldView {
                        id,
                        ticket_type_id,
                        redemption_code: redemption_code@,
                        max_per_order,
                        discount_in_cents,
                        hold_type,
                    },
                ),
                ..old(self)@
            }),
    {
        let id = self.fresh_id();
        let hold = Hold { id, ticket_type_id, redemption_code, max_per_order, discount_in_cents, hold_type };
        let ghost v = hold@;
        self.holds.push(hold);
        proof {
            assert(self@.holds =~= old(self)@.holds.push(v));
            lemma_inv_grow(old(self)@, self@);
        }
        id
    }

    /// The first hold with the redemption code.
    pub fn find_by_redemption_code(&self, code: &str) -> (r: Option<Hold>)
        ensures
            opt_view(r) == self@.hold_by_code(code@),
    {
        let mut i: usize = 0;
        while i < self.holds.len()
            invariant
                i <= self.holds.len(),
                forall|j: int| 0 <= j < i ==> !#[trigger] hold_with_code(code@)(self@.holds[j]),
            decreases self.holds.len() - i,
        {
            if text_eq(self.holds[i].redemption_code.as_str(), code) {
                proof {
                    lemma_first_found(self@.holds, hold_with_code(code@), i as int);
                }
                return Some(self.holds[i].copy());
            }
            i += 1;
        }
        proof {
            lemma_first_none(self@.holds, hold_with_code(code@));
        }
        None
    }
}

} // verus!
