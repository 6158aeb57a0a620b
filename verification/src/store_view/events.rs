//! Events, venues, fee schedules and holds.

use crate::models::{
    EventEditableAttributes, EventView, FeeScheduleRange, FeeScheduleView, HoldView, NewEvent, TicketType,
    VenueView,
};
use crate::seqs::{filtered, find_where, first_where};
use crate::store_view::{StoreView, event_with_id};
use crate::text::{Id, opt_text};
use vstd::prelude::*;

verus! {

impl StoreView {
    /// The store with one more event, which gets the next identifier.
    pub open spec fn with_event(self, event: EventView) -> StoreView {
        StoreView {
            next_id: (self.next_id + 1) as Id,
            events: self.events.push(EventView { id: self.next_id, ..event }),
            ..self
        }
    }

    /// The store with the event of the same identifier replaced by `event`.
    pub open spec fn set_event(self, event: EventView) -> StoreView {
        match first_where(self.events, event_with_id(event.id)) {
            Some(i) => StoreView { events: self.events.update(i, event), ..self },
            None => self,
        }
    }

    /// The events at a venue.
    pub open spec fn events_at(self, venue_id: Id) -> Seq<EventView> {
        filtered(self.events, event_at(venue_id))
    }

    /// The events of an organization.
    pub open spec fn events_by(self, organization_id: Id) -> Seq<EventView> {
        filtered(self.events, event_by(organization_id))
    }

    /// The ticket types of an event.
    pub open spec fn ticket_types_of(self, event_id: Id) -> Seq<TicketType> {
        filtered(self.ticket_types, ticket_type_for(event_id))
    }

    pub open spec fn venue(self, id: Id) -> Option<VenueView> {
        find_where(self.venues, venue_with_id(id))
    }

    pub open spec fn fee_schedule(self, id: Id) -> Option<FeeScheduleView> {
        find_where(self.fee_schedules, fee_schedule_with_id(id))
    }

    /// The ranges of a fee schedule.
    pub open spec fn ranges_of(self, fee_schedule_id: Id) -> Seq<FeeScheduleRange> {
        filtered(self.fee_schedule_ranges, range_of(fee_schedule_id))
    }

    /// The store with one more fee schedule: the schedule gets the next
    /// identifier, and its ranges the identifiers after that, in their order.
    pub open spec fn with_fee_schedule(self, name: Seq<char>, ranges: Seq<(i64, i64)>, now: i64) -> StoreView {
        StoreView {
            next_id: (self.next_id + 1 + ranges.len()) as Id,
            fee_schedules: self.fee_schedules.push(
                FeeScheduleView { id: self.next_id, name, created_at: now, updated_at: now },
            ),
            fee_schedule_ranges: self.fee_schedule_ranges + new_ranges(self.next_id, ranges, now),
            ..self
        }
    }

    /// The first hold with the redemption code.
    pub open spec fn hold_by_code(self, code: Seq<char>) -> Option<HoldView> {
        find_where(self.holds, hold_with_code(code))
    }
}

pub open spec fn event_at(venue_id: Id) -> spec_fn(EventView) -> bool {
    |e: EventView| e.venue_id == Some(venue_id)
}

pub open spec fn event_by(organization_id: Id) -> spec_fn(EventView) -> bool {
    |e: EventView| e.organization_id == organization_id
}

pub open spec fn ticket_type_for(event_id: Id) -> spec_fn(TicketType) -> bool {
    |t: TicketType| t.event_id == event_id
}

pub open spec fn venue_with_id(id: Id) -> spec_fn(VenueView) -> bool {
    |v: VenueView| v.id == id
}

pub open spec fn fee_schedule_with_id(id: Id) -> spec_fn(FeeScheduleView) -> bool {
    |f: FeeScheduleView| f.id == id
}

pub open spec fn range_of(fee_schedule_id: Id) -> spec_fn(FeeScheduleRange) -> bool {
    |r: FeeScheduleRange| r.fee_schedule_id == fee_schedule_id
}

pub open spec fn hold_with_code(code: Seq<char>) -> spec_fn(HoldView) -> bool {
    |h: HoldView| h.redemption_code == code
}

/// The ranges of a new fee schedule: the range at place `k` gets the
/// identifier `k + 1` after that of the schedule.
pub open spec fn new_ranges(fee_schedule_id: Id, ranges: Seq<(i64, i64)>, now: i64) -> Seq<FeeScheduleRange> {
    Seq::new(
        ranges.len(),
        |k: int|
            FeeScheduleRange {
                id: (fee_schedule_id + 1 + k) as Id,
                fee_schedule_id,
                min_price: ranges[k].0,
                fee: ranges[k].1,
                created_at: now,
                updated_at: now,
            },
    )
}

/// The event that a new event becomes in the store.
pub open spec fn event_of_new(id: Id, new: NewEvent, now: i64) -> EventView {
    EventView {
        id,
        name: new.name@,
        organization_id: new.organization_id,
        venue_id: new.venue_id,
        created_at: now,
        event_start: new.event_start,
        door_time: new.door_time,
        status: new.status,
        publish_date: new.publish_date,
        promo_image_url: opt_text(new.promo_image_url),
        additional_info: opt_text(new.additional_info),
        age_limit: new.age_limit,
        cancelled_at: None,
        updated_at: now,
    }
}

/// The event with every attribute that is given put in place, changed at `now`.
pub open spec fn edited(event: EventView, attributes: EventEditableAttributes, now: i64) -> EventView {
    EventView {
        name: match attributes.name {
            Some(name) => name@,
            None => event.name,
        },
        venue_id: match attributes.venue_id {
            Some(v) => Some(v),
            None => event.venue_id,
        },
        event_start: match attributes.event_start {
            Some(v) => Some(v),
            None => event.event_start,
        },
        door_time: match attributes.door_time {
            Some(v) => Some(v),
            None => event.door_time,
        },
        publish_date: match attributes.publish_date {
            Some(v) => Some(v),
            None => event.publish_date,
        },
        promo_image_url: match attributes.promo_image_url {
            Some(v) => Some(v@),
            None => event.promo_image_url,
        },
        additional_info: match attributes.additional_info {
            Some(v) => Some(v@),
            None => event.additional_info,
        },
        age_limit: match attributes.age_limit {
            Some(v) => Some(v),
            None => event.age_limit,
        },
        cancelled_at: match attributes.cancelled_at {
            Some(v) => Some(v),
            None => event.cancelled_at,
        },
        updated_at: now,
        ..event
    }
}

} // verus!
