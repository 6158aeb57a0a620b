//! Events: making them, finding them, changing them.

use crate::errors::CheckoutError;
use crate::models::{
    DisplayEvent, DisplayEventView, DisplayVenue, DisplayVenueView, Event, EventArtist,
    EventEditableAttributes, EventStatus, EventView, NewEvent, TicketType, Venue, VenueView,
};
use crate::store::OrderStore;
use crate::store_view::{StoreView, edited, event_of_new, in_order, status_list};
use crate::text::{Id, opt_text};
use vstd::prelude::*;
use vstd::string::StringExecFns;

verus! {

impl EventStatus {
    /// The name of the state.
    pub open spec fn spec_name(self) -> Seq<char> {
        match self {
            EventStatus::Draft => "Draft"@,
            EventStatus::Published => "Published"@,
            EventStatus::Closed => "Closed"@,
        }
    }

    /// The name of the state.
    pub fn name(self) -> (name: String)
        ensures
            name@ == self.spec_name(),
    {
        match self {
            EventStatus::Draft => String::from_str("Draft"),
            EventStatus::Published => String::from_str("Published"),
            EventStatus::Closed => String::from_str("Closed"),
        }
    }
}

impl NewEvent {
    /// Puts the event in the store, made at `now`.
    pub fn commit(&self, store: &mut OrderStore, now: i64) -> (event: Event)
        requires
            old(store).wf(),
        ensures
            final(store).wf(),
            event@ == event_of_new(old(store)@.next_id, *self, now),
            final(store)@ == old(store)@.with_event(event@),
    {
        store.insert_event(self, now)
    }

    /// The name of the state of an event that says nothing of its state.
    pub fn default_status() -> (name: String)
        ensures
            name@ == EventStatus::Draft.spec_name(),
    {
        EventStatus::Draft.name()
    }
}

impl StoreView {
    /// The venue of an event: none where the event names none, a failure
    /// where the venue named does not exist.
    pub open spec fn venue_of(self, event: EventView) -> Result<Option<VenueView>, CheckoutError> {
        match event.venue_id {
            Some(venue_id) => match self.venue(venue_id) {
                Some(v) => Ok(Some(v)),
                None => Err(CheckoutError::NotFound),
            },
            None => Ok(None),
        }
    }

    /// The event as it is shown, with its venue.
    pub open spec fn shown(self, event: EventView) -> Result<DisplayEventView, CheckoutError> {
        match self.venue_of(event) {
            Ok(venue) => Ok(
                DisplayEventView {
                    id: event.id,
                    name: event.name,
                    event_start: event.event_start,
                    door_time: event.door_time,
                    promo_image_url: event.promo_image_url,
                    additional_info: event.additional_info,
                    venue: match venue {
                        Some(v) => Some(DisplayVenueView { id: v.id, name: v.name }),
                        None => None,
                    },
                },
            ),
            Err(e) => Err(e),
        }
    }
}

impl Event {
    /// An event of an organization, not in the store yet: without an image,
    /// further information or an age limit.
    pub fn create(
        name: &str,
        status: EventStatus,
        organization_id: Id,
        venue_id: Option<Id>,
        event_start: Option<i64>,
        door_time: Option<i64>,
        publish_date: Option<i64>,
    ) -> (new: NewEvent)
        ensures
            new.name@ == name@,
            new.status == status,
            new.organization_id == organization_id,
            new.venue_id == venue_id,
            new.event_start == event_start,
            new.door_time == door_time,
            new.publish_date == publish_date,
            new.promo_image_url is None,
            new.additional_info is None,
            new.age_limit is None,
    {
        NewEvent {
            name: String::from_str(name),
            organization_id,
            venue_id,
            event_start,
            door_time,
            status,
            publish_date,
            promo_image_url: None,
            additional_info: None,
            age_limit: None,
        }
    }

    /// Changes the attributes that are given, at `now`, of the event in the
    /// store that has this event's identifier.
    pub fn update(&self, attributes: EventEditableAttributes, store: &mut OrderStore, now: i64) -> (r: Result<
        Event,
        CheckoutError,
    >)
        requires
            old(store).wf(),
        ensures
            final(store).wf(),
            match old(store)@.event(self.id) {
                Some(e) => r matches Ok(changed) && changed@ == edited(e, attributes, now) && final(store)@ == old(
                    store,
                )@.set_event(edited(e, attributes, now)),
                None => r == Err::<Event, CheckoutError>(CheckoutError::NotFound) && final(store)@ == old(store)@,
            },
    {
        match store.update_event(self.id, attributes, now) {
            Some(event) => Ok(event),
            None => Err(CheckoutError::NotFound),
        }
    }

    /// The event with the identifier.
    pub fn find(id: Id, store: &OrderStore) -> (r: Result<Event, CheckoutError>)
        ensures
            match store@.event(id) {
                Some(e) => r matches Ok(found) && found@ == e,
                None => r == Err::<Event, CheckoutError>(CheckoutError::NotFound),
            },
    {
        match store.event(id) {
            Some(event) => Ok(event),
            None => Err(CheckoutError::NotFound),
        }
    }

    /// Cancels the event at `now`.
    pub fn cancel(self, store: &mut OrderStore, now: i64) -> (r: Result<Event, CheckoutError>)
        requires
            old(store).wf(),
        ensures
            final(store).wf(),
            match old(store)@.event(self.id) {
                Some(e) => r matches Ok(changed) && changed@ == (EventView { cancelled_at: Some(now), ..e })
                    && final(store)@ == old(store)@.set_event(EventView { cancelled_at: Some(now), ..e }),
                None => r == Err::<Event, CheckoutError>(CheckoutError::NotFound) && final(store)@ == old(store)@,
            },
    {
        match store.cancel_event(self.id, now) {
            Some(event) => Ok(event),
            None => Err(CheckoutError::NotFound),
        }
    }

    /// The events at a venue, in the order of the store.
    pub fn find_all_events_from_venue(venue_id: &Id, store: &OrderStore) -> (list: Vec<Event>)
        ensures
            list@.map_values(|e: Event| e@) == store@.events_at(*venue_id),
    {
        store.events_at(*venue_id)
    }

    /// The events of an organization, in the order of the store.
    pub fn find_all_events_from_organization(organization_id: &Id, store: &OrderStore) -> (list: Vec<Event>)
        ensures
            list@.map_values(|e: Event| e@) == store@.events_by(*organization_id),
    {
        store.events_by(*organization_id)
    }

    /// Searches the events of the store.
    ///
    /// An event is found if it starts after `start_time` (or 1970) and
    /// before `end_time` (or 3970), is no draft, is in one of the states of
    /// `status_filter` if there is one, is at a venue of the region if one
    /// is given, and, if there is a query, holds it in its name, in the
    /// name of its venue or in the name of an artist who plays at it,
    /// whatever the case of the letters. The events come by their start,
    /// then by their name.
    pub fn search(
        query_filter: Option<String>,
        region_id: Option<Id>,
        start_time: Option<i64>,
        end_time: Option<i64>,
        status_filter: Option<Vec<EventStatus>>,
        store: &OrderStore,
    ) -> (events: Vec<Event>)
        ensures
            events@.map_values(|e: Event| e@) == store@.search(
                opt_text(query_filter),
                region_id,
                start_time,
                end_time,
                status_list(status_filter),
            ),
            in_order(events@.map_values(|e: Event| e@)),
    {
        store.search_events(query_filter, region_id, start_time, end_time, status_filter)
    }

    /// Says that an artist plays at the event, first in rank and at no set time.
    pub fn add_artist(&self, artist_id: Id, store: &mut OrderStore)
        requires
            old(store).wf(),
        ensures
            final(store).wf(),
            final(store)@ == (StoreView {
                event_artists: old(store)@.event_artists.push(
                    EventArtist { event_id: self.id, artist_id, rank: 0, set_time: None },
                ),
                ..old(store)@
            }),
    {
        store.add_event_artist(EventArtist { event_id: self.id, artist_id, rank: 0, set_time: None });
    }

    /// The organization that the event belongs to.
    pub fn organization(&self) -> (organization_id: Id)
        ensures
            organization_id == self.organization_id,
    {
        self.organization_id
    }

    /// The venue of the event.
    pub fn venue(&self, store: &OrderStore) -> (r: Result<Option<Venue>, CheckoutError>)
        ensures
            match store@.venue_of(self@) {
                Ok(Some(v)) => r matches Ok(Some(found)) && found@ == v,
                Ok(None) => r matches Ok(None),
                Err(e) => r matches Err(failure) && failure == e,
            },
    {
        match self.venue_id {
            Some(venue_id) => match store.venue(venue_id) {
                Some(venue) => Ok(Some(venue)),
                None => Err(CheckoutError::NotFound),
            },
            None => Ok(None),
        }
    }

    /// The ticket types of the event, in the order of the store.
    pub fn ticket_types(&self, store: &OrderStore) -> (list: Vec<TicketType>)
        ensures
            list@ == store@.ticket_types_of(self.id),
    {
        store.ticket_types_of(self.id)
    }

    /// The event as it is shown, with its venue.
    pub fn for_display(self, store: &OrderStore) -> (r: Result<DisplayEvent, CheckoutError>)
        ensures
            match store@.shown(self@) {
                Ok(d) => r matches Ok(shown) && shown@ == d,
                Err(e) => r matches Err(failure) && failure == e,
            },
    {
        let venue = match self.venue(store) {
            Ok(Some(v)) => Some(DisplayVenue { id: v.id, name: v.name }),
            Ok(None) => None,
            Err(e) => {
                return Err(e);
            },
        };
        Ok(
            DisplayEvent {
                id: self.id,
                name: self.name,
                event_start: self.event_start,
                door_time: self.door_time,
                promo_image_url: self.promo_image_url,
                additional_info: self.additional_info,
                venue,
            },
        )
    }
}

} // verus!
