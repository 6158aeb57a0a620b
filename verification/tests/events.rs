use bigneon::errors::CheckoutError;
use bigneon::models::{
    Event, EventEditableAttributes, EventStatus, FeeSchedule, HoldTypes, NewEvent, NewOrder, Order, OrderStatus,
};
use bigneon::redemption_codes::{show as show_code, PathParameters};
use bigneon::store::OrderStore;

fn no_changes() -> EventEditableAttributes {
    EventEditableAttributes {
        name: None,
        venue_id: None,
        event_start: None,
        door_time: None,
        publish_date: None,
        promo_image_url: None,
        additional_info: None,
        age_limit: None,
        cancelled_at: None,
    }
}

#[test]
fn a_new_event_is_committed_as_it_was_made() {
    let mut store = OrderStore::new();
    let venue = store.add_venue("Hall".to_string(), Some(5));
    let new = Event::create("Gala", EventStatus::Published, 40, Some(venue), Some(1000), Some(900), Some(100));
    assert_eq!(new.name, "Gala");
    assert_eq!(new.promo_image_url, None);
    assert_eq!(new.additional_info, None);
    assert_eq!(new.age_limit, None);
    let event = new.commit(&mut store, 77);
    assert_eq!(event.name, "Gala");
    assert_eq!(event.organization_id, 40);
    assert_eq!(event.organization(), 40);
    assert_eq!(event.venue_id, Some(venue));
    assert_eq!(event.status, EventStatus::Published);
    assert_eq!((event.event_start, event.door_time, event.publish_date), (Some(1000), Some(900), Some(100)));
    assert_eq!((event.created_at, event.updated_at, event.cancelled_at), (77, 77, None));
    let found = Event::find(event.id, &store).unwrap();
    assert_eq!(found.name, "Gala");
    assert_eq!(found.id, event.id);
    assert_eq!(Event::find(event.id + 1, &store).unwrap_err(), CheckoutError::NotFound);
}

#[test]
fn the_default_status_is_draft() {
    assert_eq!(NewEvent::default_status(), "Draft");
    assert_eq!(EventStatus::Published.name(), "Published");
    assert_eq!(EventStatus::Closed.name(), "Closed");
}

#[test]
fn update_changes_what_is_given() {
    let mut store = OrderStore::new();
    let event = Event::create("Gala", EventStatus::Draft, 40, None, Some(1000), None, None).commit(&mut store, 1);
    let changed = event
        .update(
            EventEditableAttributes {
                name: Some("Grand Gala".to_string()),
                age_limit: Some(18),
                promo_image_url: Some("https://img.test/g.png".to_string()),
                ..no_changes()
            },
            &mut store,
            50,
        )
        .unwrap();
    assert_eq!(changed.name, "Grand Gala");
    assert_eq!(changed.age_limit, Some(18));
    assert_eq!(changed.promo_image_url, Some("https://img.test/g.png".to_string()));
    assert_eq!(changed.event_start, Some(1000));
    assert_eq!((changed.created_at, changed.updated_at), (1, 50));
    assert_eq!(Event::find(event.id, &store).unwrap().name, "Grand Gala");
    let ghost = Event { id: 999, ..Event::find(event.id, &store).unwrap() };
    assert_eq!(ghost.update(no_changes(), &mut store, 60).unwrap_err(), CheckoutError::NotFound);
    assert_eq!(Event::find(event.id, &store).unwrap().updated_at, 50);
}

#[test]
fn cancel_sets_the_time_of_cancellation() {
    let mut store = OrderStore::new();
    let event = Event::create("Gala", EventStatus::Published, 40, None, None, None, None).commit(&mut store, 1);
    let id = event.id;
    let cancelled = event.cancel(&mut store, 200).unwrap();
    assert_eq!(cancelled.cancelled_at, Some(200));
    assert_eq!(cancelled.updated_at, 1);
    assert_eq!(Event::find(id, &store).unwrap().cancelled_at, Some(200));
}

#[test]
fn events_are_found_by_venue_and_by_organization() {
    let mut store = OrderStore::new();
    let hall = store.add_venue("Hall".to_string(), None);
    let barn = store.add_venue("Barn".to_string(), None);
    let a = Event::create("A", EventStatus::Published, 1, Some(hall), None, None, None).commit(&mut store, 0);
    let b = Event::create("B", EventStatus::Draft, 2, Some(hall), None, None, None).commit(&mut store, 0);
    let c = Event::create("C", EventStatus::Published, 1, Some(barn), None, None, None).commit(&mut store, 0);
    let d = Event::create("D", EventStatus::Published, 1, None, None, None, None).commit(&mut store, 0);
    let ids = |events: Vec<Event>| events.iter().map(|e| e.id).collect::<Vec<u128>>();
    assert_eq!(ids(Event::find_all_events_from_venue(&hall, &store)), vec![a.id, b.id]);
    assert_eq!(ids(Event::find_all_events_from_venue(&barn, &store)), vec![c.id]);
    assert_eq!(ids(Event::find_all_events_from_organization(&1, &store)), vec![a.id, c.id, d.id]);
    assert!(Event::find_all_events_from_organization(&3, &store).is_empty());
}

#[test]
fn an_event_shows_its_venue() {
    let mut store = OrderStore::new();
    let hall = store.add_venue("Hall".to_string(), Some(9));
    let with_venue = Event::create("A", EventStatus::Published, 1, Some(hall), Some(5), Some(4), None).commit(&mut store, 0);
    let without = Event::create("B", EventStatus::Published, 1, None, None, None, None).commit(&mut store, 0);
    let lost = Event::create("C", EventStatus::Published, 1, Some(12345), None, None, None).commit(&mut store, 0);
    assert_eq!(with_venue.venue(&store).unwrap().unwrap().name, "Hall");
    assert_eq!(with_venue.venue(&store).unwrap().unwrap().region_id, Some(9));
    assert!(without.venue(&store).unwrap().is_none());
    assert_eq!(lost.venue(&store).unwrap_err(), CheckoutError::NotFound);
    let shown = with_venue.for_display(&store).unwrap();
    assert_eq!(shown.name, "A");
    assert_eq!((shown.event_start, shown.door_time), (Some(5), Some(4)));
    let venue = shown.venue.unwrap();
    assert_eq!((venue.id, venue.name.as_str()), (hall, "Hall"));
    assert!(without.for_display(&store).unwrap().venue.is_none());
    assert_eq!(lost.for_display(&store).unwrap_err(), CheckoutError::NotFound);
}

#[test]
fn an_event_lists_its_ticket_types() {
    let mut store = OrderStore::new();
    let one = Event::create("A", EventStatus::Published, 1, None, None, None, None).commit(&mut store, 0);
    let two = Event::create("B", EventStatus::Published, 1, None, None, None, None).commit(&mut store, 0);
    let x = store.add_ticket_type(one.id, 100, 90);
    let y = store.add_ticket_type(two.id, 200, 190);
    let z = store.add_ticket_type(one.id, 300, 290);
    let of_one = one.ticket_types(&store);
    assert_eq!(of_one.iter().map(|t| t.id).collect::<Vec<u128>>(), vec![x, z]);
    assert_eq!(of_one[1].price_in_cents, 300);
    assert_eq!(two.ticket_types(&store)[0].id, y);
    one.add_artist(66, &mut store);
}

#[test]
fn a_fee_schedule_keeps_its_ranges() {
    let mut store = OrderStore::new();
    let first = FeeSchedule::create("Standard".to_string(), vec![(0, 50), (10_000, 100), (50_000, 250)]).commit(&mut store, 9);
    let second = FeeSchedule::create("Small".to_string(), vec![(0, 10)]).commit(&mut store, 10);
    assert_eq!(first.name, "Standard");
    assert_eq!((first.created_at, first.updated_at), (9, 9));
    let ranges = first.ranges(&store);
    assert_eq!(ranges.iter().map(|r| (r.min_price, r.fee)).collect::<Vec<(i64, i64)>>(), vec![(0, 50), (10_000, 100), (50_000, 250)]);
    assert!(ranges.iter().all(|r| r.fee_schedule_id == first.id && r.created_at == 9));
    assert_eq!(ranges.iter().map(|r| r.id).collect::<Vec<u128>>(), vec![first.id + 1, first.id + 2, first.id + 3]);
    assert_eq!(second.id, first.id + 4);
    assert_eq!(second.ranges(&store).len(), 1);
    assert_eq!(FeeSchedule::find(second.id, &store).unwrap().name, "Small");
    assert_eq!(FeeSchedule::find(first.id + 1, &store).unwrap_err(), CheckoutError::NotFound);
    let next_user = store.add_user(None, None, None, None);
    assert_eq!(next_user, second.id + 2);
}

#[test]
fn a_new_order_is_the_cart_of_its_user() {
    let mut store = OrderStore::new();
    let user = store.add_user(None, None, None, None);
    let new: NewOrder = Order::create(user);
    assert_eq!(new.user_id, user);
    let order = new.commit(&mut store);
    assert_eq!(order.user_id, user);
    assert_eq!(order.status(), OrderStatus::Draft);
    assert_eq!(Order::create(user).commit(&mut store).id, order.id);
}

#[test]
fn a_redemption_code_shows_its_hold() {
    let mut store = OrderStore::new();
    store.add_hold(7, "FRIENDS".to_string(), Some(4), Some(250), HoldTypes::Discount);
    store.add_hold(8, "CREW".to_string(), None, None, HoldTypes::Comp);
    store.add_hold(9, "FRIENDS".to_string(), Some(1), Some(1), HoldTypes::Discount);
    let shown = show_code(&store, &PathParameters { code: "FRIENDS".to_string() }).unwrap();
    assert_eq!(shown.ticket_type_id, 7);
    assert_eq!(shown.redemption_code, "FRIENDS");
    assert_eq!(shown.max_per_order, Some(4));
    assert_eq!(shown.discount_in_cents, Some(250));
    assert_eq!(shown.hold_type, HoldTypes::Discount);
    let crew = show_code(&store, &PathParameters { code: "CREW".to_string() }).unwrap();
    assert_eq!((crew.ticket_type_id, crew.hold_type), (8, HoldTypes::Comp));
    assert_eq!(show_code(&store, &PathParameters { code: "friends".to_string() }).unwrap_err(), CheckoutError::NotFound);
}

struct Calendar {
    store: OrderStore,
    hall: u128,
    barn: u128,
}

fn calendar() -> Calendar {
    let mut store = OrderStore::new();
    let hall = store.add_venue("Concert Hall".to_string(), Some(1));
    let barn = store.add_venue("Old Barn".to_string(), Some(2));
    Calendar { store, hall, barn }
}

fn add(c: &mut Calendar, name: &str, status: EventStatus, venue: Option<u128>, start: Option<i64>) -> u128 {
    Event::create(name, status, 1, venue, start, None, None).commit(&mut c.store, 0).id
}

fn names(events: Vec<Event>) -> Vec<String> {
    events.into_iter().map(|e| e.name).collect()
}

#[test]
fn search_orders_by_start_then_by_name() {
    let mut c = calendar();
    add(&mut c, "Zebra", EventStatus::Published, None, Some(100));
    add(&mut c, "Late", EventStatus::Published, None, Some(300));
    add(&mut c, "Apple", EventStatus::Published, None, Some(100));
    add(&mut c, "Early", EventStatus::Closed, None, Some(50));
    add(&mut c, "apple", EventStatus::Published, None, Some(100));
    let found = Event::search(None, None, None, None, None, &c.store);
    assert_eq!(names(found), vec!["Early", "Apple", "Zebra", "apple", "Late"]);
}

#[test]
fn search_leaves_out_drafts_and_events_without_a_start() {
    let mut c = calendar();
    add(&mut c, "Draft", EventStatus::Draft, None, Some(100));
    add(&mut c, "Unplanned", EventStatus::Published, None, None);
    add(&mut c, "Planned", EventStatus::Published, None, Some(100));
    assert_eq!(names(Event::search(None, None, None, None, None, &c.store)), vec!["Planned"]);
}

#[test]
fn search_keeps_to_the_time_asked_for() {
    let mut c = calendar();
    add(&mut c, "At the epoch", EventStatus::Published, None, Some(0));
    add(&mut c, "Before", EventStatus::Published, None, Some(-5));
    add(&mut c, "One", EventStatus::Published, None, Some(100));
    add(&mut c, "Two", EventStatus::Published, None, Some(200));
    add(&mut c, "Three", EventStatus::Published, None, Some(300));
    add(&mut c, "Far", EventStatus::Published, None, Some(63_113_904_000));
    add(&mut c, "Almost far", EventStatus::Published, None, Some(63_113_903_999));
    assert_eq!(names(Event::search(None, None, None, None, None, &c.store)), vec!["One", "Two", "Three", "Almost far"]);
    assert_eq!(names(Event::search(None, None, Some(100), Some(300), None, &c.store)), vec!["Two"]);
    assert_eq!(names(Event::search(None, None, Some(-10), Some(101), None, &c.store)), vec!["Before", "At the epoch", "One"]);
}

#[test]
fn search_finds_by_the_names_of_event_venue_and_artist() {
    let mut c = calendar();
    let (hall, barn) = (c.hall, c.barn);
    let gala = add(&mut c, "Summer Gala", EventStatus::Published, Some(hall), Some(10));
    add(&mut c, "Quiz", EventStatus::Published, Some(barn), Some(20));
    let jam = add(&mut c, "Jam", EventStatus::Published, None, Some(30));
    let band = c.store.add_artist("The Barnstormers".to_string());
    let solo = c.store.add_artist("Solo".to_string());
    Event::find(jam, &c.store).unwrap().add_artist(band, &mut c.store);
    Event::find(gala, &c.store).unwrap().add_artist(solo, &mut c.store);
    let search = |q: &str| names(Event::search(Some(q.to_string()), None, None, None, None, &c.store));
    assert_eq!(search("gala"), vec!["Summer Gala"]);
    assert_eq!(search("GALA"), vec!["Summer Gala"]);
    assert_eq!(search("barn"), vec!["Quiz", "Jam"]);
    assert_eq!(search("hall"), vec!["Summer Gala"]);
    assert_eq!(search("solo"), vec!["Summer Gala"]);
    assert_eq!(search(""), vec!["Summer Gala", "Quiz", "Jam"]);
    assert!(search("opera").is_empty());
    assert!(search("summer  gala").is_empty());
}

#[test]
fn search_filters_by_state_and_region() {
    let mut c = calendar();
    let (hall, barn) = (c.hall, c.barn);
    add(&mut c, "Open", EventStatus::Published, Some(hall), Some(10));
    add(&mut c, "Over", EventStatus::Closed, Some(barn), Some(20));
    add(&mut c, "Nowhere", EventStatus::Published, None, Some(30));
    let by_status = |s: Vec<EventStatus>| names(Event::search(None, None, None, None, Some(s), &c.store));
    assert_eq!(by_status(vec![EventStatus::Closed]), vec!["Over"]);
    assert_eq!(by_status(vec![EventStatus::Published, EventStatus::Closed]), vec!["Open", "Over", "Nowhere"]);
    assert!(by_status(vec![EventStatus::Draft]).is_empty());
    assert!(by_status(vec![]).is_empty());
    let by_region = |r: u128| names(Event::search(None, Some(r), None, None, None, &c.store));
    assert_eq!(by_region(1), vec!["Open"]);
    assert_eq!(by_region(2), vec!["Over"]);
    assert!(by_region(3).is_empty());
}
