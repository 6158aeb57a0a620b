use bigneon::cart::{
    box_office_allowed, clear_invalid_items, destroy, replace_cart, show, sorted_ticket_type_ids, update_cart,
    UpdateCartRequest,
};
use bigneon::errors::{CheckoutError, ErrorKind};
use bigneon::models::{CartItem, EventStatus, OrderStatus, Scopes, TicketTypeStatus};
use bigneon::store::OrderStore;

const ORGANIZATION: u128 = 900;

struct CartFixture {
    store: OrderStore,
    user: u128,
    event: u128,
    adult: u128,
    child: u128,
}

fn cart_fixture() -> CartFixture {
    let mut store = OrderStore::new();
    let user = store.add_user(Some("Ann".to_string()), None, Some("ann@example.com".to_string()), None);
    let event = store.add_event(ORGANIZATION, EventStatus::Published);
    let adult = store.add_ticket_type(event, 1000, 1000);
    let child = store.add_ticket_type(event, 500, 500);
    CartFixture { store, user, event, adult, child }
}

fn line(ticket_type_id: u128, quantity: u32) -> CartItem {
    CartItem { ticket_type_id, quantity, redemption_code: None }
}

fn request(items: Vec<CartItem>, box_office_pricing: Option<bool>) -> UpdateCartRequest {
    UpdateCartRequest { items, box_office_pricing }
}

#[test]
fn box_office_pricing_without_the_scope_is_forbidden() {
    let mut f = cart_fixture();
    let r = update_cart(&mut f.store, f.user, &request(vec![line(f.adult, 2), line(f.child, 1)], Some(true)));
    let e = r.unwrap_err();
    assert_eq!(e, CheckoutError::MissingScope);
    assert_eq!(e.kind(), ErrorKind::Forbidden);
    assert_eq!(e.status_class(), 400);
    assert!(f.store.find_cart_for_user(f.user).is_none());
    assert!(show(&f.store, f.user).unwrap().is_none());
}

#[test]
fn box_office_pricing_with_the_scope_prices_the_cart() {
    let mut f = cart_fixture();
    f.store.grant(f.user, ORGANIZATION, Scopes::BoxOfficeTicketRead);
    let shown =
        update_cart(&mut f.store, f.user, &request(vec![line(f.adult, 2), line(f.child, 1)], Some(true))).unwrap();
    assert_eq!(shown.total_in_cents, 2500);
    assert_eq!(shown.items.len(), 2);
    assert_eq!(shown.status, OrderStatus::Draft);
}

#[test]
fn box_office_rate_differs_from_the_list_price() {
    let mut store = OrderStore::new();
    let user = store.add_user(None, None, None, None);
    let event = store.add_event(ORGANIZATION, EventStatus::Published);
    let ticket = store.add_ticket_type(event, 1000, 800);
    store.grant(user, ORGANIZATION, Scopes::BoxOfficeTicketRead);
    let listed = update_cart(&mut store, user, &request(vec![line(ticket, 3)], None)).unwrap();
    assert_eq!(listed.total_in_cents, 3000);
    let reduced = update_cart(&mut store, user, &request(vec![line(ticket, 3)], Some(true))).unwrap();
    assert_eq!(reduced.total_in_cents, 2400);
    assert_eq!(reduced.items[0].unit_price_in_cents, 800);
}

#[test]
fn find_or_create_cart_twice_returns_the_same_order() {
    let mut f = cart_fixture();
    let first = f.store.find_or_create_cart(f.user);
    let second = f.store.find_or_create_cart(f.user);
    assert_eq!(first.id, second.id);
    assert_eq!(second.status, OrderStatus::Draft);
    assert_eq!(second.version, 0);
    let other = f.store.add_user(None, None, None, None);
    let third = f.store.find_or_create_cart(other);
    assert_ne!(third.id, first.id);
}

#[test]
fn update_cart_merges_and_replace_cart_replaces() {
    let mut f = cart_fixture();
    update_cart(&mut f.store, f.user, &request(vec![line(f.adult, 2)], None)).unwrap();
    let merged = update_cart(&mut f.store, f.user, &request(vec![line(f.child, 1)], None)).unwrap();
    assert_eq!(merged.items.len(), 2);
    assert_eq!(merged.total_in_cents, 2500);
    let replaced = replace_cart(&mut f.store, f.user, &request(vec![line(f.child, 4)], None)).unwrap();
    assert_eq!(replaced.items.len(), 1);
    assert_eq!(replaced.items[0].ticket_type_id, f.child);
    assert_eq!(replaced.items[0].quantity, 4);
    assert_eq!(replaced.items[0].event_id, Some(f.event));
    assert_eq!(replaced.total_in_cents, 2000);
}

#[test]
fn a_quantity_of_zero_removes_the_line() {
    let mut f = cart_fixture();
    update_cart(&mut f.store, f.user, &request(vec![line(f.adult, 2), line(f.child, 1)], None)).unwrap();
    let shown = update_cart(&mut f.store, f.user, &request(vec![line(f.adult, 0)], None)).unwrap();
    assert_eq!(shown.items.len(), 1);
    assert_eq!(shown.items[0].ticket_type_id, f.child);
    assert_eq!(shown.total_in_cents, 500);
}

#[test]
fn the_last_request_for_a_ticket_type_wins() {
    let mut f = cart_fixture();
    let shown =
        update_cart(&mut f.store, f.user, &request(vec![line(f.adult, 2), line(f.adult, 5)], None)).unwrap();
    assert_eq!(shown.items.len(), 1);
    assert_eq!(shown.items[0].quantity, 5);
    assert_eq!(shown.total_in_cents, 5000);
}

#[test]
fn redemption_codes_stay_on_the_line() {
    let mut f = cart_fixture();
    let item = CartItem { ticket_type_id: f.adult, quantity: 1, redemption_code: Some("FRIENDS".to_string()) };
    let shown = update_cart(&mut f.store, f.user, &request(vec![item], None)).unwrap();
    assert_eq!(shown.items[0].redemption_code, Some("FRIENDS".to_string()));
}

#[test]
fn every_change_counts_in_the_version() {
    let mut f = cart_fixture();
    update_cart(&mut f.store, f.user, &request(vec![line(f.adult, 2)], None)).unwrap();
    assert_eq!(f.store.find_cart_for_user(f.user).unwrap().version, 1);
    replace_cart(&mut f.store, f.user, &request(vec![line(f.adult, 1)], None)).unwrap();
    assert_eq!(f.store.find_cart_for_user(f.user).unwrap().version, 2);
}

#[test]
fn unpublished_events_cannot_be_sold() {
    let mut f = cart_fixture();
    let draft = f.store.add_event(ORGANIZATION, EventStatus::Draft);
    let hidden = f.store.add_ticket_type(draft, 100, 100);
    let e = update_cart(&mut f.store, f.user, &request(vec![line(f.adult, 1), line(hidden, 1)], None)).unwrap_err();
    assert_eq!(e, CheckoutError::EventNotPublished);
    assert_eq!(e.kind(), ErrorKind::ValidationError);
    assert!(f.store.find_cart_for_user(f.user).is_none());
}

#[test]
fn unknown_ticket_types_are_refused() {
    let mut f = cart_fixture();
    let e = replace_cart(&mut f.store, f.user, &request(vec![line(4242, 1)], None)).unwrap_err();
    assert_eq!(e, CheckoutError::UnknownTicketType);
    assert_eq!(e.kind(), ErrorKind::ValidationError);
}

#[test]
fn update_quantities_is_for_the_owner_of_a_draft() {
    let mut f = cart_fixture();
    let cart = f.store.find_or_create_cart(f.user);
    let stranger = f.store.add_user(None, None, None, None);
    let items = vec![line(f.adult, 1)];
    assert_eq!(f.store.update_quantities(cart.id, stranger, &items, false, false), Err(CheckoutError::NotOwner));
    assert_eq!(f.store.update_quantities(77, f.user, &items, false, false), Err(CheckoutError::NotFound));
    f.store.complete(cart.id);
    assert_eq!(f.store.update_quantities(cart.id, f.user, &items, false, false), Err(CheckoutError::NotDraft));
    assert_eq!(f.store.clear_invalid_items(cart.id, f.user), Err(CheckoutError::NotDraft));
    assert_eq!(CheckoutError::NotDraft.kind(), ErrorKind::InvalidState);
    assert!(f.store.items(cart.id).is_empty());
}

#[test]
fn clear_invalid_items_removes_what_cannot_be_bought() {
    let mut f = cart_fixture();
    update_cart(&mut f.store, f.user, &request(vec![line(f.adult, 2), line(f.child, 1)], None)).unwrap();
    let cart = f.store.find_cart_for_user(f.user).unwrap();
    assert!(f.store.items_valid_for_purchase(cart.id));
    f.store.set_ticket_type_status(f.adult, TicketTypeStatus::SoldOut);
    assert!(!f.store.items_valid_for_purchase(cart.id));
    let shown = clear_invalid_items(&mut f.store, f.user).unwrap();
    assert_eq!(shown.items.len(), 1);
    assert_eq!(shown.items[0].ticket_type_id, f.child);
    assert_eq!(shown.total_in_cents, 500);
    assert!(f.store.items_valid_for_purchase(cart.id));
}

#[test]
fn clear_invalid_items_needs_a_cart() {
    let mut f = cart_fixture();
    assert_eq!(clear_invalid_items(&mut f.store, f.user).unwrap_err(), CheckoutError::NoCart);
    assert_eq!(CheckoutError::NoCart.kind(), ErrorKind::UnprocessableEntity);
}

#[test]
fn a_closed_event_makes_its_lines_invalid() {
    let mut f = cart_fixture();
    update_cart(&mut f.store, f.user, &request(vec![line(f.adult, 1)], None)).unwrap();
    f.store.set_event_status(f.event, EventStatus::Closed);
    let shown = clear_invalid_items(&mut f.store, f.user).unwrap();
    assert!(shown.items.is_empty());
    assert_eq!(shown.total_in_cents, 0);
}

#[test]
fn destroy_empties_the_cart() {
    let mut f = cart_fixture();
    update_cart(&mut f.store, f.user, &request(vec![line(f.adult, 2), line(f.child, 1)], None)).unwrap();
    let shown = destroy(&mut f.store, f.user).unwrap();
    assert!(shown.items.is_empty());
    assert_eq!(shown.total_in_cents, 0);
    assert_eq!(show(&f.store, f.user).unwrap().unwrap().id, shown.id);
}

#[test]
fn carts_of_other_users_are_left_alone() {
    let mut f = cart_fixture();
    let other = f.store.add_user(None, None, None, None);
    update_cart(&mut f.store, other, &request(vec![line(f.adult, 7)], None)).unwrap();
    replace_cart(&mut f.store, f.user, &request(vec![line(f.child, 1)], None)).unwrap();
    let theirs = show(&f.store, other).unwrap().unwrap();
    assert_eq!(theirs.items.len(), 1);
    assert_eq!(theirs.total_in_cents, 7000);
}

#[test]
fn ticket_type_ids_are_sorted_and_deduplicated() {
    let items = vec![line(30, 1), line(10, 1), line(30, 2), line(20, 1), line(10, 0)];
    assert_eq!(sorted_ticket_type_ids(&items), vec![10, 20, 30]);
    assert!(sorted_ticket_type_ids(&Vec::new()).is_empty());
}

#[test]
fn box_office_scope_is_needed_on_every_organization() {
    let mut f = cart_fixture();
    let elsewhere = f.store.add_event(901, EventStatus::Published);
    let far = f.store.add_ticket_type(elsewhere, 100, 100);
    f.store.grant(f.user, ORGANIZATION, Scopes::BoxOfficeTicketRead);
    assert!(box_office_allowed(&f.store, f.user, &vec![line(f.adult, 1), line(f.child, 1)]));
    assert!(!box_office_allowed(&f.store, f.user, &vec![line(f.adult, 1), line(far, 1)]));
    f.store.grant(f.user, 901, Scopes::OrderMakeExternalPayment);
    assert!(!box_office_allowed(&f.store, f.user, &vec![line(far, 1)]));
    f.store.grant(f.user, 901, Scopes::BoxOfficeTicketRead);
    assert!(box_office_allowed(&f.store, f.user, &vec![line(f.adult, 1), line(far, 1)]));
}

#[test]
fn totals_that_do_not_fit_are_reported() {
    let mut store = OrderStore::new();
    let user = store.add_user(None, None, None, None);
    let event = store.add_event(ORGANIZATION, EventStatus::Published);
    let mut items = Vec::new();
    for _ in 0..3 {
        let dear = store.add_ticket_type(event, u32::MAX, u32::MAX);
        items.push(line(dear, u32::MAX));
    }
    let e = update_cart(&mut store, user, &request(items, None)).unwrap_err();
    assert_eq!(e, CheckoutError::TotalOverflow);
    assert_eq!(e.kind(), ErrorKind::InternalError);
    let cart = store.find_cart_for_user(user).unwrap();
    assert_eq!(store.calculate_total(cart.id), None);
    assert_eq!(store.items(cart.id).len(), 3);
}
