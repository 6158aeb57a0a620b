use bigneon::cart::{update_cart as put_in_cart, UpdateCartRequest as CartRequest};
use bigneon::checkout::{checkout as start_checkout, resume as continue_checkout, Action, Config, Next, PaymentRequest, Reply, Step};
use bigneon::errors::{CheckoutError, ErrorKind};
use bigneon::models::{CartItem, EventStatus, Order, OrderStatus, PaymentStatus, WalletOwner};
use bigneon::payments::{callback, ipn, PathParams, PaymentProcessorBehavior, QueryParams, ServiceLocator};
use bigneon::store::OrderStore;

struct Pending {
    store: OrderStore,
    config: Config,
    locator: ServiceLocator,
    buyer: u128,
    event: u128,
    ticket_type: u128,
    order: Order,
}

fn front() -> Config {
    Config {
        primary_currency: "usd".to_string(),
        front_end_url: "https://shop.test".to_string(),
        ipn_base_url: "test".to_string(),
    }
}

fn pending_order() -> Pending {
    let mut store = OrderStore::new();
    let buyer = store.add_user(Some("Bo".to_string()), None, Some("bo@example.com".to_string()), None);
    let event = store.add_event(1, EventStatus::Published);
    let ticket_type = store.add_ticket_type(event, 1500, 1500);
    let mut locator = ServiceLocator::new();
    locator.register("globee".to_string(), PaymentProcessorBehavior::RedirectToPaymentPage);
    let config = front();
    let items = vec![CartItem { ticket_type_id: ticket_type, quantity: 2, redemption_code: None }];
    put_in_cart(&mut store, buyer, &CartRequest { items, box_office_pricing: None }).unwrap();
    let cart = store.find_cart_for_user(buyer).unwrap();
    let step = start_checkout(
        &mut store,
        &locator,
        &config,
        &cart,
        PaymentRequest::Provider { provider: "globee".to_string() },
        buyer,
        "secret-nonce".to_string(),
    );
    let step = continue_checkout(
        &mut store,
        &config,
        step.saga,
        Reply::PaymentRequested {
            id: "g-1".to_string(),
            redirect_url: "https://pay.test/g-1".to_string(),
            expires_at: 99,
            raw: "{}".to_string(),
        },
    );
    assert!(matches!(step.next, Next::Done(Ok(_))));
    let order = store.order(cart.id).unwrap();
    assert_eq!(order.status, OrderStatus::PendingPayment);
    Pending { store, config, locator, buyer, event, ticket_type, order }
}

fn path(id: u128, nonce: &str) -> PathParams {
    PathParams { id, nonce: nonce.to_string() }
}

fn error_of_step(step: &Step) -> CheckoutError {
    match &step.next {
        Next::Done(Err(e)) => *e,
        other => panic!("expected a failure, got {:?}", other),
    }
}

#[test]
fn a_buyer_who_reports_success_is_sent_on_and_nothing_changes() {
    let mut p = pending_order();
    let url = callback(&mut p.store, &p.config, &QueryParams { success: true }, &path(p.order.id, "secret-nonce"))
        .unwrap();
    assert_eq!(url, format!("https://shop.test/events/00000000-0000-0000-0000-{:012x}/tickets/success", p.event));
    let order = p.store.order(p.order.id).unwrap();
    assert_eq!(order.status, OrderStatus::PendingPayment);
    assert_eq!(order.version, p.order.version);
    assert_eq!(p.store.payments(p.order.id)[0].status, PaymentStatus::Requested);
}

#[test]
fn a_buyer_who_gave_up_can_check_out_again() {
    let mut p = pending_order();
    let url = callback(&mut p.store, &p.config, &QueryParams { success: false }, &path(p.order.id, "secret-nonce"))
        .unwrap();
    assert_eq!(
        url,
        format!("https://shop.test/events/00000000-0000-0000-0000-{:012x}/tickets/confirmation", p.event)
    );
    assert_eq!(p.store.order(p.order.id).unwrap().status, OrderStatus::Draft);
    assert_eq!(p.store.payments(p.order.id)[0].status, PaymentStatus::Cancelled);
    assert_eq!(p.store.find_cart_for_user(p.buyer).unwrap().id, p.order.id);
}

#[test]
fn an_order_given_up_is_cancelled_where_the_buyer_has_a_new_cart() {
    let mut p = pending_order();
    let new_cart = p.store.find_or_create_cart(p.buyer);
    assert_ne!(new_cart.id, p.order.id);
    callback(&mut p.store, &p.config, &QueryParams { success: false }, &path(p.order.id, "secret-nonce")).unwrap();
    assert_eq!(p.store.order(p.order.id).unwrap().status, OrderStatus::Cancelled);
    assert_eq!(p.store.find_cart_for_user(p.buyer).unwrap().id, new_cart.id);
}

#[test]
fn a_return_with_a_wrong_secret_finds_nothing() {
    let mut p = pending_order();
    let wrong = callback(&mut p.store, &p.config, &QueryParams { success: false }, &path(p.order.id, "guess"));
    assert_eq!(wrong.unwrap_err(), CheckoutError::NotFound);
    assert_eq!(CheckoutError::NotFound.kind(), ErrorKind::NotFound);
    let missing = callback(&mut p.store, &p.config, &QueryParams { success: true }, &path(123456, "secret-nonce"));
    assert_eq!(missing.unwrap_err(), CheckoutError::NotFound);
    assert_eq!(p.store.order(p.order.id).unwrap().status, OrderStatus::PendingPayment);
    assert_eq!(p.store.payments(p.order.id)[0].status, PaymentStatus::Requested);
}

#[test]
fn the_provider_confirms_the_payment() {
    let mut p = pending_order();
    let escrow = p.store.add_wallet(WalletOwner::Organization(1), "es".to_string(), "ep".to_string());
    p.store.add_wallet(WalletOwner::User(p.buyer), "bs".to_string(), "bp".to_string());
    let asset = p.store.add_asset(p.ticket_type, Some("ledger-1".to_string()));
    p.store.add_ticket(asset, 1, escrow, Some(p.order.id));
    p.store.add_ticket(asset, 2, escrow, Some(p.order.id));
    let step = ipn(&mut p.store, p.order.id, "globee-g-1", true, "{\"status\":\"paid\"}".to_string());
    match &step.next {
        Next::Perform(Action::Transfer { asset_id, token_ids, recipient_public_key, .. }) => {
            assert_eq!(asset_id, "ledger-1");
            assert_eq!(token_ids, &vec![1, 2]);
            assert_eq!(recipient_public_key, "bp");
        },
        other => panic!("unexpected {:?}", other),
    }
    let payments = p.store.payments(p.order.id);
    assert_eq!(payments[0].status, PaymentStatus::Completed);
    assert_eq!(payments[0].raw_data, Some("{\"status\":\"paid\"}".to_string()));
    assert_eq!(p.store.order(p.order.id).unwrap().status, OrderStatus::Paid);
    let step = continue_checkout(&mut p.store, &p.config, step.saga, Reply::Transferred);
    assert!(matches!(step.next, Next::Perform(Action::Notify { .. })));
    let step = continue_checkout(&mut p.store, &p.config, step.saga, Reply::Notified);
    match step.next {
        Next::Done(Ok(shown)) => assert_eq!(shown.status, OrderStatus::Paid),
        other => panic!("unexpected {:?}", other),
    }
    let again = ipn(&mut p.store, p.order.id, "globee-g-1", true, "{}".to_string());
    assert_eq!(error_of_step(&again), CheckoutError::NotPending);
}

#[test]
fn the_provider_reports_a_payment_that_failed() {
    let mut p = pending_order();
    let step = ipn(&mut p.store, p.order.id, "globee-g-1", false, "{\"status\":\"expired\"}".to_string());
    match step.next {
        Next::Done(Ok(shown)) => assert_eq!(shown.status, OrderStatus::Draft),
        other => panic!("unexpected {:?}", other),
    }
    assert_eq!(p.store.payments(p.order.id)[0].status, PaymentStatus::Cancelled);
    let unknown = ipn(&mut p.store, p.order.id, "globee-zzz", true, "{}".to_string());
    assert_eq!(error_of_step(&unknown), CheckoutError::NotFound);
    let nowhere = ipn(&mut p.store, 55555, "globee-g-1", true, "{}".to_string());
    assert_eq!(error_of_step(&nowhere), CheckoutError::NotFound);
}

#[test]
fn an_order_that_waits_for_its_payment_cannot_be_checked_out() {
    let mut p = pending_order();
    let step = start_checkout(&mut p.store, &p.locator, &p.config, &p.order, PaymentRequest::Free, p.buyer, "n".to_string());
    assert_eq!(error_of_step(&step), CheckoutError::NotDraft);
}

#[test]
fn the_registry_finds_processors_by_name() {
    let mut locator = ServiceLocator::new();
    assert_eq!(locator.create_payment_processor("stripe"), Err(CheckoutError::UnknownProvider));
    locator.register("stripe".to_string(), PaymentProcessorBehavior::AuthThenComplete);
    locator.register("globee".to_string(), PaymentProcessorBehavior::RedirectToPaymentPage);
    locator.register("stripe".to_string(), PaymentProcessorBehavior::RedirectToPaymentPage);
    assert_eq!(locator.create_payment_processor("stripe"), Ok(PaymentProcessorBehavior::AuthThenComplete));
    assert_eq!(locator.create_payment_processor("globee"), Ok(PaymentProcessorBehavior::RedirectToPaymentPage));
    assert_eq!(locator.create_payment_processor("Stripe"), Err(CheckoutError::UnknownProvider));
    assert_eq!(CheckoutError::UnknownProvider.kind(), ErrorKind::ConfigurationError);
}

#[test]
fn a_paid_order_stays_paid_whatever_the_buyer_says_later() {
    let mut p = pending_order();
    ipn(&mut p.store, p.order.id, "globee-g-1", true, "{}".to_string());
    assert_eq!(p.store.order(p.order.id).unwrap().status, OrderStatus::Paid);
    let url = callback(&mut p.store, &p.config, &QueryParams { success: false }, &path(p.order.id, "secret-nonce"));
    assert!(url.is_ok());
    assert_eq!(p.store.order(p.order.id).unwrap().status, OrderStatus::Paid);
    assert_eq!(p.store.payments(p.order.id)[0].status, PaymentStatus::Completed);
}

#[test]
fn final_states_are_not_left() {
    let mut p = pending_order();
    let payment = p.store.payments(p.order.id)[0].id;
    p.store.mark_payment(payment, PaymentStatus::Cancelled, Some("gone".to_string()));
    p.store.mark_payment(payment, PaymentStatus::Completed, Some("back".to_string()));
    p.store.set_payment_status(payment, PaymentStatus::Authorized);
    let kept = p.store.payment(payment).unwrap();
    assert_eq!(kept.status, PaymentStatus::Cancelled);
    assert_eq!(kept.raw_data, Some("gone".to_string()));
    p.store.complete(p.order.id);
    assert_eq!(p.store.order(p.order.id).unwrap().status, OrderStatus::Paid);
    p.store.reset_to_draft(p.order.id);
    p.store.add_checkout_url(p.order.id, "https://other.test".to_string(), 1);
    let order = p.store.order(p.order.id).unwrap();
    assert_eq!(order.status, OrderStatus::Paid);
    assert_eq!(order.checkout_url, Some("https://pay.test/g-1".to_string()));
}
