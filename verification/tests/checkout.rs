use bigneon::cart::{update_cart, UpdateCartRequest};
use bigneon::checkout::{
    auth_then_complete, checkout, checkout_external, checkout_free, checkout_payment_processor, external_allowed,
    redirect_to_payment_page, resume, Action, Config, Next, PaymentRequest, Reply, Saga, Stage, Step,
};
use bigneon::errors::{CheckoutError, ErrorKind, ProviderError};
use bigneon::models::{
    CartItem, EventStatus, Order, OrderStatus, PaymentMethods, PaymentStatus, Scopes, TicketTypeStatus,
    WalletOwner,
};
use bigneon::payments::{PaymentProcessorBehavior, ServiceLocator};
use bigneon::store::OrderStore;

const ORG: u128 = 700;

struct Shop {
    store: OrderStore,
    locator: ServiceLocator,
    config: Config,
    buyer: u128,
    event: u128,
    adult: u128,
    child: u128,
    free: u128,
}

fn shop() -> Shop {
    let mut store = OrderStore::new();
    let buyer = store.add_user(Some("Bo".to_string()), Some("Buyer".to_string()), Some("bo@example.com".to_string()), None);
    let event = store.add_event(ORG, EventStatus::Published);
    let adult = store.add_ticket_type(event, 1000, 900);
    let child = store.add_ticket_type(event, 500, 400);
    let free = store.add_ticket_type(event, 0, 0);
    let mut locator = ServiceLocator::new();
    locator.register("stripe".to_string(), PaymentProcessorBehavior::AuthThenComplete);
    locator.register("globee".to_string(), PaymentProcessorBehavior::RedirectToPaymentPage);
    let config = Config {
        primary_currency: "usd".to_string(),
        front_end_url: "https://shop.test".to_string(),
        ipn_base_url: "https://api.test".to_string(),
    };
    Shop { store, locator, config, buyer, event, adult, child, free }
}

fn fill(shop: &mut Shop, lines: Vec<(u128, u32)>) -> Order {
    let items = lines
        .into_iter()
        .map(|(ticket_type_id, quantity)| CartItem { ticket_type_id, quantity, redemption_code: None })
        .collect();
    update_cart(&mut shop.store, shop.buyer, &UpdateCartRequest { items, box_office_pricing: None }).unwrap();
    shop.store.find_cart_for_user(shop.buyer).unwrap()
}

fn begin(shop: &mut Shop, cart: &Order, request: PaymentRequest) -> Step {
    checkout(&mut shop.store, &shop.locator, &shop.config, cart, request, shop.buyer, "nonce-1".to_string())
}

fn go_on(shop: &mut Shop, step: Step, reply: Reply) -> Step {
    resume(&mut shop.store, &shop.config, step.saga, reply)
}

fn card(save_payment_method: bool) -> PaymentRequest {
    PaymentRequest::Card {
        token: "tok_visa".to_string(),
        provider: "stripe".to_string(),
        save_payment_method,
        set_default: true,
    }
}

fn failure(step: &Step) -> CheckoutError {
    match &step.next {
        Next::Done(Err(e)) => *e,
        other => panic!("expected a failure, got {:?}", other),
    }
}

fn wallets_and_tickets(shop: &mut Shop, cart: &Order) -> (u128, u128) {
    let escrow = shop.store.add_wallet(WalletOwner::Organization(1), "escrow-secret".to_string(), "escrow-public".to_string());
    shop.store.add_wallet(WalletOwner::User(shop.buyer), "buyer-secret".to_string(), "buyer-public".to_string());
    let adults = shop.store.add_asset(shop.adult, Some("ledger-adult".to_string()));
    let children = shop.store.add_asset(shop.child, Some("ledger-child".to_string()));
    shop.store.add_ticket(adults, 11, escrow, Some(cart.id));
    shop.store.add_ticket(children, 21, escrow, Some(cart.id));
    shop.store.add_ticket(adults, 12, escrow, Some(cart.id));
    shop.store.add_ticket(adults, 13, escrow, None);
    (adults, children)
}

#[test]
fn free_checkout_records_one_completed_payment_of_zero() {
    let mut shop = shop();
    let free = shop.free;
    let cart = fill(&mut shop, vec![(free, 3)]);
    let step = begin(&mut shop, &cart, PaymentRequest::Free);
    match &step.next {
        Next::Perform(Action::Notify { first_name, email, order_id }) => {
            assert_eq!(first_name, "Bo");
            assert_eq!(email, "bo@example.com");
            assert_eq!(*order_id, cart.id);
        },
        other => panic!("unexpected {:?}", other),
    }
    let payments = shop.store.payments(cart.id);
    assert_eq!(payments.len(), 1);
    assert_eq!(payments[0].status, PaymentStatus::Completed);
    assert_eq!(payments[0].amount, 0);
    assert_eq!(payments[0].payment_method, PaymentMethods::External);
    assert_eq!(payments[0].provider, "External");
    assert_eq!(payments[0].external_reference, Some("Free Checkout".to_string()));
    assert_eq!(payments[0].created_by, Some(shop.buyer));
    let done = go_on(&mut shop, step, Reply::Notified);
    match done.next {
        Next::Done(Ok(shown)) => {
            assert_eq!(shown.status, OrderStatus::Paid);
            assert_eq!(shown.total_in_cents, 0);
            assert_eq!(shown.items.len(), 1);
        },
        other => panic!("unexpected {:?}", other),
    }
    assert_eq!(shop.store.payments(cart.id).len(), 1);
}

#[test]
fn free_checkout_of_an_empty_cart_goes_through() {
    let mut shop = shop();
    let cart = shop.store.find_or_create_cart(shop.buyer);
    let step = begin(&mut shop, &cart, PaymentRequest::Free);
    assert!(matches!(step.next, Next::Perform(Action::Notify { .. })));
    assert_eq!(shop.store.payments(cart.id).len(), 1);
    assert_eq!(shop.store.order(cart.id).unwrap().status, OrderStatus::Paid);
}

#[test]
fn a_failed_notification_does_not_fail_the_checkout() {
    let mut shop = shop();
    let free = shop.free;
    let cart = fill(&mut shop, vec![(free, 1)]);
    let step = begin(&mut shop, &cart, PaymentRequest::Free);
    let done = go_on(&mut shop, step, Reply::Failed(ProviderError::Transport));
    assert!(matches!(done.next, Next::Done(Ok(_))));
    assert_eq!(done.saga.stage, Stage::Done);
}

#[test]
fn free_checkout_needs_a_total_of_zero() {
    let mut shop = shop();
    let adult = shop.adult;
    let cart = fill(&mut shop, vec![(adult, 1)]);
    let step = begin(&mut shop, &cart, PaymentRequest::Free);
    assert_eq!(failure(&step), CheckoutError::TotalNotZero);
    assert_eq!(failure(&step).kind(), ErrorKind::UnprocessableEntity);
    assert!(shop.store.payments(cart.id).is_empty());
    assert_eq!(shop.store.order(cart.id).unwrap().version, cart.version);
}

#[test]
fn orders_that_are_no_drafts_cannot_be_checked_out() {
    let mut shop = shop();
    let free = shop.free;
    let cart = fill(&mut shop, vec![(free, 1)]);
    begin(&mut shop, &cart, PaymentRequest::Free);
    let paid = shop.store.order(cart.id).unwrap();
    assert_eq!(paid.status, OrderStatus::Paid);
    for request in vec![
        PaymentRequest::Free,
        card(false),
        PaymentRequest::Provider { provider: "globee".to_string() },
        PaymentRequest::PaymentMethod { provider: None },
    ] {
        let again = begin(&mut shop, &paid, request);
        assert_eq!(failure(&again), CheckoutError::NotDraft);
        assert_eq!(failure(&again).kind(), ErrorKind::InvalidState);
        assert_eq!(failure(&again).status_class(), 409);
    }
    assert_eq!(shop.store.payments(cart.id).len(), 1);
    assert_eq!(shop.store.order(cart.id).unwrap().version, paid.version);
}

#[test]
fn checks_come_in_order() {
    let mut shop = shop();
    let adult = shop.adult;
    let cart = fill(&mut shop, vec![(adult, 1)]);
    let stranger = shop.store.add_user(None, None, None, None);
    let missing = Order { id: 4711, ..shop.store.order(cart.id).unwrap() };
    assert_eq!(failure(&begin(&mut shop, &missing, card(false))), CheckoutError::NotFound);
    let step = checkout(&mut shop.store, &shop.locator, &shop.config, &cart, card(false), stranger, "n".to_string());
    assert_eq!(failure(&step), CheckoutError::NotOwner);
    assert_eq!(failure(&step).kind(), ErrorKind::Forbidden);
    let stale = Order { version: cart.version + 5, ..shop.store.order(cart.id).unwrap() };
    assert_eq!(failure(&begin(&mut shop, &stale, card(false))), CheckoutError::Conflict);
    shop.store.set_ticket_type_status(adult, TicketTypeStatus::SaleEnded);
    let step = begin(&mut shop, &cart, card(false));
    assert_eq!(failure(&step), CheckoutError::InvalidItems);
    assert_eq!(failure(&step).kind(), ErrorKind::UnprocessableEntity);
    shop.store.set_ticket_type_status(adult, TicketTypeStatus::OnSale);
    let wallet = shop.store.add_wallet(WalletOwner::Organization(1), "s".to_string(), "p".to_string());
    let unassigned = shop.store.add_asset(adult, None);
    shop.store.add_ticket(unassigned, 1, wallet, Some(cart.id));
    let step = begin(&mut shop, &cart, card(false));
    assert_eq!(failure(&step), CheckoutError::AssetNotOnLedger);
    assert_eq!(failure(&step).kind(), ErrorKind::InternalError);
    assert!(shop.store.payments(cart.id).is_empty());
    assert_eq!(shop.store.order(cart.id).unwrap().version, cart.version);
}

#[test]
fn card_checkout_that_saves_the_card() {
    let mut shop = shop();
    let (adult, child) = (shop.adult, shop.child);
    let cart = fill(&mut shop, vec![(adult, 2), (child, 1)]);
    wallets_and_tickets(&mut shop, &cart);
    let cart = shop.store.order(cart.id).unwrap();
    assert!(shop.store.payment_method(shop.buyer, "stripe").is_none());

    let mut step = begin(&mut shop, &cart, card(true));
    let mut repeat_tokens = 0;
    let mut authorizations = 0;
    let mut captures = 0;
    let mut commits = 0;
    let mut transfers: Vec<(String, Vec<u64>)> = Vec::new();
    let mut notifications = 0;
    let shown = loop {
        let reply = match &step.next {
            Next::Done(result) => break result.as_ref().map(|d| (d.status, d.total_in_cents)),
            Next::Perform(Action::CreateRepeatToken { token, label }) => {
                assert_eq!(token, "tok_visa");
                assert_eq!(label, "Big Neon");
                repeat_tokens += 1;
                Reply::RepeatToken { token: "cus_1".to_string(), raw: "{\"customer\":1}".to_string() }
            },
            Next::Perform(Action::Authorize { token, amount, currency, description, metadata }) => {
                assert_eq!(token, "cus_1");
                assert_eq!(*amount, 2500);
                assert_eq!(currency, "usd");
                assert_eq!(description, "Big Neon Tickets");
                assert_eq!(metadata.len(), 1);
                assert_eq!(metadata[0].0, "order_id");
                assert_eq!(metadata[0].1, format!("00000000-0000-0000-0000-{:012x}", cart.id));
                assert!(shop.store.payments(cart.id).is_empty());
                authorizations += 1;
                Reply::Authorized { id: "ch_1".to_string(), raw: "{\"auth\":1}".to_string() }
            },
            Next::Perform(Action::Commit) => {
                let payments = shop.store.payments(cart.id);
                assert_eq!(payments.len(), 1);
                assert_eq!(payments[0].status, PaymentStatus::Authorized);
                assert_eq!(payments[0].raw_data, Some("{\"auth\":1}".to_string()));
                commits += 1;
                Reply::Committed
            },
            Next::Perform(Action::Capture { auth_id }) => {
                assert_eq!(auth_id, "ch_1");
                captures += 1;
                Reply::Captured { raw: "{\"captured\":1}".to_string() }
            },
            Next::Perform(Action::Transfer {
                sender_secret_key,
                sender_public_key,
                asset_id,
                token_ids,
                recipient_public_key,
            }) => {
                assert_eq!(sender_secret_key, "escrow-secret");
                assert_eq!(sender_public_key, "escrow-public");
                assert_eq!(recipient_public_key, "buyer-public");
                transfers.push((asset_id.clone(), token_ids.clone()));
                Reply::Transferred
            },
            Next::Perform(Action::Notify { .. }) => {
                notifications += 1;
                Reply::Notified
            },
            other => panic!("unexpected {:?}", other),
        };
        step = go_on(&mut shop, step, reply);
    };
    assert_eq!(shown, Ok((OrderStatus::Paid, 2500)));
    assert_eq!((repeat_tokens, authorizations, commits, captures, notifications), (1, 1, 1, 1, 1));
    assert_eq!(
        transfers,
        vec![("ledger-adult".to_string(), vec![11, 12]), ("ledger-child".to_string(), vec![21])]
    );
    let method = shop.store.payment_method(shop.buyer, "stripe").unwrap();
    assert_eq!(method.provider, "cus_1");
    assert_eq!(method.provider_data, "{\"customer\":1}");
    assert!(method.is_default);
    assert_eq!(shop.store.default_payment_method(shop.buyer).unwrap().name, "stripe");
    let payments = shop.store.payments(cart.id);
    assert_eq!(payments.len(), 1);
    assert_eq!(payments[0].status, PaymentStatus::Completed);
    assert_eq!(payments[0].amount, 2500);
    assert_eq!(payments[0].provider, "stripe");
    assert_eq!(payments[0].payment_method, PaymentMethods::CreditCard);
    assert_eq!(payments[0].external_reference, Some("ch_1".to_string()));
    assert_eq!(payments[0].raw_data, Some("{\"captured\":1}".to_string()));
}

#[test]
fn saving_a_card_again_updates_the_repeat_token() {
    let mut shop = shop();
    let adult = shop.adult;
    let cart = fill(&mut shop, vec![(adult, 1)]);
    shop.store.save_payment_method(bigneon::models::PaymentMethod {
        user_id: shop.buyer,
        name: "stripe".to_string(),
        is_default: false,
        provider: "cus_old".to_string(),
        provider_data: "{}".to_string(),
    });
    let step = begin(&mut shop, &cart, card(true));
    match &step.next {
        Next::Perform(Action::UpdateRepeatToken { stored_token, new_token, label }) => {
            assert_eq!(stored_token, "cus_old");
            assert_eq!(new_token, "tok_visa");
            assert_eq!(label, "Big Neon");
        },
        other => panic!("unexpected {:?}", other),
    }
    let step = go_on(&mut shop, step, Reply::RepeatToken { token: "cus_new".to_string(), raw: "{\"n\":2}".to_string() });
    match &step.next {
        Next::Perform(Action::Authorize { token, amount, .. }) => {
            assert_eq!(token, "cus_new");
            assert_eq!(*amount, 1000);
        },
        other => panic!("unexpected {:?}", other),
    }
    let method = shop.store.payment_method(shop.buyer, "stripe").unwrap();
    assert_eq!(method.provider, "cus_new");
    assert_eq!(method.provider_data, "{\"n\":2}");
    assert!(!method.is_default);
}

#[test]
fn a_refused_repeat_token_ends_the_checkout() {
    let mut shop = shop();
    let adult = shop.adult;
    let cart = fill(&mut shop, vec![(adult, 1)]);
    let step = begin(&mut shop, &cart, card(true));
    let step = go_on(&mut shop, step, Reply::Failed(ProviderError::Rejected(402)));
    assert_eq!(failure(&step), CheckoutError::Provider(ProviderError::Rejected(402)));
    assert!(shop.store.payment_method(shop.buyer, "stripe").is_none());
    assert!(shop.store.payments(cart.id).is_empty());
}

#[test]
fn a_failed_authorization_records_and_refunds_nothing() {
    let mut shop = shop();
    let adult = shop.adult;
    let cart = fill(&mut shop, vec![(adult, 2)]);
    let step = begin(&mut shop, &cart, card(false));
    match &step.next {
        Next::Perform(Action::Authorize { token, amount, .. }) => {
            assert_eq!(token, "tok_visa");
            assert_eq!(*amount, 2000);
        },
        other => panic!("unexpected {:?}", other),
    }
    let step = go_on(&mut shop, step, Reply::Failed(ProviderError::Rejected(402)));
    let e = failure(&step);
    assert_eq!(e, CheckoutError::Provider(ProviderError::Rejected(402)));
    assert_eq!(e.kind(), ErrorKind::ProcessorUnavailable);
    assert_eq!(e.status_class(), 500);
    assert!(shop.store.payments(cart.id).is_empty());
    assert_eq!(shop.store.order(cart.id).unwrap().status, OrderStatus::Draft);
    let step = go_on(&mut shop, step, Reply::Refunded);
    assert_eq!(failure(&step), CheckoutError::NotPending);
}

#[test]
fn a_timeout_counts_as_a_transport_failure() {
    let mut shop = shop();
    let adult = shop.adult;
    let cart = fill(&mut shop, vec![(adult, 2)]);
    let step = begin(&mut shop, &cart, card(false));
    let step = go_on(&mut shop, step, Reply::Failed(ProviderError::Transport));
    assert_eq!(failure(&step), CheckoutError::Provider(ProviderError::Transport));
    let again = shop.store.order(cart.id).unwrap();
    let step = begin(&mut shop, &again, card(false));
    let step = go_on(&mut shop, step, Reply::Committed);
    assert_eq!(failure(&step), CheckoutError::Provider(ProviderError::Transport));
    assert!(shop.store.payments(cart.id).is_empty());
}

fn authorized(shop: &mut Shop, lines: Vec<(u128, u32)>) -> (Order, Step) {
    let cart = fill(shop, lines);
    let step = begin(shop, &cart, card(false));
    let step = go_on(shop, step, Reply::Authorized { id: "ch_9".to_string(), raw: "{\"a\":9}".to_string() });
    assert!(matches!(step.next, Next::Perform(Action::Commit)));
    let step = go_on(shop, step, Reply::Committed);
    match &step.next {
        Next::Perform(Action::Capture { auth_id }) => assert_eq!(auth_id, "ch_9"),
        other => panic!("unexpected {:?}", other),
    }
    (cart, step)
}

#[test]
fn a_failed_capture_is_refunded_once() {
    let mut shop = shop();
    let adult = shop.adult;
    let (cart, step) = authorized(&mut shop, vec![(adult, 1)]);
    let step = go_on(&mut shop, step, Reply::Failed(ProviderError::Rejected(500)));
    match &step.next {
        Next::Perform(Action::Refund { auth_id }) => assert_eq!(auth_id, "ch_9"),
        other => panic!("unexpected {:?}", other),
    }
    let payments = shop.store.payments(cart.id);
    assert_eq!(payments.len(), 1);
    assert_eq!(payments[0].status, PaymentStatus::Cancelled);
    assert_eq!(payments[0].raw_data, Some("{\"a\":9}".to_string()));
    let step = go_on(&mut shop, step, Reply::Refunded);
    assert_eq!(failure(&step), CheckoutError::Provider(ProviderError::Rejected(500)));
    assert_eq!(step.saga.stage, Stage::Done);
    let step = go_on(&mut shop, step, Reply::Refunded);
    assert_eq!(failure(&step), CheckoutError::NotPending);
    assert_eq!(shop.store.payments(cart.id)[0].status, PaymentStatus::Cancelled);
    assert_eq!(shop.store.order(cart.id).unwrap().status, OrderStatus::Draft);
}

#[test]
fn a_failed_refund_is_reported_as_such() {
    let mut shop = shop();
    let adult = shop.adult;
    let (_cart, step) = authorized(&mut shop, vec![(adult, 1)]);
    let step = go_on(&mut shop, step, Reply::Failed(ProviderError::Transport));
    let step = go_on(&mut shop, step, Reply::Failed(ProviderError::Rejected(503)));
    assert_eq!(failure(&step), CheckoutError::RefundFailed(ProviderError::Rejected(503)));
}

#[test]
fn a_failed_commit_is_refunded() {
    let mut shop = shop();
    let adult = shop.adult;
    let cart = fill(&mut shop, vec![(adult, 1)]);
    let step = begin(&mut shop, &cart, card(false));
    let step = go_on(&mut shop, step, Reply::Authorized { id: "ch_3".to_string(), raw: "{}".to_string() });
    let step = go_on(&mut shop, step, Reply::Failed(ProviderError::Transport));
    match &step.next {
        Next::Perform(Action::Refund { auth_id }) => assert_eq!(auth_id, "ch_3"),
        other => panic!("unexpected {:?}", other),
    }
    assert_eq!(shop.store.payments(cart.id)[0].status, PaymentStatus::Cancelled);
}

#[test]
fn a_cart_changed_during_the_authorization_is_refunded() {
    let mut shop = shop();
    let (adult, child) = (shop.adult, shop.child);
    let cart = fill(&mut shop, vec![(adult, 1)]);
    let step = begin(&mut shop, &cart, card(false));
    fill(&mut shop, vec![(child, 1)]);
    let step = go_on(&mut shop, step, Reply::Authorized { id: "ch_4".to_string(), raw: "{}".to_string() });
    match &step.next {
        Next::Perform(Action::Refund { auth_id }) => assert_eq!(auth_id, "ch_4"),
        other => panic!("unexpected {:?}", other),
    }
    assert!(shop.store.payments(cart.id).is_empty());
    let step = go_on(&mut shop, step, Reply::Refunded);
    assert_eq!(failure(&step), CheckoutError::Conflict);
}

#[test]
fn of_two_checkouts_from_one_reading_the_second_conflicts() {
    let mut shop = shop();
    let adult = shop.adult;
    let cart = fill(&mut shop, vec![(adult, 1)]);
    let first = begin(&mut shop, &cart, card(false));
    assert!(matches!(first.next, Next::Perform(Action::Authorize { .. })));
    let second = begin(&mut shop, &cart, card(false));
    let e = failure(&second);
    assert_eq!(e, CheckoutError::Conflict);
    assert_eq!(e.kind(), ErrorKind::ConcurrencyConflict);
    assert_eq!(e.status_class(), 409);
    let first = go_on(&mut shop, first, Reply::Authorized { id: "ch_1".to_string(), raw: "{}".to_string() });
    assert!(matches!(first.next, Next::Perform(Action::Commit)));
    assert_eq!(shop.store.payments(cart.id).len(), 1);
}

#[test]
fn stored_payment_methods_are_charged_by_their_token() {
    let mut shop = shop();
    let adult = shop.adult;
    let cart = fill(&mut shop, vec![(adult, 1)]);
    let step = begin(&mut shop, &cart, PaymentRequest::PaymentMethod { provider: None });
    assert_eq!(failure(&step), CheckoutError::NoDefaultPaymentMethod);
    let step = begin(&mut shop, &cart, PaymentRequest::PaymentMethod { provider: Some("stripe".to_string()) });
    assert_eq!(failure(&step), CheckoutError::NoStoredPaymentMethod);
    shop.store.save_payment_method(bigneon::models::PaymentMethod {
        user_id: shop.buyer,
        name: "stripe".to_string(),
        is_default: true,
        provider: "cus_7".to_string(),
        provider_data: "{}".to_string(),
    });
    let step = begin(&mut shop, &cart, PaymentRequest::PaymentMethod { provider: None });
    match &step.next {
        Next::Perform(Action::Authorize { token, .. }) => assert_eq!(token, "cus_7"),
        other => panic!("unexpected {:?}", other),
    }
}

#[test]
fn card_processors_need_a_token_and_providers_need_to_be_known() {
    let mut shop = shop();
    let adult = shop.adult;
    let cart = fill(&mut shop, vec![(adult, 1)]);
    let step = begin(&mut shop, &cart, PaymentRequest::Provider { provider: "stripe".to_string() });
    assert_eq!(failure(&step), CheckoutError::NoToken);
    let step = begin(&mut shop, &cart, PaymentRequest::Provider { provider: "paypal".to_string() });
    assert_eq!(failure(&step), CheckoutError::UnknownProvider);
    assert_eq!(failure(&step).kind(), ErrorKind::ConfigurationError);
    assert_eq!(shop.store.order(cart.id).unwrap().version, cart.version);
}

#[test]
fn redirect_checkout_without_an_email_makes_no_call() {
    let mut shop = shop();
    let nameless = shop.store.add_user(Some("No".to_string()), None, None, Some("555".to_string()));
    let items = vec![CartItem { ticket_type_id: shop.adult, quantity: 1, redemption_code: None }];
    update_cart(&mut shop.store, nameless, &UpdateCartRequest { items, box_office_pricing: None }).unwrap();
    let cart = shop.store.find_cart_for_user(nameless).unwrap();
    let step = checkout(
        &mut shop.store,
        &shop.locator,
        &shop.config,
        &cart,
        PaymentRequest::Provider { provider: "globee".to_string() },
        nameless,
        "n".to_string(),
    );
    let e = failure(&step);
    assert_eq!(e, CheckoutError::NoEmail);
    assert_eq!(e.kind(), ErrorKind::UnprocessableEntity);
    assert!(shop.store.payments(cart.id).is_empty());
    let now = shop.store.order(cart.id).unwrap();
    assert_eq!(now.version, cart.version);
    assert_eq!(now.status, OrderStatus::Draft);
}

#[test]
fn redirect_checkout_asks_for_a_page_and_waits() {
    let mut shop = shop();
    let adult = shop.adult;
    let cart = fill(&mut shop, vec![(adult, 3)]);
    let step = begin(&mut shop, &cart, PaymentRequest::Provider { provider: "globee".to_string() });
    let event = format!("00000000-0000-0000-0000-{:012x}", shop.event);
    match &step.next {
        Next::Perform(Action::RequestPayment { amount_in_cents, email, order_id, ipn_url, success_url, cancel_url }) => {
            assert_eq!(*amount_in_cents, 3000);
            assert_eq!(email, "bo@example.com");
            assert_eq!(*order_id, cart.id);
            assert_eq!(ipn_url, &Some("https://api.test/ipns/globee".to_string()));
            assert_eq!(success_url, &Some(format!("https://shop.test/events/{}/tickets/success", event)));
            assert_eq!(cancel_url, &Some(format!("https://shop.test/events/{}/tickets/confirmation", event)));
        },
        other => panic!("unexpected {:?}", other),
    }
    assert!(shop.store.payments(cart.id).is_empty());
    let step = go_on(
        &mut shop,
        step,
        Reply::PaymentRequested {
            id: "abc".to_string(),
            redirect_url: "https://pay.test/abc".to_string(),
            expires_at: 1_700_000_000,
            raw: "{\"id\":\"abc\"}".to_string(),
        },
    );
    match &step.next {
        Next::Done(Ok(shown)) => {
            assert_eq!(shown.status, OrderStatus::PendingPayment);
            assert_eq!(shown.checkout_url, Some("https://pay.test/abc".to_string()));
            assert_eq!(shown.total_in_cents, 3000);
        },
        other => panic!("unexpected {:?}", other),
    }
    let order = shop.store.order(cart.id).unwrap();
    assert_eq!(order.checkout_url_expires, Some(1_700_000_000));
    let payments = shop.store.payments(cart.id);
    assert_eq!(payments.len(), 1);
    assert_eq!(payments[0].status, PaymentStatus::Requested);
    assert_eq!(payments[0].payment_method, PaymentMethods::Provider);
    assert_eq!(payments[0].amount, 3000);
    assert_eq!(payments[0].provider, "globee");
    assert_eq!(payments[0].external_reference, Some("globee-abc".to_string()));
    assert_eq!(payments[0].url_nonce, Some("nonce-1".to_string()));
}

#[test]
fn notifications_are_switched_off_by_test_in_any_case() {
    let mut shop = shop();
    shop.config.ipn_base_url = "TeSt".to_string();
    let adult = shop.adult;
    let cart = fill(&mut shop, vec![(adult, 1)]);
    let step = begin(&mut shop, &cart, PaymentRequest::Provider { provider: "globee".to_string() });
    match &step.next {
        Next::Perform(Action::RequestPayment { ipn_url, .. }) => assert_eq!(ipn_url, &None),
        other => panic!("unexpected {:?}", other),
    }
}

#[test]
fn redirect_checkout_needs_an_event_and_a_provider_that_answers() {
    let mut shop = shop();
    let empty = shop.store.find_or_create_cart(shop.buyer);
    let step = begin(&mut shop, &empty, PaymentRequest::Provider { provider: "globee".to_string() });
    assert_eq!(failure(&step), CheckoutError::NoEvent);
    let adult = shop.adult;
    let cart = fill(&mut shop, vec![(adult, 1)]);
    let step = begin(&mut shop, &cart, PaymentRequest::Provider { provider: "globee".to_string() });
    let step = go_on(&mut shop, step, Reply::Failed(ProviderError::Rejected(400)));
    assert_eq!(failure(&step), CheckoutError::Provider(ProviderError::Rejected(400)));
    assert!(shop.store.payments(cart.id).is_empty());
    assert_eq!(shop.store.order(cart.id).unwrap().status, OrderStatus::Draft);
}

fn external(email: Option<&str>, phone: Option<&str>) -> PaymentRequest {
    PaymentRequest::External {
        reference: Some("cash 17".to_string()),
        first_name: "Gus".to_string(),
        last_name: "Guest".to_string(),
        email: email.map(|s| s.to_string()),
        phone: phone.map(|s| s.to_string()),
        note: Some("paid at the door".to_string()),
    }
}

#[test]
fn external_checkout_needs_the_scope() {
    let mut shop = shop();
    let adult = shop.adult;
    let cart = fill(&mut shop, vec![(adult, 1)]);
    assert!(!external_allowed(&shop.store, cart.id, shop.buyer));
    let step = begin(&mut shop, &cart, external(None, None));
    assert_eq!(failure(&step), CheckoutError::MissingScope);
    assert_eq!(failure(&step).kind(), ErrorKind::Forbidden);
    assert!(shop.store.payments(cart.id).is_empty());
    shop.store.grant(shop.buyer, ORG, Scopes::BoxOfficeTicketRead);
    assert!(!external_allowed(&shop.store, cart.id, shop.buyer));
    shop.store.grant(shop.buyer, ORG, Scopes::OrderMakeExternalPayment);
    assert!(external_allowed(&shop.store, cart.id, shop.buyer));
}

#[test]
fn external_checkout_needs_the_scope_for_every_event() {
    let mut shop = shop();
    let other_event = shop.store.add_event(701, EventStatus::Published);
    let other = shop.store.add_ticket_type(other_event, 300, 300);
    let (adult, child) = (shop.adult, shop.child);
    let cart = fill(&mut shop, vec![(adult, 1), (other, 1), (child, 1)]);
    shop.store.grant(shop.buyer, ORG, Scopes::OrderMakeExternalPayment);
    assert!(!external_allowed(&shop.store, cart.id, shop.buyer));
    shop.store.grant(shop.buyer, 701, Scopes::OrderMakeExternalPayment);
    assert!(external_allowed(&shop.store, cart.id, shop.buyer));
}

#[test]
fn external_checkout_pays_the_total_for_a_new_guest() {
    let mut shop = shop();
    let (adult, child) = (shop.adult, shop.child);
    let cart = fill(&mut shop, vec![(adult, 2), (child, 1)]);
    shop.store.grant(shop.buyer, ORG, Scopes::OrderMakeExternalPayment);
    let step = begin(&mut shop, &cart, external(Some("gus@example.com"), Some("555-1")));
    match &step.next {
        Next::Perform(Action::Notify { first_name, email, order_id }) => {
            assert_eq!(first_name, "Gus");
            assert_eq!(email, "gus@example.com");
            assert_eq!(*order_id, cart.id);
        },
        other => panic!("unexpected {:?}", other),
    }
    let order = shop.store.order(cart.id).unwrap();
    assert_eq!(order.status, OrderStatus::Paid);
    assert_eq!(order.note, Some("paid at the door".to_string()));
    let guest = shop.store.user(order.on_behalf_of_user_id.unwrap()).unwrap();
    assert_eq!(guest.first_name, Some("Gus".to_string()));
    assert_eq!(guest.last_name, Some("Guest".to_string()));
    assert_eq!(guest.phone, Some("555-1".to_string()));
    assert_ne!(guest.id, shop.buyer);
    let payments = shop.store.payments(cart.id);
    assert_eq!(payments.len(), 1);
    assert_eq!(payments[0].amount, 2500);
    assert_eq!(payments[0].status, PaymentStatus::Completed);
    assert_eq!(payments[0].external_reference, Some("cash 17".to_string()));
    assert_eq!(payments[0].created_by, Some(shop.buyer));
}

#[test]
fn external_checkout_finds_the_guest_by_email_then_by_phone() {
    let mut shop = shop();
    let by_mail = shop.store.add_user(Some("M".to_string()), None, Some("m@example.com".to_string()), None);
    let by_phone = shop.store.add_user(Some("P".to_string()), None, None, Some("555-2".to_string()));
    shop.store.grant(shop.buyer, ORG, Scopes::OrderMakeExternalPayment);
    let adult = shop.adult;

    let cart = fill(&mut shop, vec![(adult, 1)]);
    begin(&mut shop, &cart, external(Some("m@example.com"), Some("555-2")));
    assert_eq!(shop.store.order(cart.id).unwrap().on_behalf_of_user_id, Some(by_mail));

    let cart = fill(&mut shop, vec![(adult, 1)]);
    begin(&mut shop, &cart, external(Some("nobody@example.com"), Some("555-2")));
    assert_eq!(shop.store.order(cart.id).unwrap().on_behalf_of_user_id, Some(by_phone));

    let cart = fill(&mut shop, vec![(adult, 1)]);
    begin(&mut shop, &cart, external(None, Some("555-2")));
    assert_eq!(shop.store.order(cart.id).unwrap().on_behalf_of_user_id, Some(by_phone));
}

#[test]
fn a_failed_transfer_leaves_the_payment() {
    let mut shop = shop();
    let (adult, child) = (shop.adult, shop.child);
    let cart = fill(&mut shop, vec![(adult, 2), (child, 1)]);
    wallets_and_tickets(&mut shop, &cart);
    let cart = shop.store.order(cart.id).unwrap();
    let step = begin(&mut shop, &cart, card(false));
    let step = go_on(&mut shop, step, Reply::Authorized { id: "ch".to_string(), raw: "{}".to_string() });
    let step = go_on(&mut shop, step, Reply::Committed);
    let step = go_on(&mut shop, step, Reply::Captured { raw: "{}".to_string() });
    assert!(matches!(step.next, Next::Perform(Action::Transfer { .. })));
    assert_eq!(step.saga.next_transfer, 0);
    let step = go_on(&mut shop, step, Reply::Transferred);
    assert!(matches!(step.next, Next::Perform(Action::Transfer { .. })));
    assert_eq!(step.saga.next_transfer, 1);
    let step = go_on(&mut shop, step, Reply::Failed(ProviderError::Transport));
    let e = failure(&step);
    assert_eq!(e, CheckoutError::TransferFailed);
    assert_eq!(e.kind(), ErrorKind::InternalError);
    assert_eq!(shop.store.payments(cart.id)[0].status, PaymentStatus::Completed);
    assert_eq!(shop.store.order(cart.id).unwrap().status, OrderStatus::Paid);
}

#[test]
fn transfers_need_wallets() {
    let mut shop = shop();
    let free = shop.free;
    let cart = fill(&mut shop, vec![(free, 1)]);
    let escrow = shop.store.add_wallet(WalletOwner::Organization(1), "s".to_string(), "p".to_string());
    let asset = shop.store.add_asset(free, Some("ledger-free".to_string()));
    shop.store.add_ticket(asset, 5, escrow, Some(cart.id));
    let cart = shop.store.order(cart.id).unwrap();
    let step = begin(&mut shop, &cart, PaymentRequest::Free);
    assert_eq!(failure(&step), CheckoutError::WalletNotFound);
    assert_eq!(shop.store.payments(cart.id).len(), 1);
    assert_eq!(shop.store.order(cart.id).unwrap().status, OrderStatus::Paid);
}

#[test]
fn tokens_are_grouped_by_asset() {
    let mut shop = shop();
    let adult = shop.adult;
    let cart = fill(&mut shop, vec![(adult, 1)]);
    let (adults, children) = wallets_and_tickets(&mut shop, &cart);
    let groups = shop.store.transfers(cart.id);
    assert_eq!(groups.len(), 2);
    assert_eq!(groups[0].asset_id, adults);
    assert_eq!(groups[0].token_ids, vec![11, 12]);
    assert_eq!(groups[1].asset_id, children);
    assert_eq!(groups[1].token_ids, vec![21]);
    assert!(shop.store.assets_on_ledger(&groups));
    assert_eq!(shop.store.ledger_asset_id(adults), Some("ledger-adult".to_string()));
    assert!(shop.store.transfers(cart.id + 1000).is_empty());
}

#[test]
fn the_steps_can_be_taken_one_by_one() {
    let mut shop = shop();
    let adult = shop.adult;
    let cart = fill(&mut shop, vec![(adult, 1)]);
    let saga = |version: u64| Saga {
        stage: Stage::Done,
        order_id: cart.id,
        user_id: shop.buyer,
        version,
        provider: String::new(),
        set_default: false,
        amount: 0,
        payment_id: 0,
        auth_id: String::new(),
        nonce: "n".to_string(),
        transfers: Vec::new(),
        next_transfer: 0,
        failure: CheckoutError::NotPending,
    };
    let step = auth_then_complete(&mut shop.store, &shop.config, saga(cart.version + 1), "tok".to_string());
    assert_eq!(failure(&step), CheckoutError::Conflict);
    let step = auth_then_complete(&mut shop.store, &shop.config, saga(cart.version), "tok".to_string());
    assert_eq!(step.saga.stage, Stage::Authorize);
    assert_eq!(step.saga.amount, 1000);
    assert_eq!(step.saga.version, cart.version + 1);
    let step = redirect_to_payment_page(&mut shop.store, &shop.config, saga(cart.version + 1));
    assert_eq!(step.saga.stage, Stage::PaymentRequest);
    let step = checkout_payment_processor(
        &mut shop.store,
        &shop.locator,
        &shop.config,
        saga(cart.version + 2),
        Some("tok".to_string()),
        "stripe".to_string(),
        false,
        false,
        false,
    );
    assert_eq!(step.saga.stage, Stage::Authorize);
    assert_eq!(step.saga.provider, "stripe");
    let step = checkout_free(&mut shop.store, saga(cart.version + 3));
    assert!(matches!(step.next, Next::Perform(Action::Notify { .. })));
    let step = checkout_external(
        &mut shop.store,
        saga(cart.version + 4),
        None,
        "G".to_string(),
        "H".to_string(),
        None,
        None,
        None,
    );
    assert_eq!(failure(&step), CheckoutError::MissingScope);
}
