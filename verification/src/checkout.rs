//! Checkout: from a cart to a paid order.
//!
//! A checkout is a sequence of steps. Each step reads and changes the order
//! store, and ends either with the result of the checkout or with an action
//! that the caller has to perform: a call to the payment provider, a commit,
//! a transfer on the ledger, a message to the buyer. The caller performs the
//! action and hands its outcome to `resume`, which takes the next step.
//!
//! `model` defines every step as a mathematical function of the store, the
//! state of the checkout and the outcome handed in. The functions here
//! compute exactly that.

use crate::errors::{CheckoutError, ProviderError};
use crate::models::{
    DisplayOrder, Order, OrderItem, OrderStatus, Payment, PaymentMethod, PaymentMethods, PaymentStatus,
    Scopes,
};
use crate::payments::{PaymentProcessorBehavior, ServiceLocator};
use crate::store::OrderStore;
use crate::store_view::{has_line, lemma_lines_of, lines_of, next_version};
use crate::text::{Id, id_to_string, join2, join3, opt_text, text_eq, to_lowercase, uuid_text};
use itertools::Itertools;
use vstd::prelude::*;
use vstd::string::StringExecFns;

pub mod model;
pub mod types;

pub use self::model::{
    cancel_url, card_payment, charge_description, display_result, done, done_step, external_payment,
    external_provider, fail, finish, free_payment, free_reference, ipn_url, lemma_runs, new_saga, perform,
    perform_step, repeat_label, reply_error, requested_payment, runs, success_url,
};
pub use self::types::{
    Action, ActionView, CheckoutCartRequest, Config, ConfigView, Next, NextView, Outcome, PaymentRequest,
    PaymentRequestView, Reply, ReplyView, Saga, SagaView, Stage, Step, StepView, pair_text,
};

verus! {

/// Calls `Itertools::chunk_by` on the lines, with the event of a line as
/// its key, and collects the key of each chunk.
///
/// Trusted: consecutive lines of one event make one chunk, so the keys are
/// the events of the lines with every run counted once.
#[verifier::external_body]
fn event_runs(lines: &Vec<OrderItem>) -> (keys: Vec<Option<Id>>)
    ensures
        keys@ == runs(lines@.map_values(|line: OrderItem| line.event_id)),
{
    let chunks = lines.iter().chunk_by(|line| line.event_id);
    let mut keys = Vec::new();
    for (key, _chunk) in &chunks {
        keys.push(key);
    }
    keys
}

/// Whether the user may record outside payments for the event.
fn may_pay_externally(store: &OrderStore, user_id: Id, event_id: Id) -> (r: bool)
    ensures
        r == store@.may_pay_externally(user_id, event_id),
{
    match store.event(event_id) {
        Some(e) => store.has_scope(user_id, e.organization_id, Scopes::OrderMakeExternalPayment),
        None => false,
    }
}

/// Whether the user may record outside payments for every event in the cart.
#[verifier::loop_isolation(false)]
pub fn external_allowed(store: &OrderStore, order_id: Id, user_id: Id) -> (r: bool)
    ensures
        r == store@.external_allowed(order_id, user_id),
{
    let lines = store.items(order_id);
    let keys = event_runs(&lines);
    let ghost events = lines@.map_values(|line: OrderItem| line.event_id);
    proof {
        lemma_runs(events);
        lemma_lines_of(store@.items, order_id);
    }
    let mut k: usize = 0;
    while k < keys.len()
        invariant
            k <= keys.len(),
            forall|j: int|
                0 <= j < k && (#[trigger] keys[j]) is Some ==> store@.may_pay_externally(user_id, keys[j]->0),
        decreases keys.len() - k,
    {
        match keys[k] {
            Some(event_id) => {
                if !may_pay_externally(store, user_id, event_id) {
                    proof {
                        let key = keys[k as int];
                        assert(key == runs(events)[k as int]);
                        assert(events.contains(key));
                        let a = choose|a: int| 0 <= a < events.len() && events[a] == key;
                        let line = lines@.map_values(|i: OrderItem| i@)[a];
                        assert(line.event_id == key);
                        assert(line == lines_of(store@.items, order_id)[a]);
                        assert(has_line(store@.items, order_id, line));
                        let i = choose|i: int|
                            0 <= i < store@.items.len() && #[trigger] store@.items[i] == line
                                && store@.items[i].order_id == order_id;
                        assert(store@.items[i].order_id == order_id);
                    }
                    return false;
                }
            },
            None => {},
        }
        k += 1;
    }
    proof {
        assert forall|i: int|
            0 <= i < store@.items.len() && (#[trigger] store@.items[i]).order_id == order_id
                && store@.items[i].event_id is Some implies store@.may_pay_externally(
            user_id,
            store@.items[i].event_id->0,
        ) by {
            let views = lines@.map_values(|i: OrderItem| i@);
            assert(views == lines_of(store@.items, order_id));
            assert(views.contains(store@.items[i]));
            let a = choose|a: int| 0 <= a < views.len() && views[a] == store@.items[i];
            assert(events[a] == store@.items[i].event_id);
            assert(runs(events).contains(events[a]));
            let j = choose|j: int| 0 <= j < keys@.len() && keys@[j] == events[a];
            assert(keys[j] is Some);
        }
    }
    true
}

/// The version after `version`.
fn bump(version: u64) -> (next: u64)
    ensures
        next == next_version(version),
{
    if version == u64::MAX {
        0
    } else {
        version + 1
    }
}

/// A copy of a list of token identifiers.
fn copy_tokens(tokens: &Vec<u64>) -> (copy: Vec<u64>)
    ensures
        copy@ == tokens@,
{
    let mut copy: Vec<u64> = Vec::new();
    let mut i: usize = 0;
    while i < tokens.len()
        invariant
            i <= tokens.len(),
            copy@ =~= tokens@.take(i as int),
        decreases tokens.len() - i,
    {
        copy.push(tokens[i]);
        i += 1;
    }
    assert(tokens@.take(i as int) =~= tokens@);
    copy
}

/// The state of a checkout that has just begun.
pub(crate) fn begin(order_id: Id, user_id: Id, version: u64, nonce: String) -> (saga: Saga)
    ensures
        saga@ == new_saga(order_id, user_id, version, nonce@),
{
    let saga = Saga {
        stage: Stage::Done,
        order_id,
        user_id,
        version,
        provider: String::new(),
        set_default: false,
        amount: 0,
        payment_id: 0,
        auth_id: String::new(),
        nonce,
        transfers: Vec::new(),
        next_transfer: 0,
        failure: CheckoutError::NotPending,
    };
    assert(saga@.transfers =~= Seq::empty());
    saga
}

/// Ends a checkout.
pub(crate) fn stop(saga: Saga, result: Result<DisplayOrder, CheckoutError>) -> (step: Step)
    ensures
        step@ == done_step(
            saga@,
            match result {
                Ok(d) => Ok(d@),
                Err(e) => Err(e),
            },
        ),
{
    let mut saga = saga;
    saga.stage = Stage::Done;
    Step { saga, next: Next::Done(result) }
}

/// Asks for an action.
fn ask(saga: Saga, stage: Stage, action: Action) -> (step: Step)
    ensures
        step@ == perform_step(saga@, stage, action@),
{
    let mut saga = saga;
    saga.stage = stage;
    Step { saga, next: Next::Perform(action) }
}

/// The failure that an outcome stands for.
fn error_of(reply: &Reply) -> (e: ProviderError)
    ensures
        e == reply_error(reply@),
{
    match reply {
        Reply::Failed(e) => *e,
        _ => ProviderError::Transport,
    }
}

/// Ends a checkout with the order as it is now.
pub(crate) fn finish_with(store: &OrderStore, saga: Saga) -> (step: Step)
    ensures
        step@ == finish(store@, saga@).step,
{
    match store.order(saga.order_id) {
        None => stop(saga, Err(CheckoutError::NotFound)),
        Some(_) => match store.for_display(saga.order_id) {
            Some(d) => stop(saga, Ok(d)),
            None => stop(saga, Err(CheckoutError::TotalOverflow)),
        },
    }
}

/// Asks for the message to the buyer, or ends the checkout.
fn notify(store: &OrderStore, saga: Saga) -> (step: Step)
    ensures
        step@ == store@.notify(saga@).step,
        store@.notify(saga@).store == store@,
{
    match store.order(saga.order_id) {
        None => stop(saga, Err(CheckoutError::NotFound)),
        Some(o) => {
            let who = match o.on_behalf_of_user_id {
                Some(g) => g,
                None => o.user_id,
            };
            match store.user(who) {
                Some(u) => match u.first_name {
                    Some(first_name) => match u.email {
                        Some(email) => {
                            let order_id = saga.order_id;
                            ask(saga, Stage::Notify, Action::Notify { first_name, email, order_id })
                        },
                        None => finish_with(store, saga),
                    },
                    None => finish_with(store, saga),
                },
                None => finish_with(store, saga),
            }
        },
    }
}

/// Asks for the transfer at place `k`, or goes on to the message to the buyer.
pub(crate) fn hand_over(store: &OrderStore, saga: Saga, k: usize) -> (step: Step)
    ensures
        step@ == store@.hand_over(saga@, k as int).step,
        store@.hand_over(saga@, k as int).store == store@,
{
    if k >= saga.transfers.len() {
        return notify(store, saga);
    }
    let asset_id = saga.transfers[k].asset_id;
    let wallet_id = saga.transfers[k].wallet_id;
    assert(saga@.transfers[k as int] == saga.transfers[k as int]@);
    match store.ledger_asset_id(asset_id) {
        None => stop(saga, Err(CheckoutError::AssetNotOnLedger)),
        Some(ledger_id) => match store.wallet(wallet_id) {
            None => stop(saga, Err(CheckoutError::WalletNotFound)),
            Some(from) => match store.find_default_for_user(saga.user_id) {
                None => stop(saga, Err(CheckoutError::WalletNotFound)),
                Some(to) => {
                    let token_ids = copy_tokens(&saga.transfers[k].token_ids);
                    let mut saga = saga;
                    saga.next_transfer = k;
                    ask(
                        saga,
                        Stage::Transfer,
                        Action::Transfer {
                            sender_secret_key: from.secret_key,
                            sender_public_key: from.public_key,
                            asset_id: ledger_id,
                            token_ids,
                            recipient_public_key: to.public_key,
                        },
                    )
                },
            },
        },
    }
}

/// Checks out a cart that costs nothing.
///
/// The order must be a draft in the version that the checkout read. A
/// payment of zero is recorded as completed, the order is paid, and the
/// step asks for the first transfer of tokens, or ends the checkout.
pub fn checkout_free(store: &mut OrderStore, saga: Saga) -> (step: Step)
    requires
        old(store).wf(),
    ensures
        final(store).wf(),
        final(store)@ == old(store)@.checkout_free(saga@).store,
        step@ == old(store)@.checkout_free(saga@).step,
{
    match store.order(saga.order_id) {
        None => stop(saga, Err(CheckoutError::NotFound)),
        Some(o) => {
            if o.status != OrderStatus::Draft {
                return stop(saga, Err(CheckoutError::NotDraft));
            }
            if !store.lock_version(saga.order_id, saga.version) {
                return stop(saga, Err(CheckoutError::Conflict));
            }
            store.add_payment(
                Payment {
                    id: 0,
                    order_id: saga.order_id,
                    created_by: Some(saga.user_id),
                    status: PaymentStatus::Completed,
                    payment_method: PaymentMethods::External,
                    amount: 0,
                    provider: String::from_str("External"),
                    external_reference: Some(String::from_str("Free Checkout")),
                    raw_data: None,
                    url_nonce: None,
                },
            );
            store.complete(saga.order_id);
            let mut saga = saga;
            saga.version = bump(saga.version);
            hand_over(store, saga, 0)
        },
    }
}

/// The user that an outside payment is for, if the store knows one.
fn find_guest(store: &OrderStore, email: &Option<String>, phone: &Option<String>) -> (r: Option<Id>)
    ensures
        r == store@.guest(opt_text(*email), opt_text(*phone)),
{
    let by_email = match email {
        Some(e) => store.find_user_by_email(e.as_str()),
        None => None,
    };
    match by_email {
        Some(id) => Some(id),
        None => match phone {
            Some(p) => store.find_user_by_phone(p.as_str()),
            None => None,
        },
    }
}

/// Checks out a cart that was paid for elsewhere, for a guest.
///
/// The user must hold the capability to record outside payments for every
/// event in the cart, the order must be a draft in the version that the
/// checkout read, and its total must fit. The guest is the first user with
/// the email address, else the first with the phone number, else a new
/// user. The order is said to be the guest's, the whole total is recorded
/// as a completed payment, the order is paid, and the step asks for the
/// first transfer of tokens, or ends the checkout.
pub fn checkout_external(
    store: &mut OrderStore,
    saga: Saga,
    reference: Option<String>,
    first_name: String,
    last_name: String,
    email: Option<String>,
    phone: Option<String>,
    note: Option<String>,
) -> (step: Step)
    requires
        old(store).wf(),
    ensures
        final(store).wf(),
        final(store)@ == old(store)@.checkout_external(
            saga@,
            opt_text(reference),
            first_name@,
            last_name@,
            opt_text(email),
            opt_text(phone),
            opt_text(note),
        ).store,
        step@ == old(store)@.checkout_external(
            saga@,
            opt_text(reference),
            first_name@,
            last_name@,
            opt_text(email),
            opt_text(phone),
            opt_text(note),
        ).step,
{
    if !external_allowed(store, saga.order_id, saga.user_id) {
        return stop(saga, Err(CheckoutError::MissingScope));
    }
    match store.order(saga.order_id) {
        None => stop(saga, Err(CheckoutError::NotFound)),
        Some(o) => {
            if o.status != OrderStatus::Draft {
                return stop(saga, Err(CheckoutError::NotDraft));
            }
            let total = match store.calculate_total(saga.order_id) {
                Some(total) => total,
                None => {
                    return stop(saga, Err(CheckoutError::TotalOverflow));
                },
            };
            if !store.lock_version(saga.order_id, saga.version) {
                return stop(saga, Err(CheckoutError::Conflict));
            }
            let guest_id = match find_guest(store, &email, &phone) {
                Some(id) => id,
                None => store.create_stub(first_name, last_name, email, phone),
            };
            store.set_behalf_of_user(saga.order_id, guest_id, note);
            store.add_payment(
                Payment {
                    id: 0,
                    order_id: saga.order_id,
                    created_by: Some(saga.user_id),
                    status: PaymentStatus::Completed,
                    payment_method: PaymentMethods::External,
                    amount: total,
                    provider: String::from_str("External"),
                    external_reference: reference,
                    raw_data: None,
                    url_nonce: None,
                },
            );
            store.complete(saga.order_id);
            let mut saga = saga;
            saga.version = bump(saga.version);
            hand_over(store, saga, 0)
        },
    }
}

/// Begins the authorization of a card.
///
/// The total of the order as it is now must fit, and the order must be in
/// the version that the checkout read. The step counts the change and asks
/// the provider to hold the total; nothing else is recorded yet.
pub fn auth_then_complete(store: &mut OrderStore, config: &Config, saga: Saga, token: String) -> (step: Step)
    requires
        old(store).wf(),
    ensures
        final(store).wf(),
        final(store)@ == old(store)@.auth_then_complete(config@, saga@, token@).store,
        step@ == old(store)@.auth_then_complete(config@, saga@, token@).step,
{
    let amount = match store.calculate_total(saga.order_id) {
        Some(total) => total,
        None => {
            return stop(saga, Err(CheckoutError::TotalOverflow));
        },
    };
    if !store.lock_version(saga.order_id, saga.version) {
        return stop(saga, Err(CheckoutError::Conflict));
    }
    let mut metadata: Vec<(String, String)> = Vec::new();
    metadata.push((String::from_str("order_id"), id_to_string(saga.order_id)));
    assert(metadata@.map_values(|p: (String, String)| pair_text(p)) =~= seq![
        ("order_id"@, uuid_text(saga.order_id)),
    ]);
    let mut saga = saga;
    saga.version = bump(saga.version);
    saga.amount = amount;
    ask(
        saga,
        Stage::Authorize,
        Action::Authorize {
            token,
            amount,
            currency: config.primary_currency.clone(),
            description: String::from_str("Big Neon Tickets"),
            metadata,
        },
    )
}

/// The address for the provider's notifications, unless they are switched off.
fn notification_url(config: &Config) -> (r: Option<String>)
    ensures
        opt_text(r) == ipn_url(config@),
{
    let lower = to_lowercase(config.ipn_base_url.as_str());
    if text_eq(lower.as_str(), "test") {
        None
    } else {
        Some(join2(config.ipn_base_url.as_str(), "/ipns/globee"))
    }
}

/// Begins a payment on the provider's own page.
///
/// The user must have an email address, the total must fit, the cart must
/// hold an event, and the order must be in the version that the checkout
/// read. The step counts the change and asks the provider for a page that
/// returns the buyer to the pages of that event; nothing else is recorded yet.
pub fn redirect_to_payment_page(store: &mut OrderStore, config: &Config, saga: Saga) -> (step: Step)
    requires
        old(store).wf(),
    ensures
        final(store).wf(),
        final(store)@ == old(store)@.redirect_to_payment_page(config@, saga@).store,
        step@ == old(store)@.redirect_to_payment_page(config@, saga@).step,
{
    let email = match store.user(saga.user_id) {
        Some(u) => match u.email {
            Some(email) => email,
            None => {
                return stop(saga, Err(CheckoutError::NoEmail));
            },
        },
        None => {
            return stop(saga, Err(CheckoutError::NoEmail));
        },
    };
    let amount = match store.calculate_total(saga.order_id) {
        Some(total) => total,
        None => {
            return stop(saga, Err(CheckoutError::TotalOverflow));
        },
    };
    let event_id = match store.main_event_id(saga.order_id) {
        Some(id) => id,
        None => {
            return stop(saga, Err(CheckoutError::NoEvent));
        },
    };
    if !store.lock_version(saga.order_id, saga.version) {
        return stop(saga, Err(CheckoutError::Conflict));
    }
    let event = id_to_string(event_id);
    let success = join3(config.front_end_url.as_str(), "/events/", event.as_str()).concat("/tickets/success");
    let cancel = join3(config.front_end_url.as_str(), "/events/", event.as_str()).concat(
        "/tickets/confirmation",
    );
    let order_id = saga.order_id;
    let mut saga = saga;
    saga.version = bump(saga.version);
    saga.amount = amount;
    ask(
        saga,
        Stage::PaymentRequest,
        Action::RequestPayment {
            amount_in_cents: amount,
            email,
            order_id,
            ipn_url: notification_url(config),
            success_url: Some(success),
            cancel_url: Some(cancel),
        },
    )
}

/// Checks out through a payment processor.
///
/// The order must be the user's draft and the provider must be registered.
/// A processor with a page of its own is asked for one. A card processor
/// authorizes the token of the payment method that the user keeps with it,
/// or the token given; where the user wants the card kept, the provider is
/// first asked for a token for repeat charges: a new one, or the user's
/// old one with the new card behind it.
pub fn checkout_payment_processor(
    store: &mut OrderStore,
    locator: &ServiceLocator,
    config: &Config,
    saga: Saga,
    token: Option<String>,
    provider_name: String,
    use_stored_payment: bool,
    save_payment_method: bool,
    set_default: bool,
) -> (step: Step)
    requires
        old(store).wf(),
    ensures
        final(store).wf(),
        final(store)@ == old(store)@.checkout_payment_processor(
            locator@,
            config@,
            saga@,
            opt_text(token),
            provider_name@,
            use_stored_payment,
            save_payment_method,
            set_default,
        ).store,
        step@ == old(store)@.checkout_payment_processor(
            locator@,
            config@,
            saga@,
            opt_text(token),
            provider_name@,
            use_stored_payment,
            save_payment_method,
            set_default,
        ).step,
{
    let o = match store.order(saga.order_id) {
        Some(o) => o,
        None => {
            return stop(saga, Err(CheckoutError::NotFound));
        },
    };
    if o.user_id != saga.user_id {
        return stop(saga, Err(CheckoutError::NotOwner));
    }
    if o.status != OrderStatus::Draft {
        return stop(saga, Err(CheckoutError::NotDraft));
    }
    let behavior = locator.create_payment_processor(provider_name.as_str());
    let stored = store.payment_method(saga.user_id, provider_name.as_str());
    let mut saga = saga;
    saga.provider = provider_name;
    saga.set_default = set_default;
    match behavior {
        Err(e) => stop(saga, Err(CheckoutError::UnknownProvider)),
        Ok(PaymentProcessorBehavior::RedirectToPaymentPage) => redirect_to_payment_page(store, config, saga),
        Ok(PaymentProcessorBehavior::AuthThenComplete) => {
            if use_stored_payment {
                match stored {
                    Some(m) => auth_then_complete(store, config, saga, m.provider),
                    None => stop(saga, Err(CheckoutError::NoStoredPaymentMethod)),
                }
            } else {
                match token {
                    None => stop(saga, Err(CheckoutError::NoToken)),
                    Some(t) => {
                        if save_payment_method {
                            if !store.lock_version(saga.order_id, saga.version) {
                                return stop(saga, Err(CheckoutError::Conflict));
                            }
                            saga.version = bump(saga.version);
                            let action = match stored {
                                Some(m) => Action::UpdateRepeatToken {
                                    stored_token: m.provider,
                                    new_token: t,
                                    label: String::from_str("Big Neon"),
                                },
                                None => Action::CreateRepeatToken { token: t, label: String::from_str("Big Neon") },
                            };
                            ask(saga, Stage::RepeatToken, action)
                        } else {
                            auth_then_complete(store, config, saga, t)
                        }
                    },
                }
            }
        },
    }
}

/// Begins the checkout of an order, as the caller read it, for a user.
///
/// Checked in this order, the first failure ending the checkout with
/// nothing changed: the order exists (`NotFound`), is the user's
/// (`NotOwner`), is in the version that the caller read (`Conflict`), is a
/// draft (`NotDraft`), holds only lines that can be bought
/// (`InvalidItems`), and every asset of the tokens held for it is on the
/// ledger (`AssetNotOnLedger`). Then the request decides the path: free,
/// paid elsewhere, or through the processor of the provider named.
pub fn checkout(
    store: &mut OrderStore,
    locator: &ServiceLocator,
    config: &Config,
    order: &Order,
    request: PaymentRequest,
    user_id: Id,
    nonce: String,
) -> (step: Step)
    requires
        old(store).wf(),
    ensures
        final(store).wf(),
        final(store)@ == old(store)@.checkout(locator@, config@, order@, request@, user_id, nonce@).store,
        step@ == old(store)@.checkout(locator@, config@, order@, request@, user_id, nonce@).step,
{
    let saga = begin(order.id, user_id, order.version, nonce);
    let o = match store.order(order.id) {
        Some(o) => o,
        None => {
            return stop(saga, Err(CheckoutError::NotFound));
        },
    };
    if o.user_id != user_id {
        return stop(saga, Err(CheckoutError::NotOwner));
    }
    if o.version != order.version {
        return stop(saga, Err(CheckoutError::Conflict));
    }
    if o.status != OrderStatus::Draft {
        return stop(saga, Err(CheckoutError::NotDraft));
    }
    if !store.items_valid_for_purchase(order.id) {
        return stop(saga, Err(CheckoutError::InvalidItems));
    }
    let transfers = store.transfers(order.id);
    if !store.assets_on_ledger(&transfers) {
        return stop(saga, Err(CheckoutError::AssetNotOnLedger));
    }
    let mut saga = saga;
    saga.transfers = transfers;
    match request {
        PaymentRequest::Free => {
            let total = store.calculate_total(order.id);
            if total != Some(0) {
                return stop(saga, Err(CheckoutError::TotalNotZero));
            }
            checkout_free(store, saga)
        },
        PaymentRequest::External { reference, first_name, last_name, email, phone, note } => checkout_external(
            store,
            saga,
            reference,
            first_name,
            last_name,
            email,
            phone,
            note,
        ),
        PaymentRequest::PaymentMethod { provider } => {
            let name = match provider {
                Some(p) => p,
                None => match store.default_payment_method(user_id) {
                    Some(m) => m.name,
                    None => {
                        return stop(saga, Err(CheckoutError::NoDefaultPaymentMethod));
                    },
                },
            };
            checkout_payment_processor(store, locator, config, saga, None, name, true, false, false)
        },
        PaymentRequest::Provider { provider } => checkout_payment_processor(
            store,
            locator,
            config,
            saga,
            None,
            provider,
            false,
            false,
            false,
        ),
        PaymentRequest::Card { token, provider, save_payment_method, set_default } => checkout_payment_processor(
            store,
            locator,
            config,
            saga,
            Some(token),
            provider,
            false,
            save_payment_method,
            set_default,
        ),
    }
}

/// Cancels the payment of an authorization and asks for the refund.
fn compensate(store: &mut OrderStore, saga: Saga, cause: CheckoutError) -> (step: Step)
    requires
        old(store).wf(),
    ensures
        final(store).wf(),
        final(store)@ == old(store)@.compensate(saga@, cause).store,
        step@ == old(store)@.compensate(saga@, cause).step,
{
    store.set_payment_status(saga.payment_id, PaymentStatus::Cancelled);
    let auth_id = saga.auth_id.clone();
    let mut saga = saga;
    saga.failure = cause;
    ask(saga, Stage::Refund, Action::Refund { auth_id })
}

/// Takes the step that follows the outcome of the action that the last
/// step asked for. An outcome that is not one of that action counts as a
/// transport failure of it.
///
/// - After a token for repeat charges: the payment method is kept, and the
///   token is authorized. A failure ends the checkout.
/// - After an authorization: the payment is recorded as authorized and the
///   step asks for a commit; where the order changed meanwhile, the step
///   asks for a refund instead. A failure ends the checkout with nothing
///   recorded and nothing to refund.
/// - After the commit: the step asks for the capture. A failure cancels the
///   payment and asks for a refund.
/// - After the capture: the payment is completed, the order is paid, and
///   the tokens are handed over. A failure, or an order that changed
///   meanwhile, cancels the payment and asks for a refund.
/// - After the refund: the checkout ends with what made the refund
///   necessary, or, where the refund failed, with that failure.
/// - After a payment page was made: the order waits for its payment, with
///   the address of the page, and a requested payment is recorded.
/// - After a transfer: the next transfer, or the message to the buyer. A
///   failure ends the checkout; the payment stands.
/// - After the message to the buyer, sent or not: the checkout ends with the order.
pub fn resume(store: &mut OrderStore, config: &Config, saga: Saga, reply: Reply) -> (step: Step)
    requires
        old(store).wf(),
    ensures
        final(store).wf(),
        final(store)@ == old(store)@.resume(config@, saga@, reply@).store,
        step@ == old(store)@.resume(config@, saga@, reply@).step,
{
    match saga.stage {
        Stage::RepeatToken => match reply {
            Reply::RepeatToken { token, raw } => {
                store.save_payment_method(
                    PaymentMethod {
                        user_id: saga.user_id,
                        name: saga.provider.clone(),
                        is_default: saga.set_default,
                        provider: token.clone(),
                        provider_data: raw,
                    },
                );
                auth_then_complete(store, config, saga, token)
            },
            other => {
                let e = error_of(&other);
                stop(saga, Err(CheckoutError::Provider(e)))
            },
        },
        Stage::Authorize => match reply {
            Reply::Authorized { id, raw } => {
                if !store.lock_version(saga.order_id, saga.version) {
                    let mut saga = saga;
                    saga.failure = CheckoutError::Conflict;
                    saga.auth_id = id.clone();
                    return ask(saga, Stage::Refund, Action::Refund { auth_id: id });
                }
                let payment_id = store.add_payment(
                    Payment {
                        id: 0,
                        order_id: saga.order_id,
                        created_by: Some(saga.user_id),
                        status: PaymentStatus::Authorized,
                        payment_method: PaymentMethods::CreditCard,
                        amount: saga.amount,
                        provider: saga.provider.clone(),
                        external_reference: Some(id.clone()),
                        raw_data: Some(raw),
                        url_nonce: None,
                    },
                );
                let mut saga = saga;
                saga.version = bump(saga.version);
                saga.payment_id = payment_id;
                saga.auth_id = id;
                ask(saga, Stage::Commit, Action::Commit)
            },
            other => {
                let e = error_of(&other);
                stop(saga, Err(CheckoutError::Provider(e)))
            },
        },
        Stage::Commit => match reply {
            Reply::Committed => {
                let auth_id = saga.auth_id.clone();
                ask(saga, Stage::Capture, Action::Capture { auth_id })
            },
            other => {
                let e = error_of(&other);
                compensate(store, saga, CheckoutError::Provider(e))
            },
        },
        Stage::Capture => match reply {
            Reply::Captured { raw } => {
                if !store.lock_version(saga.order_id, saga.version) {
                    return compensate(store, saga, CheckoutError::Conflict);
                }
                store.mark_payment(saga.payment_id, PaymentStatus::Completed, Some(raw));
                store.complete(saga.order_id);
                let mut saga = saga;
                saga.version = bump(saga.version);
                hand_over(store, saga, 0)
            },
            other => {
                let e = error_of(&other);
                compensate(store, saga, CheckoutError::Provider(e))
            },
        },
        Stage::Refund => match reply {
            Reply::Refunded => {
                let failure = saga.failure;
                stop(saga, Err(failure))
            },
            other => {
                let e = error_of(&other);
                stop(saga, Err(CheckoutError::RefundFailed(e)))
            },
        },
        Stage::PaymentRequest => match reply {
            Reply::PaymentRequested { id, redirect_url, expires_at, raw } => {
                if !store.lock_version(saga.order_id, saga.version) {
                    return stop(saga, Err(CheckoutError::Conflict));
                }
                store.add_checkout_url(saga.order_id, redirect_url, expires_at);
                store.add_payment(
                    Payment {
                        id: 0,
                        order_id: saga.order_id,
                        created_by: Some(saga.user_id),
                        status: PaymentStatus::Requested,
                        payment_method: PaymentMethods::Provider,
                        amount: saga.amount,
                        provider: saga.provider.clone(),
                        external_reference: Some(join3(saga.provider.as_str(), "-", id.as_str())),
                        raw_data: Some(raw),
                        url_nonce: Some(saga.nonce.clone()),
                    },
                );
                let mut saga = saga;
                saga.version = bump(saga.version);
                finish_with(store, saga)
            },
            other => {
                let e = error_of(&other);
                stop(saga, Err(CheckoutError::Provider(e)))
            },
        },
        Stage::Transfer => match reply {
            Reply::Transferred => {
                let k = if saga.next_transfer < saga.transfers.len() {
                    saga.next_transfer + 1
                } else {
                    saga.next_transfer
                };
                hand_over(store, saga, k)
            },
            other => stop(saga, Err(CheckoutError::TransferFailed)),
        },
        Stage::Notify => finish_with(store, saga),
        Stage::Done => stop(saga, Err(CheckoutError::NotPending)),
    }
}

} // verus!
