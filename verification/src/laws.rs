//! What holds of carts and checkouts, whatever the store, the request and
//! the outcomes of the actions are.

use crate::checkout::{
    ActionView, ConfigView, NextView, PaymentRequestView, ReplyView, SagaView, Stage, card_payment,
    external_payment, free_payment, new_saga, reply_error,
};
use crate::errors::{CheckoutError, ErrorKind};
use crate::models::{CartItemView, OrderStatus, OrderView, PaymentMethodView, PaymentStatus, PaymentView, UserView};
use crate::payments::PaymentProcessorView;
use crate::store_view::{
    StoreView, lemma_set_order, lemma_set_payment, lemma_touched_inv, lemma_with_cart_inv,
    is_final, is_settled, lemma_with_payment_inv, named_or_foreign, new_cart, next_version, order_with_id,
    payment_with_id, retain,
};
use crate::seqs::{first_where, is_first, lemma_first_found, lemma_first_is};
use crate::text::Id;
use vstd::prelude::*;

verus! {

/// Looking for a user's cart twice gives the same cart both times: the
/// second look changes nothing and finds the order that the first one
/// found or made.
pub proof fn law_cart_is_found_again(s: StoreView, user_id: Id)
    requires
        s.inv(),
    ensures
        s.with_cart(user_id).with_cart(user_id) == s.with_cart(user_id),
        s.with_cart(user_id).cart_of(user_id) == Some(
            match s.cart_of(user_id) {
                Some(o) => o,
                None => new_cart(s.next_id, user_id),
            },
        ),
{
    lemma_with_cart_inv(s, user_id);
}

/// An order that is no draft cannot be checked out: whatever the request,
/// the checkout of an order that is the user's, in the version that the
/// user read, ends at once with a failure of state, and the store, its
/// payments among the rest, stays as it is.
pub proof fn law_only_drafts_check_out(
    s: StoreView,
    locator: Seq<PaymentProcessorView>,
    config: ConfigView,
    order: OrderView,
    request: PaymentRequestView,
    user_id: Id,
    nonce: Seq<char>,
)
    requires
        s.order(order.id) matches Some(o) && o.user_id == user_id && o.version == order.version && o.status
            != OrderStatus::Draft,
    ensures
        s.checkout(locator, config, order, request, user_id, nonce).step.next == NextView::Done(
            Err(CheckoutError::NotDraft),
        ),
        s.checkout(locator, config, order, request, user_id, nonce).store == s,
        CheckoutError::NotDraft.kind() == ErrorKind::InvalidState,
{
}

/// Where the provider does not authorize, nothing is recorded and nothing
/// is refunded: asking for the authorization adds no payment, and any
/// outcome but an authorization ends the checkout with the provider's
/// failure and the store as it is; resuming after that asks for nothing.
pub proof fn law_failed_authorization_leaves_nothing(
    s: StoreView,
    config: ConfigView,
    saga: SagaView,
    token: Seq<char>,
    reply: ReplyView,
    later: ReplyView,
)
    requires
        !(reply is Authorized),
    ensures
        ({
            let asked = s.auth_then_complete(config, saga, token);
            let ended = asked.store.resume(config, asked.step.saga, reply);
            let after = ended.store.resume(config, ended.step.saga, later);
            &&& asked.store.payments == s.payments
            &&& asked.step.next is Perform ==> {
                &&& asked.step.next->Perform_0 is Authorize
                &&& asked.step.saga.stage == Stage::Authorize
                &&& ended.store == asked.store
                &&& ended.step.next == NextView::Done(Err(CheckoutError::Provider(reply_error(reply))))
                &&& after.store == asked.store
                &&& after.step.next == NextView::Done(Err(CheckoutError::NotPending))
            }
        }),
{
    let asked = s.auth_then_complete(config, saga, token);
    if asked.store != s {
        lemma_first_is(s.orders, order_with_id(saga.order_id));
    }
}

/// Where the capture fails after an authorization, the amount is asked
/// back once, under the name that the provider gave the authorization, and
/// the payment does not end as completed.
///
/// From an authorization that the provider granted: the payment is recorded
/// as authorized and a commit is asked for; after the commit the capture is
/// asked for; any outcome but a capture cancels the payment and asks for
/// the refund of that authorization; whatever the refund comes to, the
/// checkout ends with a failure and asks for nothing more.
pub proof fn law_failed_capture_is_refunded(
    s: StoreView,
    config: ConfigView,
    saga: SagaView,
    auth_id: Seq<char>,
    raw: Seq<char>,
    reply: ReplyView,
    refund: ReplyView,
    later: ReplyView,
)
    requires
        s.inv(),
        saga.stage == Stage::Authorize,
        s.is_current(saga.order_id, saga.version),
        !(reply is Captured),
    ensures
        ({
            let authorized = s.resume(config, saga, ReplyView::Authorized { id: auth_id, raw });
            let committed = authorized.store.resume(config, authorized.step.saga, ReplyView::Committed);
            let failed = committed.store.resume(config, committed.step.saga, reply);
            let ended = failed.store.resume(config, failed.step.saga, refund);
            let after = ended.store.resume(config, ended.step.saga, later);
            &&& authorized.step.next == NextView::Perform(ActionView::Commit)
            &&& authorized.store.payment(s.next_id) == Some(
                PaymentView { id: s.next_id, ..card_payment(saga, auth_id, raw) },
            )
            &&& committed.step.next == NextView::Perform(ActionView::Capture { auth_id })
            &&& committed.store == authorized.store
            &&& failed.step.next == NextView::Perform(ActionView::Refund { auth_id })
            &&& failed.store.payment(s.next_id) == Some(
                PaymentView {
                    id: s.next_id,
                    status: PaymentStatus::Cancelled,
                    ..card_payment(saga, auth_id, raw)
                },
            )
            &&& failed.store.payments.len() == s.payments.len() + 1
            &&& ended.store == failed.store
            &&& ended.step.next == NextView::Done(
                Err(
                    if refund is Refunded {
                        CheckoutError::Provider(reply_error(reply))
                    } else {
                        CheckoutError::RefundFailed(reply_error(refund))
                    },
                ),
            )
            &&& after.store == failed.store
            &&& after.step.next == NextView::Done(Err(CheckoutError::NotPending))
        }),
{
    lemma_touched_inv(s, saga.order_id);
    let touched = s.touched(saga.order_id);
    lemma_set_order(s, OrderView { version: next_version(s.order(saga.order_id)->0.version), ..s.order(saga.order_id)->0 });
    lemma_with_payment_inv(touched, card_payment(saga, auth_id, raw));
    let recorded = touched.with_payment(card_payment(saga, auth_id, raw));
    lemma_set_payment(
        recorded,
        PaymentView { id: s.next_id, status: PaymentStatus::Cancelled, ..card_payment(saga, auth_id, raw) },
    );
}

/// Counting a change to an order changes its version and nothing else of it.
pub proof fn lemma_touched(s: StoreView, order_id: Id)
    ensures
        s.order(order_id) matches Some(o) ==> s.touched(order_id).order(order_id) == Some(
            OrderView { version: next_version(o.version), ..o },
        ),
        s.order(order_id) is None ==> s.touched(order_id) == s,
{
    match s.order(order_id) {
        Some(o) => {
            lemma_first_is(s.orders, order_with_id(order_id));
            lemma_set_order(s, OrderView { version: next_version(o.version), ..o });
        },
        None => {},
    }
}

/// Paying an order changes its state and nothing else of it.
pub proof fn lemma_completed(s: StoreView, order_id: Id)
    ensures
        s.order(order_id) matches Some(o) ==> s.completed(order_id).order(order_id) == Some(
            OrderView {
                status: if is_final(o.status) {
                    o.status
                } else {
                    OrderStatus::Paid
                },
                ..o
            },
        ),
        s.order(order_id) is None ==> s.completed(order_id) == s,
{
    match s.order(order_id) {
        Some(o) => {
            lemma_first_is(s.orders, order_with_id(order_id));
            lemma_set_order(s, OrderView { status: OrderStatus::Paid, ..o });
        },
        None => {},
    }
}

/// Saying for whom an order is bought changes that and the note, and nothing else of it.
pub proof fn lemma_with_beneficiary(s: StoreView, order_id: Id, guest_id: Id, note: Option<Seq<char>>)
    ensures
        s.order(order_id) matches Some(o) ==> s.with_beneficiary(order_id, guest_id, note).order(order_id)
            == Some(OrderView { on_behalf_of_user_id: Some(guest_id), note, ..o }),
{
    match s.order(order_id) {
        Some(o) => {
            lemma_first_is(s.orders, order_with_id(order_id));
            lemma_set_order(s, OrderView { on_behalf_of_user_id: Some(guest_id), note, ..o });
        },
        None => {},
    }
}

/// A free checkout of a cart that adds up to zero goes through, however
/// many lines the cart has. Of a draft that is the user's, in the version
/// that the user read, whose lines can all be bought and whose tokens are
/// all on the ledger: exactly one payment is recorded, completed, of
/// amount zero; the order is paid; and the step does not end in a failure,
/// unless a wallet that the hand-over of tokens needs is missing. With no
/// tokens to hand over the step cannot fail at all.
pub proof fn law_free_checkout_records_one_payment(
    s: StoreView,
    locator: Seq<PaymentProcessorView>,
    config: ConfigView,
    order: OrderView,
    user_id: Id,
    nonce: Seq<char>,
)
    requires
        s.inv(),
        s.order(order.id) matches Some(o) && o.user_id == user_id && o.version == order.version && o.status
            == OrderStatus::Draft,
        s.items_valid(order.id),
        s.all_on_ledger(s.transfers(order.id)),
        s.total(order.id) == 0,
    ensures
        ({
            let out = s.checkout(locator, config, order, PaymentRequestView::Free, user_id, nonce);
            &&& out.store.payments == s.payments.push(
                PaymentView { id: s.next_id, ..free_payment(order.id, user_id) },
            )
            &&& free_payment(order.id, user_id).status == PaymentStatus::Completed
            &&& free_payment(order.id, user_id).amount == 0
            &&& out.store.order(order.id) matches Some(o) && o.status == OrderStatus::Paid
            &&& out.step.next matches NextView::Done(Err(e)) ==> e == CheckoutError::WalletNotFound
                && s.transfers(order.id).len() > 0
        }),
{
    let o = s.order(order.id)->0;
    lemma_touched(s, order.id);
    let s1 = s.touched(order.id);
    let s2 = s1.with_payment(free_payment(order.id, user_id));
    assert(s2.order(order.id) == s1.order(order.id));
    lemma_completed(s2, order.id);
    let s3 = s2.completed(order.id);
    let saga = SagaView {
        transfers: s.transfers(order.id),
        version: next_version(order.version),
        ..new_saga(order.id, user_id, order.version, nonce)
    };
    assert(s.checkout(locator, config, order, PaymentRequestView::Free, user_id, nonce) == s3.hand_over(saga, 0));
    assert(s3.items == s.items);
    assert(s3.assets == s.assets);
    if saga.transfers.len() > 0 {
        assert(s.on_ledger(saga.transfers[0].asset_id));
    }
}

/// A checkout that gets past its checks counts a change to the order: the
/// first step either ends in a failure, or leaves the order with its owner
/// and in the version after the one that was read.
pub proof fn lemma_checkout_counts(
    s: StoreView,
    locator: Seq<PaymentProcessorView>,
    config: ConfigView,
    order: OrderView,
    request: PaymentRequestView,
    user_id: Id,
    nonce: Seq<char>,
)
    ensures
        ({
            let out = s.checkout(locator, config, order, request, user_id, nonce);
            ||| out.store == s
            ||| out.store.order(order.id) matches Some(o) && o.user_id == user_id && o.version == next_version(
                order.version,
            )
        }),
        !(s.checkout(locator, config, order, request, user_id, nonce).step.next matches NextView::Done(Err(_)))
            ==> s.checkout(locator, config, order, request, user_id, nonce).store != s,
{
    let out = s.checkout(locator, config, order, request, user_id, nonce);
    lemma_touched(s, order.id);
    let s1 = s.touched(order.id);
    match request {
        PaymentRequestView::Free => {
            let s2 = s1.with_payment(free_payment(order.id, user_id));
            assert(s2.order(order.id) == s1.order(order.id));
            lemma_completed(s2, order.id);
        },
        PaymentRequestView::External { reference, first_name, last_name, email, phone, note } => {
            let s2 = match s1.guest(email, phone) {
                Some(_) => s1,
                None => s1.with_user(
                    UserView { id: 0, first_name: Some(first_name), last_name: Some(last_name), email, phone },
                ),
            };
            let guest_id = match s1.guest(email, phone) {
                Some(g) => g,
                None => s1.next_id,
            };
            assert(s2.order(order.id) == s1.order(order.id));
            lemma_with_beneficiary(s2, order.id, guest_id, note);
            let s3 = s2.with_beneficiary(order.id, guest_id, note);
            let s4 = s3.with_payment(
                external_payment(order.id, user_id, s.total(order.id) as i64, reference),
            );
            assert(s4.order(order.id) == s3.order(order.id));
            lemma_completed(s4, order.id);
        },
        _ => {},
    }
}

/// Of two checkouts of one order from the same reading, one at most goes
/// through. Once the first has got past its checks, the second, by the
/// owner and from the version that both read, ends at once with a conflict
/// and changes nothing: no second payment, no second call to a provider.
pub proof fn law_second_checkout_conflicts(
    s: StoreView,
    locator: Seq<PaymentProcessorView>,
    config: ConfigView,
    order: OrderView,
    first_request: PaymentRequestView,
    first_nonce: Seq<char>,
    second_request: PaymentRequestView,
    second_nonce: Seq<char>,
    user_id: Id,
)
    requires
        ({
            let first = s.checkout(locator, config, order, first_request, user_id, first_nonce);
            first.store != s || !(first.step.next matches NextView::Done(Err(_)))
        }),
    ensures
        ({
            let first = s.checkout(locator, config, order, first_request, user_id, first_nonce);
            let second = first.store.checkout(locator, config, order, second_request, user_id, second_nonce);
            &&& second.step.next == NextView::Done(Err(CheckoutError::Conflict))
            &&& second.store == first.store
            &&& CheckoutError::Conflict.kind() == ErrorKind::ConcurrencyConflict
        }),
{
    lemma_checkout_counts(s, locator, config, order, first_request, user_id, first_nonce);
}

/// Whether every order that is paid or cancelled in `s` is in the same state in `t`.
pub open spec fn finals_kept(s: StoreView, t: StoreView) -> bool {
    forall|id: Id|
        (#[trigger] s.order(id)) matches Some(o) ==> (is_final(o.status) ==> (t.order(id) matches Some(found)
            && found.status == o.status))
}

/// Whether every payment that is completed or cancelled in `s` is in the same state in `t`.
pub open spec fn settled_kept(s: StoreView, t: StoreView) -> bool {
    forall|id: Id|
        (#[trigger] s.payment(id)) matches Some(p) ==> (is_settled(p.status) ==> (t.payment(id) matches Some(q)
            && q.status == p.status))
}

/// Replacing an order by one in the same state, and any replacement of an
/// order that is neither paid nor cancelled, keeps the orders that are.
pub proof fn lemma_set_order_keeps(s: StoreView, o: OrderView)
    requires
        s.order(o.id) matches Some(prev) ==> (is_final(prev.status) ==> o.status == prev.status),
    ensures
        finals_kept(s, s.set_order(o)),
        settled_kept(s, s.set_order(o)),
{
    lemma_set_order(s, o);
}

/// Replacing a payment by one in the same state, and any replacement of a
/// payment that is neither completed nor cancelled, keeps the payments that are.
pub proof fn lemma_set_payment_keeps(s: StoreView, p: PaymentView)
    requires
        s.payment(p.id) matches Some(prev) ==> (is_settled(prev.status) ==> p.status == prev.status),
    ensures
        finals_kept(s, s.set_payment(p)),
        settled_kept(s, s.set_payment(p)),
{
    lemma_set_payment(s, p);
}

/// A new payment leaves every payment that there is as it is.
pub proof fn lemma_with_payment_keeps(s: StoreView, p: PaymentView)
    ensures
        kept(s, s.with_payment(p)),
{
    reveal(kept);
    let t = s.with_payment(p);
    assert forall|id: Id| (#[trigger] s.payment(id)) is Some implies t.payment(id) == s.payment(id) by {
        lemma_first_is(s.payments, payment_with_id(id));
        let k = first_where(s.payments, payment_with_id(id))->0;
        assert(is_first(t.payments, payment_with_id(id), k)) by {
            assert(t.payments[k] == s.payments[k]);
            assert forall|j: int| 0 <= j < k implies !#[trigger] payment_with_id(id)(t.payments[j]) by {
                assert(t.payments[j] == s.payments[j]);
            }
        }
        lemma_first_found(t.payments, payment_with_id(id), k);
    }
}

/// A new cart leaves every order that there is as it is.
pub proof fn lemma_with_cart_keeps(s: StoreView, user_id: Id)
    ensures
        kept(s, s.with_cart(user_id)),
{
    reveal(kept);
    let t = s.with_cart(user_id);
    assert forall|id: Id| (#[trigger] s.order(id)) is Some implies t.order(id) == s.order(id) by {
        if t != s {
            lemma_first_is(s.orders, order_with_id(id));
            let k = first_where(s.orders, order_with_id(id))->0;
            assert(is_first(t.orders, order_with_id(id), k)) by {
                assert(t.orders[k] == s.orders[k]);
                assert forall|j: int| 0 <= j < k implies !#[trigger] order_with_id(id)(t.orders[j]) by {
                    assert(t.orders[j] == s.orders[j]);
                }
            }
            lemma_first_found(t.orders, order_with_id(id), k);
        }
    }
}

/// Whether every order that is paid or cancelled, and every payment that is
/// completed or cancelled, in `s` is in the same state in `t`.
#[verifier::opaque]
pub open spec fn kept(s: StoreView, t: StoreView) -> bool {
    finals_kept(s, t) && settled_kept(s, t)
}

/// What is kept from one store to a second and from the second to a third
/// is kept from the first to the third.
pub proof fn lemma_kept_transitive(a: StoreView, b: StoreView, c: StoreView)
    requires
        kept(a, b),
        kept(b, c),
    ensures
        kept(a, c),
{
    reveal(kept);
}

/// Stores with the same orders and payments keep what is final.
pub proof fn lemma_kept_same(s: StoreView, t: StoreView)
    requires
        t.orders == s.orders,
        t.payments == s.payments,
    ensures
        kept(s, t),
{
    reveal(kept);
}

/// A change to an order that leaves its state alone keeps what is final.
pub proof fn lemma_touched_keeps(s: StoreView, order_id: Id)
    ensures
        kept(s, s.touched(order_id)),
{
    reveal(kept);
    if let Some(o) = s.order(order_id) {
        lemma_first_is(s.orders, order_with_id(order_id));
        lemma_set_order_keeps(s, OrderView { version: next_version(o.version), ..o });
    }
}

pub proof fn lemma_beneficiary_keeps(s: StoreView, order_id: Id, guest_id: Id, note: Option<Seq<char>>)
    ensures
        kept(s, s.with_beneficiary(order_id, guest_id, note)),
{
    reveal(kept);
    if let Some(o) = s.order(order_id) {
        lemma_first_is(s.orders, order_with_id(order_id));
        lemma_set_order_keeps(s, OrderView { on_behalf_of_user_id: Some(guest_id), note, ..o });
    }
}

/// Paying an order keeps what is final.
pub proof fn lemma_completed_keeps(s: StoreView, order_id: Id)
    ensures
        kept(s, s.completed(order_id)),
{
    reveal(kept);
    if let Some(o) = s.order(order_id) {
        lemma_first_is(s.orders, order_with_id(order_id));
        if !is_final(o.status) {
            lemma_set_order_keeps(s, OrderView { status: OrderStatus::Paid, ..o });
        }
    }
}

/// Giving up an order that waits for its payment keeps what is final.
pub proof fn lemma_reset_keeps(s: StoreView, order_id: Id)
    ensures
        kept(s, s.reset(order_id)),
{
    reveal(kept);
    if let Some(o) = s.order(order_id) {
        lemma_first_is(s.orders, order_with_id(order_id));
        if o.status == OrderStatus::PendingPayment {
            lemma_set_order_keeps(
                s,
                OrderView {
                    status: if s.cart_of(o.user_id) is None {
                        OrderStatus::Draft
                    } else {
                        OrderStatus::Cancelled
                    },
                    ..o
                },
            );
        }
    }
}

/// Sending the buyer of a draft to a payment page keeps what is final.
pub proof fn lemma_pending_keeps(s: StoreView, order_id: Id, url: Seq<char>, expires: i64)
    ensures
        kept(s, s.pending(order_id, url, expires)),
{
    reveal(kept);
    if let Some(o) = s.order(order_id) {
        lemma_first_is(s.orders, order_with_id(order_id));
        if o.status == OrderStatus::Draft {
            lemma_set_order_keeps(
                s,
                OrderView {
                    status: OrderStatus::PendingPayment,
                    checkout_url: Some(url),
                    checkout_url_expires: Some(expires),
                    ..o
                },
            );
        }
    }
}

/// Moving a payment to another state keeps what is final.
pub proof fn lemma_marked_keeps(s: StoreView, payment_id: Id, status: PaymentStatus, raw: Option<Seq<char>>)
    ensures
        kept(s, s.marked(payment_id, status, raw)),
        kept(s, s.with_payment_status(payment_id, status)),
{
    reveal(kept);
    if let Some(p) = s.payment(payment_id) {
        lemma_first_is(s.payments, payment_with_id(payment_id));
        if !is_settled(p.status) {
            lemma_set_payment_keeps(s, PaymentView { status, raw_data: raw, ..p });
            lemma_set_payment_keeps(s, PaymentView { status, ..p });
        }
    }
}

/// Handing over tokens changes nothing in the store.
pub proof fn lemma_hand_over_changes_nothing(s: StoreView, saga: SagaView, k: int)
    ensures
        s.hand_over(saga, k).store == s,
{
}

/// Asking for an authorization keeps what is final.
pub proof fn lemma_auth_keeps(s: StoreView, config: ConfigView, saga: SagaView, token: Seq<char>)
    ensures
        kept(s, s.auth_then_complete(config, saga, token).store),
{
    lemma_touched_keeps(s, saga.order_id);
    lemma_kept_same(s, s);
}

/// Asking for a payment page keeps what is final.
pub proof fn lemma_redirect_keeps(s: StoreView, config: ConfigView, saga: SagaView)
    ensures
        kept(s, s.redirect_to_payment_page(config, saga).store),
{
    lemma_touched_keeps(s, saga.order_id);
    lemma_kept_same(s, s);
}

/// A checkout through a processor keeps, in its first step, what is final.
pub proof fn lemma_processor_keeps(
    s: StoreView,
    locator: Seq<PaymentProcessorView>,
    config: ConfigView,
    saga: SagaView,
    token: Option<Seq<char>>,
    provider: Seq<char>,
    use_stored_payment: bool,
    save_payment_method: bool,
    set_default: bool,
)
    ensures
        kept(
            s,
            s.checkout_payment_processor(
                locator,
                config,
                saga,
                token,
                provider,
                use_stored_payment,
                save_payment_method,
                set_default,
            ).store,
        ),
{
    let named = SagaView { provider, set_default, ..saga };
    lemma_touched_keeps(s, saga.order_id);
    lemma_kept_same(s, s);
    lemma_redirect_keeps(s, config, named);
    if let Some(m) = s.payment_method(saga.user_id, provider) {
        lemma_auth_keeps(s, config, named, m.provider);
    }
    if let Some(t) = token {
        lemma_auth_keeps(s, config, named, t);
    }
}

/// A free checkout keeps what is final.
pub proof fn lemma_free_keeps(s: StoreView, saga: SagaView)
    ensures
        kept(s, s.checkout_free(saga).store),
{
    let id = saga.order_id;
    let s1 = s.touched(id);
    lemma_kept_same(s, s);
    lemma_touched_keeps(s, id);
    let s2 = s1.with_payment(free_payment(id, saga.user_id));
    lemma_with_payment_keeps(s1, free_payment(id, saga.user_id));
    lemma_completed_keeps(s2, id);
    lemma_kept_transitive(s, s1, s2);
    lemma_kept_transitive(s, s2, s2.completed(id));
    lemma_hand_over_changes_nothing(s2.completed(id), SagaView { version: next_version(saga.version), ..saga }, 0);
}

/// A checkout paid elsewhere keeps what is final.
pub proof fn lemma_external_keeps(
    s: StoreView,
    saga: SagaView,
    reference: Option<Seq<char>>,
    first_name: Seq<char>,
    last_name: Seq<char>,
    email: Option<Seq<char>>,
    phone: Option<Seq<char>>,
    note: Option<Seq<char>>,
)
    ensures
        kept(s, s.checkout_external(saga, reference, first_name, last_name, email, phone, note).store),
{
    let id = saga.order_id;
    let s1 = s.touched(id);
    lemma_kept_same(s, s);
    lemma_touched_keeps(s, id);
    let s2 = match s1.guest(email, phone) {
        Some(_) => s1,
        None => s1.with_user(
            UserView { id: 0, first_name: Some(first_name), last_name: Some(last_name), email, phone },
        ),
    };
    let guest_id = match s1.guest(email, phone) {
        Some(g) => g,
        None => s1.next_id,
    };
    lemma_kept_same(s1, s2);
    let s3 = s2.with_beneficiary(id, guest_id, note);
    lemma_beneficiary_keeps(s2, id, guest_id, note);
    let payment = external_payment(id, saga.user_id, s.total(id) as i64, reference);
    let s4 = s3.with_payment(payment);
    lemma_with_payment_keeps(s3, payment);
    lemma_completed_keeps(s4, id);
    lemma_kept_transitive(s, s1, s2);
    lemma_kept_transitive(s, s2, s3);
    lemma_kept_transitive(s, s3, s4);
    lemma_kept_transitive(s, s4, s4.completed(id));
    lemma_hand_over_changes_nothing(s4.completed(id), SagaView { version: next_version(saga.version), ..saga }, 0);
}

/// An order that is paid or cancelled stays so, and a payment that is
/// completed or cancelled stays so, whatever step a checkout takes:
/// whatever the state of the checkout and the outcome handed in are.
pub proof fn law_steps_keep_final_states(s: StoreView, config: ConfigView, saga: SagaView, reply: ReplyView)
    ensures
        kept(s, s.resume(config, saga, reply).store),
{
    lemma_kept_same(s, s);
    let id = saga.order_id;
    let pid = saga.payment_id;
    let s1 = s.touched(id);
    lemma_touched_keeps(s, id);
    match saga.stage {
        Stage::RepeatToken => {
            if let ReplyView::RepeatToken { token, raw } = reply {
                let with_method = s.with_payment_method(
                    PaymentMethodView {
                        user_id: saga.user_id,
                        name: saga.provider,
                        is_default: saga.set_default,
                        provider: token,
                        provider_data: raw,
                    },
                );
                lemma_kept_same(s, with_method);
                lemma_auth_keeps(with_method, config, saga, token);
                lemma_kept_transitive(s, with_method, with_method.auth_then_complete(config, saga, token).store);
            }
        },
        Stage::Authorize => {
            if let ReplyView::Authorized { id: auth_id, raw } = reply {
                lemma_with_payment_keeps(s1, card_payment(saga, auth_id, raw));
                lemma_kept_transitive(s, s1, s1.with_payment(card_payment(saga, auth_id, raw)));
            }
        },
        Stage::Commit => {
            lemma_marked_keeps(s, pid, PaymentStatus::Cancelled, None);
        },
        Stage::Capture => {
            lemma_marked_keeps(s, pid, PaymentStatus::Cancelled, None);
            if let ReplyView::Captured { raw } = reply {
                let s2 = s1.marked(pid, PaymentStatus::Completed, Some(raw));
                lemma_marked_keeps(s1, pid, PaymentStatus::Completed, Some(raw));
                lemma_completed_keeps(s2, id);
                lemma_kept_transitive(s, s1, s2);
                lemma_kept_transitive(s, s2, s2.completed(id));
                lemma_hand_over_changes_nothing(
                    s2.completed(id),
                    SagaView { version: next_version(saga.version), ..saga },
                    0,
                );
            }
        },
        Stage::PaymentRequest => {
            if let ReplyView::PaymentRequested { id: reference, redirect_url, expires_at, raw } = reply {
                let s2 = s1.pending(id, redirect_url, expires_at);
                lemma_pending_keeps(s1, id, redirect_url, expires_at);
                lemma_with_payment_keeps(s2, crate::checkout::requested_payment(saga, reference, raw));
                lemma_kept_transitive(s, s1, s2);
                lemma_kept_transitive(
                    s,
                    s2,
                    s2.with_payment(crate::checkout::requested_payment(saga, reference, raw)),
                );
            }
        },
        Stage::Transfer => {
            lemma_hand_over_changes_nothing(s, saga, saga.next_transfer + 1);
        },
        _ => {},
    }
}

/// An order that is paid or cancelled stays so, and a payment that is
/// completed or cancelled stays so, whatever checkout begins.
pub proof fn law_checkout_keeps_final_states(
    s: StoreView,
    locator: Seq<PaymentProcessorView>,
    config: ConfigView,
    order: OrderView,
    request: PaymentRequestView,
    user_id: Id,
    nonce: Seq<char>,
)
    ensures
        kept(s, s.checkout(locator, config, order, request, user_id, nonce).store),
{
    let saga = SagaView { transfers: s.transfers(order.id), ..new_saga(order.id, user_id, order.version, nonce) };
    lemma_kept_same(s, s);
    match request {
        PaymentRequestView::Free => {
            lemma_free_keeps(s, saga);
        },
        PaymentRequestView::External { reference, first_name, last_name, email, phone, note } => {
            lemma_external_keeps(s, saga, reference, first_name, last_name, email, phone, note);
        },
        PaymentRequestView::PaymentMethod { provider } => {
            match provider {
                Some(p) => {
                    lemma_processor_keeps(s, locator, config, saga, None, p, true, false, false);
                },
                None => {
                    if let Some(m) = s.default_payment_method(user_id) {
                        lemma_processor_keeps(s, locator, config, saga, None, m.name, true, false, false);
                    }
                },
            }
        },
        PaymentRequestView::Provider { provider } => {
            lemma_processor_keeps(s, locator, config, saga, None, provider, false, false, false);
        },
        PaymentRequestView::Card { token, provider, save_payment_method, set_default } => {
            lemma_processor_keeps(
                s,
                locator,
                config,
                saga,
                Some(token),
                provider,
                false,
                save_payment_method,
                set_default,
            );
        },
    }
}

/// An order that is paid or cancelled stays so, and a payment that is
/// completed or cancelled stays so, whatever a provider's notification says.
pub proof fn law_notifications_keep_final_states(
    s: StoreView,
    order_id: Id,
    reference: Seq<char>,
    paid: bool,
    raw: Seq<char>,
)
    ensures
        kept(s, s.notified(order_id, reference, paid, raw).store),
{
    lemma_kept_same(s, s);
    if let Some(p) = s.payment_by_reference(order_id, reference) {
        let s1 = s.touched(order_id);
        lemma_touched_keeps(s, order_id);
        let status = if paid {
            PaymentStatus::Completed
        } else {
            PaymentStatus::Cancelled
        };
        let s2 = s1.marked(p.id, status, Some(raw));
        lemma_marked_keeps(s1, p.id, status, Some(raw));
        lemma_kept_transitive(s, s1, s2);
        lemma_completed_keeps(s2, order_id);
        lemma_reset_keeps(s2, order_id);
        lemma_kept_transitive(s, s2, s2.completed(order_id));
        lemma_kept_transitive(s, s2, s2.reset(order_id));
    }
}

/// An order that is paid or cancelled stays so, and a payment that is
/// completed or cancelled stays so, whatever a buyer on the way back from a
/// payment page says.
pub proof fn law_returns_keep_final_states(
    s: StoreView,
    config: ConfigView,
    success: bool,
    order_id: Id,
    nonce: Seq<char>,
)
    ensures
        kept(s, s.called_back(config, success, order_id, nonce).0),
{
    lemma_kept_same(s, s);
    if let Some(p) = s.payment_by_nonce(order_id, nonce) {
        let s1 = s.with_payment_status(p.id, PaymentStatus::Cancelled);
        lemma_marked_keeps(s, p.id, PaymentStatus::Cancelled, None);
        lemma_reset_keeps(s1, order_id);
        lemma_kept_transitive(s, s1, s1.reset(order_id));
    }
}

/// An order that is paid or cancelled stays so, and a payment that is
/// completed or cancelled stays so, whatever is done to a cart.
pub proof fn law_carts_keep_final_states(
    s: StoreView,
    user_id: Id,
    requests: Seq<CartItemView>,
    box_office_pricing: bool,
    remove_others: bool,
)
    ensures
        kept(s, s.cart_changed(user_id, requests, box_office_pricing, remove_others).0),
        kept(s, s.cart_cleared(user_id).0),
{
    lemma_kept_same(s, s);
    lemma_with_cart_keeps(s, user_id);
    let s1 = s.with_cart(user_id);
    let cart_id = s1.cart_of(user_id)->0.id;
    let base = if remove_others {
        retain(s1.items, named_or_foreign(cart_id, requests))
    } else {
        s1.items
    };
    let changed = StoreView { items: s1.upsert_all(base, cart_id, requests, box_office_pricing), ..s1 };
    lemma_kept_same(s1, changed);
    lemma_touched_keeps(changed, cart_id);
    lemma_kept_transitive(s, s1, changed);
    lemma_kept_transitive(s, changed, changed.touched(cart_id));
    if let Some(c) = s.cart_of(user_id) {
        let cleared = StoreView { items: retain(s.items, s.buyable_or_foreign(c.id)), ..s };
        lemma_kept_same(s, cleared);
        lemma_touched_keeps(cleared, c.id);
        lemma_kept_transitive(s, cleared, cleared.touched(c.id));
    }
}

} // verus!
