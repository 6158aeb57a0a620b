//! What an order store holds, and what each operation makes of it.
//!
//! `StoreView` is the mathematical content of a store. The functions here
//! say, over that content, what the operations of the store return and
//! change; the lemmas say that the operations keep a store in order.
//!
//! This file holds the content itself, users, orders and payments. What is
//! on sale is in `sales`, carts are in `carts`, events in `events`, and the
//! search for events in `search`.

use crate::models::{
    ArtistView, AssetView, EventArtist, EventView, FeeScheduleRange, FeeScheduleView, Grant, HoldView,
    OrderItemView, OrderStatus, OrderView, PaymentMethodView, PaymentStatus, PaymentView, Scopes,
    TicketInstance, TicketType, UserView, VenueView, WalletOwner, WalletView,
};
use crate::seqs::{
    any_where, find_where, first_where, is_first, last_where, lemma_first_found, lemma_first_is,
    lemma_first_none,
};
use crate::text::Id;
use vstd::prelude::*;

pub mod carts;
pub mod events;
pub mod sales;
pub mod search;

pub use self::sales::{
    asset_with_id, distinct_assets, event_with_id, group_of, group_token, has_line, item_with_event,
    lemma_lines_of, lemma_transfers_distinct, line_total, lines_of, plain_event, ticket_type_with_id,
    total_of, transfers_of,
};
pub use self::carts::{
    item_of, lemma_cart_error_frame, lemma_items_inv, lemma_retain, lemma_upsert_all_unique,
    lemma_upsert_unique, named_or_foreign, names, retain, unique_lines, upsert,
};
pub use self::events::{
    edited, event_at, event_by, event_of_new, fee_schedule_with_id, hold_with_code, new_ranges, range_of,
    ticket_type_for, venue_with_id,
};
pub use self::search::{
    SEARCH_FROM, SEARCH_UNTIL, after, artist_with_id, comes_before, in_order, lemma_comes_before_transitive,
    lemma_lex_less_irreflexive, lemma_lex_less_transitive, lemma_ordered, lemma_placed, like, ordered, placed,
    search_from, search_until, start_key, status_list,
};

verus! {

/// What a store holds.
pub struct StoreView {
    /// The identifier that the next new record gets.
    pub next_id: Id,
    pub users: Seq<UserView>,
    pub orders: Seq<OrderView>,
    pub items: Seq<OrderItemView>,
    pub payments: Seq<PaymentView>,
    pub payment_methods: Seq<PaymentMethodView>,
    pub events: Seq<EventView>,
    pub venues: Seq<VenueView>,
    pub artists: Seq<ArtistView>,
    pub event_artists: Seq<EventArtist>,
    pub fee_schedules: Seq<FeeScheduleView>,
    pub fee_schedule_ranges: Seq<FeeScheduleRange>,
    pub holds: Seq<HoldView>,
    pub ticket_types: Seq<TicketType>,
    pub assets: Seq<AssetView>,
    pub tickets: Seq<TicketInstance>,
    pub wallets: Seq<WalletView>,
    pub grants: Seq<Grant>,
}

impl StoreView {
    /// The number of records that were given an identifier.
    pub open spec fn identified(self) -> int {
        (self.users.len() + self.orders.len() + self.payments.len() + self.events.len()
            + self.ticket_types.len() + self.assets.len() + self.tickets.len() + self.wallets.len()
            + self.venues.len() + self.artists.len() + self.fee_schedules.len()
            + self.fee_schedule_ranges.len() + self.holds.len()) as int
    }

    /// Whether an identifier is left for a new record. A store in memory
    /// always has one: it cannot hold as many records as there are identifiers.
    pub open spec fn has_room(self) -> bool {
        self.next_id < u128::MAX
    }

    /// What holds of every store: identifiers are given out in sequence and
    /// name one user, one order, one payment; a user has at most one draft
    /// order; an order has at most one line per ticket type; a user has at
    /// most one payment method per provider.
    pub open spec fn inv(self) -> bool {
        &&& self.next_id == 1 + self.identified()
        &&& forall|i: int| 0 <= i < self.users.len() ==> (#[trigger] self.users[i]).id < self.next_id
        &&& forall|i: int| 0 <= i < self.orders.len() ==> (#[trigger] self.orders[i]).id < self.next_id
        &&& forall|i: int| 0 <= i < self.payments.len() ==> (#[trigger] self.payments[i]).id < self.next_id
        &&& forall|i: int, j: int|
            0 <= i < j < self.users.len() ==> (#[trigger] self.users[i]).id != (#[trigger] self.users[j]).id
        &&& forall|i: int, j: int|
            0 <= i < j < self.orders.len() ==> (#[trigger] self.orders[i]).id != (#[trigger] self.orders[j]).id
        &&& forall|i: int, j: int|
            0 <= i < j < self.payments.len() ==> (#[trigger] self.payments[i]).id != (
            #[trigger] self.payments[j]).id
        &&& forall|i: int, j: int|
            0 <= i < j < self.orders.len() && (#[trigger] self.orders[i]).status == OrderStatus::Draft && (
            #[trigger] self.orders[j]).status == OrderStatus::Draft ==> self.orders[i].user_id
                != self.orders[j].user_id
        &&& forall|i: int, j: int|
            0 <= i < j < self.items.len() && (#[trigger] self.items[i]).order_id == (
            #[trigger] self.items[j]).order_id ==> self.items[i].ticket_type_id
                != self.items[j].ticket_type_id
        &&& forall|i: int, j: int|
            0 <= i < j < self.payment_methods.len() && (#[trigger] self.payment_methods[i]).user_id == (
            #[trigger] self.payment_methods[j]).user_id ==> self.payment_methods[i].name
                != self.payment_methods[j].name
    }

    pub open spec fn user(self, id: Id) -> Option<UserView> {
        find_where(self.users, user_with_id(id))
    }

    /// The first user with this email address.
    pub open spec fn user_by_email(self, email: Seq<char>) -> Option<UserView> {
        find_where(self.users, user_with_email(email))
    }

    /// The first user with this phone number.
    pub open spec fn user_by_phone(self, phone: Seq<char>) -> Option<UserView> {
        find_where(self.users, user_with_phone(phone))
    }

    pub open spec fn order_at(self, id: Id) -> Option<int> {
        first_where(self.orders, order_with_id(id))
    }

    pub open spec fn order(self, id: Id) -> Option<OrderView> {
        find_where(self.orders, order_with_id(id))
    }

    /// The draft order of a user.
    pub open spec fn cart_of(self, user_id: Id) -> Option<OrderView> {
        find_where(self.orders, draft_of(user_id))
    }

    pub open spec fn wallet(self, id: Id) -> Option<WalletView> {
        find_where(self.wallets, wallet_with_id(id))
    }

    /// The first wallet of a user: the one that tickets bought are sent to.
    pub open spec fn default_wallet(self, user_id: Id) -> Option<WalletView> {
        find_where(self.wallets, wallet_of(user_id))
    }

    /// Whether a user holds a capability on an organization.
    pub open spec fn has_scope(self, user_id: Id, organization_id: Id, scope: Scopes) -> bool {
        any_where(self.grants, grant_is(user_id, organization_id, scope))
    }

    pub open spec fn payment_at(self, id: Id) -> Option<int> {
        first_where(self.payments, payment_with_id(id))
    }

    pub open spec fn payment(self, id: Id) -> Option<PaymentView> {
        find_where(self.payments, payment_with_id(id))
    }

    /// The payment method that a user keeps with a provider.
    pub open spec fn payment_method(self, user_id: Id, name: Seq<char>) -> Option<PaymentMethodView> {
        find_where(self.payment_methods, method_of(user_id, name))
    }

    /// The first payment method that a user marked as the default.
    pub open spec fn default_payment_method(self, user_id: Id) -> Option<PaymentMethodView> {
        find_where(self.payment_methods, default_method_of(user_id))
    }

    /// The payment of the order that was made last with the secret that a
    /// hosted payment page hands back.
    pub open spec fn payment_by_nonce(self, order_id: Id, nonce: Seq<char>) -> Option<PaymentView> {
        match last_where(self.payments, payment_with_nonce(order_id, nonce)) {
            Some(i) => Some(self.payments[i]),
            None => None,
        }
    }

    /// The store after an order was paid. Only a draft and an order that
    /// waits for its payment can be paid: an order that is paid or
    /// cancelled stays what it is.
    pub open spec fn completed(self, order_id: Id) -> StoreView {
        match self.order(order_id) {
            Some(o) => if is_final(o.status) {
                self
            } else {
                self.set_order(OrderView { status: OrderStatus::Paid, ..o })
            },
            None => self,
        }
    }

    /// The store after the buyer of an order was sent to a hosted payment
    /// page. Only a draft can come to wait for its payment.
    pub open spec fn pending(self, order_id: Id, url: Seq<char>, expires: i64) -> StoreView {
        match self.order(order_id) {
            Some(o) => if o.status == OrderStatus::Draft {
                self.set_order(
                    OrderView {
                        status: OrderStatus::PendingPayment,
                        checkout_url: Some(url),
                        checkout_url_expires: Some(expires),
                        ..o
                    },
                )
            } else {
                self
            },
            None => self,
        }
    }

    /// The store after an order that waited for its payment was given up:
    /// the order is a draft again, so that its user can try once more,
    /// unless the user has started another cart since; then it is
    /// cancelled. An order that does not wait for its payment stays what it is.
    pub open spec fn reset(self, order_id: Id) -> StoreView {
        match self.order(order_id) {
            Some(o) => if o.status == OrderStatus::PendingPayment {
                self.set_order(
                    OrderView {
                        status: if self.cart_of(o.user_id) is None {
                            OrderStatus::Draft
                        } else {
                            OrderStatus::Cancelled
                        },
                        ..o
                    },
                )
            } else {
                self
            },
            None => self,
        }
    }

    /// The store after an order was said to be bought for a guest.
    pub open spec fn with_beneficiary(self, order_id: Id, guest_id: Id, note: Option<Seq<char>>) -> StoreView {
        match self.order(order_id) {
            Some(o) => self.set_order(OrderView { on_behalf_of_user_id: Some(guest_id), note, ..o }),
            None => self,
        }
    }

    /// The store after a payment moved to another state, with what the
    /// provider answered. A payment that is completed or cancelled stays as it is.
    pub open spec fn marked(self, payment_id: Id, status: PaymentStatus, raw_data: Option<Seq<char>>) -> StoreView {
        match self.payment(payment_id) {
            Some(p) => if is_settled(p.status) {
                self
            } else {
                self.set_payment(PaymentView { status, raw_data, ..p })
            },
            None => self,
        }
    }

    /// The store after a payment moved to another state. A payment that is
    /// completed or cancelled stays as it is.
    pub open spec fn with_payment_status(self, payment_id: Id, status: PaymentStatus) -> StoreView {
        match self.payment(payment_id) {
            Some(p) => if is_settled(p.status) {
                self
            } else {
                self.set_payment(PaymentView { status, ..p })
            },
            None => self,
        }
    }

    /// The payments of an order, oldest first.
    pub open spec fn payments_of(self, order_id: Id) -> Seq<PaymentView> {
        payments_for(self.payments, order_id)
    }

    /// The payment of the order that was made last under the provider's reference.
    pub open spec fn payment_by_reference(self, order_id: Id, reference: Seq<char>) -> Option<PaymentView> {
        match last_where(self.payments, payment_with_reference(order_id, reference)) {
            Some(i) => Some(self.payments[i]),
            None => None,
        }
    }

    /// The store with the order of the same identifier replaced by `order`.
    pub open spec fn set_order(self, order: OrderView) -> StoreView {
        match self.order_at(order.id) {
            Some(i) => StoreView { orders: self.orders.update(i, order), ..self },
            None => self,
        }
    }

    /// The store with the payment of the same identifier replaced by `payment`.
    pub open spec fn set_payment(self, payment: PaymentView) -> StoreView {
        match self.payment_at(payment.id) {
            Some(i) => StoreView { payments: self.payments.update(i, payment), ..self },
            None => self,
        }
    }

    /// The store after a user's cart was looked for, and made where there was none.
    pub open spec fn with_cart(self, user_id: Id) -> StoreView {
        match self.cart_of(user_id) {
            Some(_) => self,
            None => StoreView {
                next_id: (self.next_id + 1) as Id,
                orders: self.orders.push(new_cart(self.next_id, user_id)),
                ..self
            },
        }
    }

    /// Whether the order exists in the version that the caller read.
    pub open spec fn is_current(self, order_id: Id, version: u64) -> bool {
        self.order(order_id) matches Some(o) && o.version == version
    }

    /// The store after one more change to an order was counted.
    pub open spec fn touched(self, order_id: Id) -> StoreView {
        match self.order(order_id) {
            Some(o) => self.set_order(OrderView { version: next_version(o.version), ..o }),
            None => self,
        }
    }

    /// The store with one more payment, which gets the next identifier.
    pub open spec fn with_payment(self, payment: PaymentView) -> StoreView {
        StoreView {
            next_id: (self.next_id + 1) as Id,
            payments: self.payments.push(PaymentView { id: self.next_id, ..payment }),
            ..self
        }
    }

    /// The store with one more user, who gets the next identifier.
    pub open spec fn with_user(self, user: UserView) -> StoreView {
        StoreView {
            next_id: (self.next_id + 1) as Id,
            users: self.users.push(UserView { id: self.next_id, ..user }),
            ..self
        }
    }

    /// The store after a payment method was kept for a user: the token and
    /// the provider's answer replace those of the method that the user has
    /// with the provider, or a new method is made.
    pub open spec fn with_payment_method(self, method: PaymentMethodView) -> StoreView {
        match first_where(self.payment_methods, method_of(method.user_id, method.name)) {
            Some(i) => StoreView {
                payment_methods: self.payment_methods.update(
                    i,
                    PaymentMethodView {
                        provider: method.provider,
                        provider_data: method.provider_data,
                        ..self.payment_methods[i]
                    },
                ),
                ..self
            },
            None => StoreView { payment_methods: self.payment_methods.push(method), ..self },
        }
    }
}

pub open spec fn user_with_id(id: Id) -> spec_fn(UserView) -> bool {
    |u: UserView| u.id == id
}

pub open spec fn user_with_email(email: Seq<char>) -> spec_fn(UserView) -> bool {
    |u: UserView| u.email == Some(email)
}

pub open spec fn user_with_phone(phone: Seq<char>) -> spec_fn(UserView) -> bool {
    |u: UserView| u.phone == Some(phone)
}

pub open spec fn order_with_id(id: Id) -> spec_fn(OrderView) -> bool {
    |o: OrderView| o.id == id
}

pub open spec fn draft_of(user_id: Id) -> spec_fn(OrderView) -> bool {
    |o: OrderView| o.user_id == user_id && o.status == OrderStatus::Draft
}

pub open spec fn wallet_with_id(id: Id) -> spec_fn(WalletView) -> bool {
    |w: WalletView| w.id == id
}

pub open spec fn wallet_of(user_id: Id) -> spec_fn(WalletView) -> bool {
    |w: WalletView| w.owner == WalletOwner::User(user_id)
}

pub open spec fn grant_is(user_id: Id, organization_id: Id, scope: Scopes) -> spec_fn(Grant) -> bool {
    |g: Grant| g.user_id == user_id && g.organization_id == organization_id && g.scope == scope
}

pub open spec fn payment_with_id(id: Id) -> spec_fn(PaymentView) -> bool {
    |p: PaymentView| p.id == id
}

pub open spec fn method_of(user_id: Id, name: Seq<char>) -> spec_fn(PaymentMethodView) -> bool {
    |m: PaymentMethodView| m.user_id == user_id && m.name == name
}

pub open spec fn default_method_of(user_id: Id) -> spec_fn(PaymentMethodView) -> bool {
    |m: PaymentMethodView| m.user_id == user_id && m.is_default
}

pub open spec fn payment_with_nonce(order_id: Id, nonce: Seq<char>) -> spec_fn(PaymentView) -> bool {
    |p: PaymentView| p.order_id == order_id && p.url_nonce == Some(nonce)
}

/// The payments of `payments` that are of the order.
pub open spec fn payments_for(payments: Seq<PaymentView>, order_id: Id) -> Seq<PaymentView>
    decreases payments.len(),
{
    if payments.len() == 0 {
        Seq::empty()
    } else {
        let rest = payments_for(payments.drop_last(), order_id);
        if payments.last().order_id == order_id {
            rest.push(payments.last())
        } else {
            rest
        }
    }
}

pub open spec fn payment_with_reference(order_id: Id, reference: Seq<char>) -> spec_fn(PaymentView) -> bool {
    |p: PaymentView| p.order_id == order_id && p.external_reference == Some(reference)
}

/// Whether an order in this state stays in it: it is paid, or cancelled.
pub open spec fn is_final(status: OrderStatus) -> bool {
    status == OrderStatus::Paid || status == OrderStatus::Cancelled
}

/// Whether a payment in this state stays in it: it is completed, or cancelled.
pub open spec fn is_settled(status: PaymentStatus) -> bool {
    status == PaymentStatus::Completed || status == PaymentStatus::Cancelled
}

/// The empty cart of a user.
pub open spec fn new_cart(id: Id, user_id: Id) -> OrderView {
    OrderView {
        id,
        user_id,
        on_behalf_of_user_id: None,
        status: OrderStatus::Draft,
        version: 0,
        note: None,
        checkout_url: None,
        checkout_url_expires: None,
    }
}

/// The version after `version`. The count starts over when it is used up.
pub open spec fn next_version(version: u64) -> u64 {
    if version == u64::MAX {
        0
    } else {
        (version + 1) as u64
    }
}

/// The view of an optional record.
pub open spec fn opt_view<T: View>(o: Option<T>) -> Option<T::V> {
    match o {
        Some(x) => Some(x@),
        None => None,
    }
}

/// After an order was replaced, it is found as it was put, and every other order as before.
pub proof fn lemma_set_order(s: StoreView, o: OrderView)
    ensures
        s.order(o.id) is Some ==> s.set_order(o).order(o.id) == Some(o),
        s.order(o.id) is None ==> s.set_order(o) == s,
        forall|id: Id| id != o.id ==> s.set_order(o).order(id) == s.order(id),
        s.set_order(o).orders.len() == s.orders.len(),
{
    lemma_first_is(s.orders, order_with_id(o.id));
    let t = s.set_order(o);
    match s.order_at(o.id) {
        Some(i) => {
            assert(t.orders == s.orders.update(i, o));
            assert(is_first(t.orders, order_with_id(o.id), i)) by {
                assert forall|j: int| 0 <= j < i implies !#[trigger] order_with_id(o.id)(t.orders[j]) by {
                    assert(!order_with_id(o.id)(s.orders[j]));
                }
            }
            lemma_first_found(t.orders, order_with_id(o.id), i);
            assert forall|id: Id| id != o.id implies t.order(id) == s.order(id) by {
                lemma_first_is(s.orders, order_with_id(id));
                match first_where(s.orders, order_with_id(id)) {
                    Some(k) => {
                        assert(k != i);
                        assert(is_first(t.orders, order_with_id(id), k)) by {
                            assert forall|j: int| 0 <= j < k implies !#[trigger] order_with_id(id)(
                                t.orders[j],
                            ) by {
                                assert(!order_with_id(id)(s.orders[j]));
                            }
                        }
                        lemma_first_found(t.orders, order_with_id(id), k);
                    },
                    None => {
                        assert forall|j: int| 0 <= j < t.orders.len() implies !#[trigger] order_with_id(id)(
                            t.orders[j],
                        ) by {
                            assert(!order_with_id(id)(s.orders[j]));
                        }
                        lemma_first_none(t.orders, order_with_id(id));
                    },
                }
            }
        },
        None => {},
    }
}

/// Replacing an order keeps the store in order, as long as the order keeps
/// its owner and does not become a draft again.
pub proof fn lemma_set_order_inv(s: StoreView, o: OrderView)
    requires
        s.inv(),
        s.order(o.id) matches Some(prev) && prev.user_id == o.user_id && (o.status == OrderStatus::Draft
            ==> prev.status == OrderStatus::Draft),
    ensures
        s.set_order(o).inv(),
        s.set_order(o).order(o.id) == Some(o),
        forall|id: Id| id != o.id ==> s.set_order(o).order(id) == s.order(id),
{
    lemma_set_order(s, o);
    lemma_first_is(s.orders, order_with_id(o.id));
    let i = s.order_at(o.id)->0;
    let t = s.set_order(o);
    assert(t.orders == s.orders.update(i, o));
    assert(t.identified() == s.identified());
    assert forall|a: int, b: int|
        0 <= a < b < t.orders.len() && (#[trigger] t.orders[a]).status == OrderStatus::Draft && (
        #[trigger] t.orders[b]).status == OrderStatus::Draft implies t.orders[a].user_id
        != t.orders[b].user_id by {
        assert(s.orders[a].user_id == t.orders[a].user_id);
        assert(s.orders[b].user_id == t.orders[b].user_id);
        assert(s.orders[a].status == OrderStatus::Draft);
        assert(s.orders[b].status == OrderStatus::Draft);
    }
    assert forall|a: int, b: int| 0 <= a < b < t.orders.len() implies (#[trigger] t.orders[a]).id != (
    #[trigger] t.orders[b]).id by {
        assert(s.orders[a].id == t.orders[a].id);
        assert(s.orders[b].id == t.orders[b].id);
    }
    assert forall|a: int| 0 <= a < t.orders.len() implies (#[trigger] t.orders[a]).id < t.next_id by {
        assert(s.orders[a].id == t.orders[a].id);
    }
}

/// Counting a change keeps the store in order, and changes the version of that order alone.
pub proof fn lemma_touched_inv(s: StoreView, order_id: Id)
    requires
        s.inv(),
    ensures
        s.touched(order_id).inv(),
        s.order(order_id) matches Some(o) ==> s.touched(order_id).order(order_id) == Some(
            OrderView { version: next_version(o.version), ..o },
        ),
        s.order(order_id) is None ==> s.touched(order_id) == s,
        forall|id: Id| id != order_id ==> s.touched(order_id).order(id) == s.order(id),
{
    lemma_first_is(s.orders, order_with_id(order_id));
    match s.order(order_id) {
        Some(o) => {
            lemma_set_order_inv(s, OrderView { version: next_version(o.version), ..o });
        },
        None => {},
    }
}

/// Looking for a user's cart, and making it where there is none, keeps the
/// store in order and leaves the user with that cart.
pub proof fn lemma_with_cart_inv(s: StoreView, user_id: Id)
    requires
        s.inv(),
    ensures
        s.has_room() ==> s.with_cart(user_id).inv(),
        s.with_cart(user_id).cart_of(user_id) == Some(
            match s.cart_of(user_id) {
                Some(o) => o,
                None => new_cart(s.next_id, user_id),
            },
        ),
{
    lemma_first_is(s.orders, draft_of(user_id));
    if s.cart_of(user_id) is None {
        let t = s.with_cart(user_id);
        let n = s.orders.len() as int;
        assert(t.identified() == s.identified() + 1);
        assert forall|a: int, b: int|
            0 <= a < b < t.orders.len() && (#[trigger] t.orders[a]).status == OrderStatus::Draft && (
            #[trigger] t.orders[b]).status == OrderStatus::Draft implies t.orders[a].user_id
            != t.orders[b].user_id by {
            if b == n {
                assert(!draft_of(user_id)(s.orders[a]));
            } else {
                assert(s.orders[a] == t.orders[a] && s.orders[b] == t.orders[b]);
            }
        }
        assert forall|a: int, b: int| 0 <= a < b < t.orders.len() implies (#[trigger] t.orders[a]).id != (
        #[trigger] t.orders[b]).id by {
            assert(s.orders[a] == t.orders[a]);
            if b < n {
                assert(s.orders[b] == t.orders[b]);
            }
        }
        if s.has_room() {
            assert forall|a: int| 0 <= a < t.orders.len() implies (#[trigger] t.orders[a]).id < t.next_id by {
                if a < n {
                    assert(s.orders[a] == t.orders[a]);
                }
            }
        }
        assert(is_first(t.orders, draft_of(user_id), n)) by {
            assert forall|j: int| 0 <= j < n implies !#[trigger] draft_of(user_id)(t.orders[j]) by {
                assert(!draft_of(user_id)(s.orders[j]));
            }
        }
        lemma_first_found(t.orders, draft_of(user_id), n);
    }
}

/// After a payment was replaced, it is found as it was put, and every other payment as before.
pub proof fn lemma_set_payment(s: StoreView, p: PaymentView)
    ensures
        s.payment(p.id) is Some ==> s.set_payment(p).payment(p.id) == Some(p),
        s.payment(p.id) is None ==> s.set_payment(p) == s,
        forall|id: Id| id != p.id ==> s.set_payment(p).payment(id) == s.payment(id),
        s.set_payment(p).payments.len() == s.payments.len(),
{
    lemma_first_is(s.payments, payment_with_id(p.id));
    let t = s.set_payment(p);
    match s.payment_at(p.id) {
        Some(i) => {
            assert(t.payments == s.payments.update(i, p));
            assert(is_first(t.payments, payment_with_id(p.id), i)) by {
                assert forall|j: int| 0 <= j < i implies !#[trigger] payment_with_id(p.id)(t.payments[j]) by {
                    assert(!payment_with_id(p.id)(s.payments[j]));
                }
            }
            lemma_first_found(t.payments, payment_with_id(p.id), i);
            assert forall|id: Id| id != p.id implies t.payment(id) == s.payment(id) by {
                lemma_first_is(s.payments, payment_with_id(id));
                match first_where(s.payments, payment_with_id(id)) {
                    Some(k) => {
                        assert(is_first(t.payments, payment_with_id(id), k)) by {
                            assert forall|j: int| 0 <= j < k implies !#[trigger] payment_with_id(id)(
                                t.payments[j],
                            ) by {
                                assert(!payment_with_id(id)(s.payments[j]));
                            }
                        }
                        lemma_first_found(t.payments, payment_with_id(id), k);
                    },
                    None => {
                        assert forall|j: int| 0 <= j < t.payments.len() implies !#[trigger] payment_with_id(
                            id,
                        )(t.payments[j]) by {
                            assert(!payment_with_id(id)(s.payments[j]));
                        }
                        lemma_first_none(t.payments, payment_with_id(id));
                    },
                }
            }
        },
        None => {},
    }
}

/// Replacing a payment keeps the store in order.
pub proof fn lemma_set_payment_inv(s: StoreView, p: PaymentView)
    requires
        s.inv(),
    ensures
        s.set_payment(p).inv(),
        s.payment(p.id) is Some ==> s.set_payment(p).payment(p.id) == Some(p),
        forall|id: Id| id != p.id ==> s.set_payment(p).payment(id) == s.payment(id),
{
    lemma_set_payment(s, p);
    lemma_first_is(s.payments, payment_with_id(p.id));
    let t = s.set_payment(p);
    match s.payment_at(p.id) {
        Some(i) => {
            assert(t.payments == s.payments.update(i, p));
            assert(t.identified() == s.identified());
            assert forall|a: int, b: int| 0 <= a < b < t.payments.len() implies (#[trigger] t.payments[a]).id
                != (#[trigger] t.payments[b]).id by {
                assert(s.payments[a].id == t.payments[a].id);
                assert(s.payments[b].id == t.payments[b].id);
            }
            assert forall|a: int| 0 <= a < t.payments.len() implies (#[trigger] t.payments[a]).id
                < t.next_id by {
                assert(s.payments[a].id == t.payments[a].id);
            }
        },
        None => {},
    }
}

/// A new payment keeps the store in order, and is found under its identifier.
pub proof fn lemma_with_payment_inv(s: StoreView, p: PaymentView)
    requires
        s.inv(),
    ensures
        s.has_room() ==> s.with_payment(p).inv(),
        s.with_payment(p).payment(s.next_id) == Some(PaymentView { id: s.next_id, ..p }),
        forall|id: Id| id != s.next_id ==> s.with_payment(p).payment(id) == s.payment(id),
{
    let t = s.with_payment(p);
    let n = s.payments.len() as int;
    assert(t.identified() == s.identified() + 1);
    assert forall|a: int, b: int| 0 <= a < b < t.payments.len() implies (#[trigger] t.payments[a]).id != (
    #[trigger] t.payments[b]).id by {
        assert(s.payments[a] == t.payments[a]);
        if b < n {
            assert(s.payments[b] == t.payments[b]);
        }
    }
    if s.has_room() {
        assert forall|a: int| 0 <= a < t.payments.len() implies (#[trigger] t.payments[a]).id < t.next_id by {
            if a < n {
                assert(s.payments[a] == t.payments[a]);
            }
        }
    }
    assert(is_first(t.payments, payment_with_id(s.next_id), n)) by {
        assert forall|j: int| 0 <= j < n implies !#[trigger] payment_with_id(s.next_id)(t.payments[j]) by {
            assert(s.payments[j] == t.payments[j]);
        }
    }
    lemma_first_found(t.payments, payment_with_id(s.next_id), n);
    assert forall|id: Id| id != s.next_id implies t.payment(id) == s.payment(id) by {
        lemma_first_is(s.payments, payment_with_id(id));
        match first_where(s.payments, payment_with_id(id)) {
            Some(k) => {
                assert(is_first(t.payments, payment_with_id(id), k)) by {
                    assert forall|j: int| 0 <= j < k implies !#[trigger] payment_with_id(id)(t.payments[j]) by {
                        assert(!payment_with_id(id)(s.payments[j]));
                    }
                }
                lemma_first_found(t.payments, payment_with_id(id), k);
            },
            None => {
                assert forall|j: int| 0 <= j < t.payments.len() implies !#[trigger] payment_with_id(id)(
                    t.payments[j],
                ) by {
                    if j < n {
                        assert(!payment_with_id(id)(s.payments[j]));
                    }
                }
                lemma_first_none(t.payments, payment_with_id(id));
            },
        }
    }
}

/// Keeping a payment method keeps the store in order.
pub proof fn lemma_with_payment_method_inv(s: StoreView, m: PaymentMethodView)
    requires
        s.inv(),
    ensures
        s.with_payment_method(m).inv(),
{
    let t = s.with_payment_method(m);
    lemma_first_is(s.payment_methods, method_of(m.user_id, m.name));
    assert(t.identified() == s.identified());
    assert forall|a: int, b: int|
        0 <= a < b < t.payment_methods.len() && (#[trigger] t.payment_methods[a]).user_id == (
        #[trigger] t.payment_methods[b]).user_id implies t.payment_methods[a].name
        != t.payment_methods[b].name by {
        match first_where(s.payment_methods, method_of(m.user_id, m.name)) {
            Some(i) => {
                assert(s.payment_methods[a].user_id == t.payment_methods[a].user_id);
                assert(s.payment_methods[b].user_id == t.payment_methods[b].user_id);
                assert(s.payment_methods[a].name == t.payment_methods[a].name);
                assert(s.payment_methods[b].name == t.payment_methods[b].name);
            },
            None => {
                assert(s.payment_methods[a] == t.payment_methods[a]);
                if b < s.payment_methods.len() {
                    assert(s.payment_methods[b] == t.payment_methods[b]);
                } else {
                    assert(!method_of(m.user_id, m.name)(s.payment_methods[a]));
                }
            },
        }
    }
}

/// A change to the events, ticket types, assets, tickets, wallets or grants
/// that adds no record keeps the store in order.
pub proof fn lemma_inv_frame(s: StoreView, t: StoreView)
    requires
        s.inv(),
        t.next_id == s.next_id,
        t.users == s.users,
        t.orders == s.orders,
        t.items == s.items,
        t.payments == s.payments,
        t.payment_methods == s.payment_methods,
        t.identified() == s.identified(),
    ensures
        t.inv(),
{
}

/// A user's cart is the order found under the cart's identifier.
pub proof fn lemma_cart_is_order(s: StoreView, user_id: Id)
    requires
        s.inv(),
    ensures
        s.cart_of(user_id) matches Some(c) ==> s.order(c.id) == Some(c) && c.user_id == user_id && c.status
            == OrderStatus::Draft,
{
    lemma_first_is(s.orders, draft_of(user_id));
    match first_where(s.orders, draft_of(user_id)) {
        Some(i) => {
            let c = s.orders[i];
            assert(is_first(s.orders, order_with_id(c.id), i)) by {
                assert forall|j: int| 0 <= j < i implies !#[trigger] order_with_id(c.id)(s.orders[j]) by {
                    assert(s.orders[j].id != s.orders[i].id);
                }
            }
            lemma_first_found(s.orders, order_with_id(c.id), i);
        },
        None => {},
    }
}

/// New records in the tables of events, venues, fee schedules and the
/// like keep the store in order.
pub proof fn lemma_inv_grow(s: StoreView, t: StoreView)
    requires
        s.inv(),
        t.next_id >= s.next_id,
        t.next_id - s.next_id == t.identified() - s.identified(),
        t.users == s.users,
        t.orders == s.orders,
        t.items == s.items,
        t.payments == s.payments,
        t.payment_methods == s.payment_methods,
    ensures
        t.inv(),
{
}

/// Making an order a draft again keeps the store in order where its user has no draft.
pub proof fn lemma_reset_inv(s: StoreView, order_id: Id)
    requires
        s.inv(),
        s.order(order_id) matches Some(o) && (o.status == OrderStatus::Draft || s.cart_of(o.user_id) is None),
    ensures
        s.set_order(OrderView { status: OrderStatus::Draft, ..s.order(order_id)->0 }).inv(),
{
    let o = s.order(order_id)->0;
    if o.status == OrderStatus::Draft {
        lemma_set_order_inv(s, OrderView { status: OrderStatus::Draft, ..o });
    } else {
        lemma_first_is(s.orders, order_with_id(order_id));
        lemma_first_is(s.orders, draft_of(o.user_id));
        let i = s.order_at(order_id)->0;
        let t = s.set_order(OrderView { status: OrderStatus::Draft, ..o });
        assert(t.orders == s.orders.update(i, OrderView { status: OrderStatus::Draft, ..o }));
        assert(t.identified() == s.identified());
        assert forall|a: int, b: int|
            0 <= a < b < t.orders.len() && (#[trigger] t.orders[a]).status == OrderStatus::Draft && (
            #[trigger] t.orders[b]).status == OrderStatus::Draft implies t.orders[a].user_id
            != t.orders[b].user_id by {
            if a == i {
                assert(!draft_of(o.user_id)(s.orders[b]));
            } else if b == i {
                assert(!draft_of(o.user_id)(s.orders[a]));
            } else {
                assert(s.orders[a] == t.orders[a] && s.orders[b] == t.orders[b]);
            }
        }
        assert forall|a: int, b: int| 0 <= a < b < t.orders.len() implies (#[trigger] t.orders[a]).id != (
        #[trigger] t.orders[b]).id by {
            assert(s.orders[a].id == t.orders[a].id);
            assert(s.orders[b].id == t.orders[b].id);
        }
        assert forall|a: int| 0 <= a < t.orders.len() implies (#[trigger] t.orders[a]).id < t.next_id by {
            assert(s.orders[a].id == t.orders[a].id);
        }
    }
}

} // verus!
