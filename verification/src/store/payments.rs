//! The states of orders, their payments, and the payment methods and wallets of users.

use crate::models::{
    DisplayOrder, EventStatus, EventView, Order, OrderStatus, OrderView, Payment, PaymentMethod,
    PaymentMethodView, PaymentStatus, PaymentView, TicketType, TicketTypeStatus, UserView, Wallet, WalletOwner,
};
use crate::seqs::{
    at, first_where, lemma_first_found, lemma_first_is, lemma_first_none, lemma_last_found, lemma_last_none,
};
use crate::store::OrderStore;
use crate::store_view::{
    default_method_of, draft_of, event_with_id, lemma_inv_frame, lemma_reset_inv, lemma_set_order_inv,
    lemma_set_payment_inv, lemma_with_payment_inv, lemma_with_payment_method_inv, method_of, opt_view,
    order_with_id, payment_with_id, payment_with_nonce, payment_with_reference, payments_for, wallet_of,
    wallet_with_id,
};
use crate::text::{Id, opt_is, opt_text, text_eq};
use vstd::prelude::*;

verus! {

impl OrderStore {
    /// Puts `order` in the place of the order with its identifier.
    fn put_order(&mut self, order: Order)
        requires
            old(self).wf(),
            old(self)@.order(order.id) matches Some(prev) && prev.user_id == order.user_id && (order.status
                == OrderStatus::Draft ==> prev.status == OrderStatus::Draft),
        ensures
            final(self).wf(),
            final(self)@ == old(self)@.set_order(order@),
    {
        proof {
            lemma_set_order_inv(old(self)@, order@);
        }
        match self.order_index(order.id) {
            Some(i) => {
                let ghost v = order@;
                self.orders[i] = order;
                assert(self@.orders =~= old(self)@.orders.update(i as int, v));
            },
            None => {},
        }
    }

    /// Marks an order as paid, unless it is paid or cancelled already.
    pub fn complete(&mut self, order_id: Id)
        requires
            old(self).wf(),
        ensures
            final(self).wf(),
            final(self)@ == old(self)@.completed(order_id),
    {
        match self.order(order_id) {
            Some(o) => {
                let open = match o.status {
                    OrderStatus::Draft | OrderStatus::PendingPayment => true,
                    _ => false,
                };
                if open {
                    let mut o = o;
                    o.status = OrderStatus::Paid;
                    self.put_order(o);
                }
            },
            None => {},
        }
    }

    /// Marks a draft as waiting for its payment on a hosted page, and keeps
    /// the address of the page and the time at which it expires.
    pub fn add_checkout_url(&mut self, order_id: Id, url: String, expires: i64)
        requires
            old(self).wf(),
        ensures
            final(self).wf(),
            final(self)@ == old(self)@.pending(order_id, url@, expires),
    {
        match self.order(order_id) {
            Some(o) => {
                if o.status == OrderStatus::Draft {
                    let mut o = o;
                    o.status = OrderStatus::PendingPayment;
                    o.checkout_url = Some(url);
                    o.checkout_url_expires = Some(expires);
                    self.put_order(o);
                }
            },
            None => {},
        }
    }

    /// Makes an order that waits for its payment a draft again, or cancels
    /// it where its user has another cart.
    pub fn reset_to_draft(&mut self, order_id: Id)
        requires
            old(self).wf(),
        ensures
            final(self).wf(),
            final(self)@ == old(self)@.reset(order_id),
    {
        match self.order(order_id) {
            Some(o) => {
                if o.status == OrderStatus::PendingPayment {
                    let mut o = o;
                    let free = self.cart_index(o.user_id).is_none();
                    proof {
                        lemma_first_is(self@.orders, draft_of(o.user_id));
                        lemma_first_is(self@.orders, order_with_id(order_id));
                    }
                    if free {
                        proof {
                            lemma_reset_inv(self@, order_id);
                        }
                        self.force_status(order_id, OrderStatus::Draft);
                    } else {
                        o.status = OrderStatus::Cancelled;
                        self.put_order(o);
                    }
                }
            },
            None => {},
        }
    }

    /// Sets the state of an order where the result is known to be in order.
    fn force_status(&mut self, order_id: Id, status: OrderStatus)
        requires
            old(self)@.order(order_id) matches Some(o) && old(self)@.set_order(OrderView { status, ..o }).inv(),
        ensures
            final(self).wf(),
            final(self)@ == old(self)@.set_order(OrderView { status, ..old(self)@.order(order_id)->0 }),
    {
        proof {
            lemma_first_is(self@.orders, order_with_id(order_id));
        }
        match self.order_index(order_id) {
            Some(i) => {
                self.orders[i].status = status;
                assert(self@.orders =~= old(self)@.orders.update(
                    i as int,
                    OrderView { status, ..old(self)@.orders[i as int] },
                ));
            },
            None => {},
        }
    }

    /// Says for whom an order is bought, with a note.
    pub fn set_behalf_of_user(&mut self, order_id: Id, guest_id: Id, note: Option<String>)
        requires
            old(self).wf(),
        ensures
            final(self).wf(),
            final(self)@ == old(self)@.with_beneficiary(order_id, guest_id, opt_text(note)),
    {
        match self.order(order_id) {
            Some(o) => {
                let mut o = o;
                o.on_behalf_of_user_id = Some(guest_id);
                o.note = note;
                self.put_order(o);
            },
            None => {},
        }
    }

    /// Adds a user of whom only a name and a way to reach them are known.
    pub fn create_stub(
        &mut self,
        first_name: String,
        last_name: String,
        email: Option<String>,
        phone: Option<String>,
    ) -> (id: Id)
        requires
            old(self).wf(),
        ensures
            final(self).wf(),
            id == old(self)@.next_id,
            final(self)@ == old(self)@.with_user(
                UserView {
                    id,
                    first_name: Some(first_name@),
                    last_name: Some(last_name@),
                    email: opt_text(email),
                    phone: opt_text(phone),
                },
            ),
    {
        self.add_user(Some(first_name), Some(last_name), email, phone)
    }

    fn payment_index(&self, id: Id) -> (r: Option<usize>)
        ensures
            at(r) == self@.payment_at(id),
            r matches Some(i) ==> i < self.payments.len(),
    {
        let mut i: usize = 0;
        while i < self.payments.len()
            invariant
                i <= self.payments.len(),
                forall|j: int| 0 <= j < i ==> !#[trigger] payment_with_id(id)(self@.payments[j]),
            decreases self.payments.len() - i,
        {
            if self.payments[i].id == id {
                proof {
                    lemma_first_found(self@.payments, payment_with_id(id), i as int);
                }
                return Some(i);
            }
            i += 1;
        }
        proof {
            lemma_first_none(self@.payments, payment_with_id(id));
        }
        None
    }

    /// The payment with the identifier.
    pub fn payment(&self, id: Id) -> (r: Option<Payment>)
        ensures
            opt_view(r) == self@.payment(id),
    {
        match self.payment_index(id) {
            Some(i) => Some(self.payments[i].copy()),
            None => None,
        }
    }

    /// The payments of an order, oldest first.
    pub fn payments(&self, order_id: Id) -> (list: Vec<Payment>)
        ensures
            list@.map_values(|p: Payment| p@) == self@.payments_of(order_id),
    {
        let mut list: Vec<Payment> = Vec::new();
        let mut i: usize = 0;
        assert(self@.payments.take(0) =~= Seq::empty());
        while i < self.payments.len()
            invariant
                i <= self.payments.len(),
                list@.map_values(|p: Payment| p@) =~= payments_for(self@.payments.take(i as int), order_id),
            decreases self.payments.len() - i,
        {
            assert(self@.payments.take(i + 1).drop_last() =~= self@.payments.take(i as int));
            if self.payments[i].order_id == order_id {
                list.push(self.payments[i].copy());
            }
            i += 1;
        }
        assert(self@.payments.take(i as int) =~= self@.payments);
        list
    }

    /// The payment of the order that was made last with the secret.
    pub fn payment_by_nonce(&self, order_id: Id, nonce: &str) -> (r: Option<Payment>)
        ensures
            opt_view(r) == self@.payment_by_nonce(order_id, nonce@),
    {
        let mut i: usize = self.payments.len();
        while i > 0
            invariant
                i <= self.payments.len(),
                forall|j: int|
                    i <= j < self.payments.len() ==> !#[trigger] payment_with_nonce(order_id, nonce@)(
                        self@.payments[j],
                    ),
            decreases i,
        {
            i -= 1;
            if self.payments[i].order_id == order_id && opt_is(&self.payments[i].url_nonce, nonce) {
                proof {
                    lemma_last_found(self@.payments, payment_with_nonce(order_id, nonce@), i as int);
                }
                return Some(self.payments[i].copy());
            }
        }
        proof {
            lemma_last_none(self@.payments, payment_with_nonce(order_id, nonce@));
        }
        None
    }

    /// The payment of the order that was made last under the provider's reference.
    pub fn payment_by_reference(&self, order_id: Id, reference: &str) -> (r: Option<Payment>)
        ensures
            opt_view(r) == self@.payment_by_reference(order_id, reference@),
    {
        let mut i: usize = self.payments.len();
        while i > 0
            invariant
                i <= self.payments.len(),
                forall|j: int|
                    i <= j < self.payments.len() ==> !#[trigger] payment_with_reference(order_id, reference@)(
                        self@.payments[j],
                    ),
            decreases i,
        {
            i -= 1;
            if self.payments[i].order_id == order_id && opt_is(&self.payments[i].external_reference, reference) {
                proof {
                    lemma_last_found(self@.payments, payment_with_reference(order_id, reference@), i as int);
                }
                return Some(self.payments[i].copy());
            }
        }
        proof {
            lemma_last_none(self@.payments, payment_with_reference(order_id, reference@));
        }
        None
    }

    /// Records a payment and returns the identifier given to it.
    pub fn add_payment(&mut self, payment: Payment) -> (id: Id)
        requires
            old(self).wf(),
        ensures
            final(self).wf(),
            id == old(self)@.next_id,
            final(self)@ == old(self)@.with_payment(payment@),
    {
        proof {
            self.lemma_has_room();
            lemma_with_payment_inv(old(self)@, payment@);
        }
        let id = self.fresh_id();
        let mut payment = payment;
        payment.id = id;
        let ghost v = payment@;
        self.payments.push(payment);
        assert(self@.payments =~= old(self)@.payments.push(v));
        id
    }

    /// Moves a payment to another state and keeps what the provider answered.
    pub fn mark_payment(&mut self, payment_id: Id, status: PaymentStatus, raw_data: Option<String>)
        requires
            old(self).wf(),
        ensures
            final(self).wf(),
            final(self)@ == old(self)@.marked(payment_id, status, opt_text(raw_data)),
    {
        proof {
            lemma_first_is(self@.payments, payment_with_id(payment_id));
        }
        match self.payment_index(payment_id) {
            Some(i) => {
                match self.payments[i].status {
                    PaymentStatus::Completed | PaymentStatus::Cancelled => {
                        return ;
                    },
                    _ => {},
                }
                proof {
                    lemma_set_payment_inv(
                        self@,
                        PaymentView { status, raw_data: opt_text(raw_data), ..self@.payments[i as int] },
                    );
                }
                self.payments[i].status = status;
                self.payments[i].raw_data = raw_data;
                assert(self@.payments =~= old(self)@.payments.update(
                    i as int,
                    PaymentView { status, raw_data: opt_text(raw_data), ..old(self)@.payments[i as int] },
                ));
            },
            None => {},
        }
    }

    /// Moves a payment to another state.
    pub fn set_payment_status(&mut self, payment_id: Id, status: PaymentStatus)
        requires
            old(self).wf(),
        ensures
            final(self).wf(),
            final(self)@ == old(self)@.with_payment_status(payment_id, status),
    {
        proof {
            lemma_first_is(self@.payments, payment_with_id(payment_id));
        }
        match self.payment_index(payment_id) {
            Some(i) => {
                match self.payments[i].status {
                    PaymentStatus::Completed | PaymentStatus::Cancelled => {
                        return ;
                    },
                    _ => {},
                }
                proof {
                    lemma_set_payment_inv(self@, PaymentView { status, ..self@.payments[i as int] });
                }
                self.payments[i].status = status;
                assert(self@.payments =~= old(self)@.payments.update(
                    i as int,
                    PaymentView { status, ..old(self)@.payments[i as int] },
                ));
            },
            None => {},
        }
    }

    fn payment_method_index(&self, user_id: Id, name: &str) -> (r: Option<usize>)
        ensures
            at(r) == first_where(self@.payment_methods, method_of(user_id, name@)),
            r matches Some(i) ==> i < self.payment_methods.len(),
    {
        let mut i: usize = 0;
        while i < self.payment_methods.len()
            invariant
                i <= self.payment_methods.len(),
                forall|j: int| 0 <= j < i ==> !#[trigger] method_of(user_id, name@)(self@.payment_methods[j]),
            decreases self.payment_methods.len() - i,
        {
            if self.payment_methods[i].user_id == user_id && text_eq(self.payment_methods[i].name.as_str(), name) {
                proof {
                    lemma_first_found(self@.payment_methods, method_of(user_id, name@), i as int);
                }
                return Some(i);
            }
            i += 1;
        }
        proof {
            lemma_first_none(self@.payment_methods, method_of(user_id, name@));
        }
        None
    }

    /// The payment method that a user keeps with a provider.
    pub fn payment_method(&self, user_id: Id, name: &str) -> (r: Option<PaymentMethod>)
        ensures
            opt_view(r) == self@.payment_method(user_id, name@),
    {
        match self.payment_method_index(user_id, name) {
            Some(i) => Some(self.payment_methods[i].copy()),
            None => None,
        }
    }

    /// The first payment method that a user marked as the default.
    pub fn default_payment_method(&self, user_id: Id) -> (r: Option<PaymentMethod>)
        ensures
            opt_view(r) == self@.default_payment_method(user_id),
    {
        let mut i: usize = 0;
        while i < self.payment_methods.len()
            invariant
                i <= self.payment_methods.len(),
                forall|j: int| 0 <= j < i ==> !#[trigger] default_method_of(user_id)(self@.payment_methods[j]),
            decreases self.payment_methods.len() - i,
        {
            if self.payment_methods[i].user_id == user_id && self.payment_methods[i].is_default {
                proof {
                    lemma_first_found(self@.payment_methods, default_method_of(user_id), i as int);
                }
                return Some(self.payment_methods[i].copy());
            }
            i += 1;
        }
        proof {
            lemma_first_none(self@.payment_methods, default_method_of(user_id));
        }
        None
    }

    /// Keeps a payment method: where the user has one with the provider, the
    /// token and the provider's answer replace the old ones.
    pub fn save_payment_method(&mut self, method: PaymentMethod)
        requires
            old(self).wf(),
        ensures
            final(self).wf(),
            final(self)@ == old(self)@.with_payment_method(method@),
    {
        proof {
            lemma_with_payment_method_inv(self@, method@);
        }
        match self.payment_method_index(method.user_id, method.name.as_str()) {
            Some(i) => {
                let ghost v = method@;
                self.payment_methods[i].provider = method.provider;
                self.payment_methods[i].provider_data = method.provider_data;
                assert(self@.payment_methods =~= old(self)@.payment_methods.update(
                    i as int,
                    PaymentMethodView {
                        provider: v.provider,
                        provider_data: v.provider_data,
                        ..old(self)@.payment_methods[i as int]
                    },
                ));
            },
            None => {
                let ghost v = method@;
                self.payment_methods.push(method);
                assert(self@.payment_methods =~= old(self)@.payment_methods.push(v));
            },
        }
    }

    /// The wallet with the identifier.
    pub fn wallet(&self, id: Id) -> (r: Option<Wallet>)
        ensures
            opt_view(r) == self@.wallet(id),
    {
        let mut i: usize = 0;
        while i < self.wallets.len()
            invariant
                i <= self.wallets.len(),
                forall|j: int| 0 <= j < i ==> !#[trigger] wallet_with_id(id)(self@.wallets[j]),
            decreases self.wallets.len() - i,
        {
            if self.wallets[i].id == id {
                proof {
                    lemma_first_found(self@.wallets, wallet_with_id(id), i as int);
                }
                return Some(self.wallets[i].copy());
            }
            i += 1;
        }
        proof {
            lemma_first_none(self@.wallets, wallet_with_id(id));
        }
        None
    }

    /// The wallet that tickets bought by the user are sent to.
    pub fn find_default_for_user(&self, user_id: Id) -> (r: Option<Wallet>)
        ensures
            opt_view(r) == self@.default_wallet(user_id),
    {
        let mut i: usize = 0;
        while i < self.wallets.len()
            invariant
                i <= self.wallets.len(),
                forall|j: int| 0 <= j < i ==> !#[trigger] wallet_of(user_id)(self@.wallets[j]),
            decreases self.wallets.len() - i,
        {
            if self.wallets[i].owner == WalletOwner::User(user_id) {
                proof {
                    lemma_first_found(self@.wallets, wallet_of(user_id), i as int);
                }
                return Some(self.wallets[i].copy());
            }
            i += 1;
        }
        proof {
            lemma_first_none(self@.wallets, wallet_of(user_id));
        }
        None
    }

    /// Opens or closes the sale of a ticket type.
    pub fn set_ticket_type_status(&mut self, id: Id, status: TicketTypeStatus)
        requires
            old(self).wf(),
        ensures
            final(self).wf(),
            final(self)@ == old(self)@.with_ticket_type_status(id, status),
    {
        match self.ticket_type_index(id) {
            Some(i) => {
                self.ticket_types[i].status = status;
                assert(self@.ticket_types =~= old(self)@.ticket_types.update(
                    i as int,
                    TicketType { status, ..old(self)@.ticket_types[i as int] },
                ));
                proof {
                    lemma_inv_frame(old(self)@, self@);
                }
            },
            None => {},
        }
    }

    /// Moves an event to another state.
    pub fn set_event_status(&mut self, id: Id, status: EventStatus)
        requires
            old(self).wf(),
        ensures
            final(self).wf(),
            final(self)@ == old(self)@.with_event_status(id, status),
    {
        let mut i: usize = 0;
        while i < self.events.len()
            invariant
                i <= self.events.len(),
                *self == *old(self),
                self.wf(),
                forall|j: int| 0 <= j < i ==> !#[trigger] event_with_id(id)(self@.events[j]),
            decreases self.events.len() - i,
        {
            if self.events[i].id == id {
                proof {
                    lemma_first_found(self@.events, event_with_id(id), i as int);
                }
                self.events[i].status = status;
                assert(self@.events =~= old(self)@.events.update(
                    i as int,
                    EventView { status, ..old(self)@.events[i as int] },
                ));
                proof {
                    lemma_inv_frame(old(self)@, self@);
                }
                return ;
            }
            i += 1;
        }
        proof {
            lemma_first_none(self@.events, event_with_id(id));
        }
    }

    /// The order as it is shown, where it exists and its total fits the amount type.
    pub fn for_display(&self, order_id: Id) -> (r: Option<DisplayOrder>)
        ensures
            opt_view(r) == self@.display(order_id),
    {
        match self.order(order_id) {
            Some(o) => match self.calculate_total(order_id) {
                Some(total) => Some(
                    DisplayOrder {
                        id: o.id,
                        user_id: o.user_id,
                        on_behalf_of_user_id: o.on_behalf_of_user_id,
                        status: o.status,
                        total_in_cents: total,
                        checkout_url: o.checkout_url,
                        items: self.items(order_id),
                    },
                ),
                None => None,
            },
            None => None,
        }
    }
}

} // verus!
