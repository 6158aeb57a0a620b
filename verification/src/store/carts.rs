//! Changing the lines of a cart.

use crate::errors::CheckoutError;
use crate::models::{CartItem, EventStatus, OrderItem, OrderStatus};
use crate::seqs::{at, first_where, lemma_first_found, lemma_first_none};
use crate::store::OrderStore;
use crate::store_view::{
    StoreView, item_of, lemma_items_inv, lemma_retain, lemma_upsert_all_unique, named_or_foreign, names,
    retain, upsert,
};
use crate::text::{Id, copy_opt};
use vstd::prelude::*;

verus! {

/// Whether some request names the ticket type.
fn is_named(requests: &Vec<CartItem>, ticket_type_id: Id) -> (r: bool)
    ensures
        r == names(requests@.map_values(|c: CartItem| c@), ticket_type_id),
{
    let ghost views = requests@.map_values(|c: CartItem| c@);
    let mut k: usize = 0;
    while k < requests.len()
        invariant
            k <= requests.len(),
            views == requests@.map_values(|c: CartItem| c@),
            forall|j: int| 0 <= j < k ==> (#[trigger] views[j]).ticket_type_id != ticket_type_id,
        decreases requests.len() - k,
    {
        if requests[k].ticket_type_id == ticket_type_id {
            assert(views[k as int].ticket_type_id == ticket_type_id);
            return true;
        }
        k += 1;
    }
    false
}

impl OrderStore {
    /// Why a user cannot change an order, if the user cannot.
    pub fn access_error(&self, order_id: Id, user_id: Id) -> (r: Option<CheckoutError>)
        ensures
            r == self@.access_error(order_id, user_id),
    {
        match self.order_index(order_id) {
            None => Some(CheckoutError::NotFound),
            Some(i) => if self.orders[i].user_id != user_id {
                Some(CheckoutError::NotOwner)
            } else {
                match self.orders[i].status {
                    OrderStatus::Draft => None,
                    _ => Some(CheckoutError::NotDraft),
                }
            },
        }
    }

    /// Why a cart may not hold tickets of the type, if it may not.
    pub fn line_error(&self, ticket_type_id: Id) -> (r: Option<CheckoutError>)
        ensures
            r == self@.line_error(ticket_type_id),
    {
        match self.ticket_type(ticket_type_id) {
            None => Some(CheckoutError::UnknownTicketType),
            Some(t) => match self.event(t.event_id) {
                Some(e) => match e.status {
                    EventStatus::Draft => Some(CheckoutError::EventNotPublished),
                    _ => None,
                },
                None => Some(CheckoutError::EventNotPublished),
            },
        }
    }

    /// The failure of the first request that the cart may not hold.
    pub fn cart_error(&self, requests: &Vec<CartItem>) -> (r: Option<CheckoutError>)
        ensures
            r == self@.cart_error(requests@.map_values(|c: CartItem| c@)),
            r is None ==> forall|k: int|
                0 <= k < requests.len() ==> self@.line_error((#[trigger] requests[k]).ticket_type_id) is None,
    {
        let ghost views = requests@.map_values(|c: CartItem| c@);
        let mut k: usize = 0;
        while k < requests.len()
            invariant
                k <= requests.len(),
                views == requests@.map_values(|c: CartItem| c@),
                forall|j: int| 0 <= j < k ==> !#[trigger] self@.refused()(views[j]),
            decreases requests.len() - k,
        {
            let e = self.line_error(requests[k].ticket_type_id);
            if e.is_some() {
                proof {
                    lemma_first_found(views, self@.refused(), k as int);
                }
                return e;
            }
            k += 1;
        }
        proof {
            lemma_first_none(views, self@.refused());
            assert forall|k: int| 0 <= k < requests.len() implies self@.line_error(
                (#[trigger] requests[k]).ticket_type_id,
            ) is None by {
                assert(!self@.refused()(views[k]));
            }
        }
        None
    }

    fn item_index(&self, order_id: Id, ticket_type_id: Id) -> (r: Option<usize>)
        ensures
            at(r) == first_where(self@.items, item_of(order_id, ticket_type_id)),
            r matches Some(i) ==> i < self.items.len(),
    {
        let mut i: usize = 0;
        while i < self.items.len()
            invariant
                i <= self.items.len(),
                forall|j: int| 0 <= j < i ==> !#[trigger] item_of(order_id, ticket_type_id)(self@.items[j]),
            decreases self.items.len() - i,
        {
            if self.items[i].order_id == order_id && self.items[i].ticket_type_id == ticket_type_id {
                proof {
                    lemma_first_found(self@.items, item_of(order_id, ticket_type_id), i as int);
                }
                return Some(i);
            }
            i += 1;
        }
        proof {
            lemma_first_none(self@.items, item_of(order_id, ticket_type_id));
        }
        None
    }

    /// Sets one line.
    fn set_line(&mut self, line: OrderItem)
        ensures
            final(self)@ == (StoreView { items: upsert(old(self)@.items, line@), ..old(self)@ }),
    {
        let ghost v = line@;
        match self.item_index(line.order_id, line.ticket_type_id) {
            Some(i) => {
                if line.quantity == 0 {
                    self.items.remove(i);
                    assert(self@.items =~= old(self)@.items.remove(i as int));
                } else {
                    self.items[i] = line;
                    assert(self@.items =~= old(self)@.items.update(i as int, v));
                }
            },
            None => {
                if line.quantity != 0 {
                    self.items.push(line);
                    assert(self@.items =~= old(self)@.items.push(v));
                }
            },
        }
    }

    /// Takes out the lines of the order whose ticket type no request names.
    fn retain_named(&mut self, order_id: Id, requests: &Vec<CartItem>)
        ensures
            final(self)@ == (StoreView {
                items: retain(
                    old(self)@.items,
                    named_or_foreign(order_id, requests@.map_values(|c: CartItem| c@)),
                ),
                ..old(self)@
            }),
    {
        let ghost keep = named_or_foreign(order_id, requests@.map_values(|c: CartItem| c@));
        let mut kept: Vec<OrderItem> = Vec::new();
        let mut i: usize = 0;
        assert(self@.items.take(0) =~= Seq::empty());
        while i < self.items.len()
            invariant
                i <= self.items.len(),
                *self == *old(self),
                keep == named_or_foreign(order_id, requests@.map_values(|c: CartItem| c@)),
                kept@.map_values(|i: OrderItem| i@) =~= retain(self@.items.take(i as int), keep),
            decreases self.items.len() - i,
        {
            assert(self@.items.take(i + 1).drop_last() =~= self@.items.take(i as int));
            if self.items[i].order_id != order_id || is_named(requests, self.items[i].ticket_type_id) {
                kept.push(self.items[i].copy());
            }
            i += 1;
        }
        assert(self@.items.take(i as int) =~= self@.items);
        self.items = kept;
    }

    /// Applies requests to a cart: each sets the line of its ticket type, at
    /// today's price, and a quantity of zero takes the line out. With
    /// `remove_others`, the lines that no request names are taken out too.
    /// Nothing changes unless the order is the user's draft and every
    /// request names a ticket type of a published event.
    pub fn update_quantities(
        &mut self,
        order_id: Id,
        user_id: Id,
        requests: &Vec<CartItem>,
        box_office_pricing: bool,
        remove_others: bool,
    ) -> (r: Result<(), CheckoutError>)
        requires
            old(self).wf(),
        ensures
            final(self).wf(),
            r == match old(self)@.update_error(order_id, user_id, requests@.map_values(|c: CartItem| c@)) {
                Some(e) => Err::<(), CheckoutError>(e),
                None => Ok(()),
            },
            final(self)@ == if r is Ok {
                old(self)@.updated(
                    order_id,
                    requests@.map_values(|c: CartItem| c@),
                    box_office_pricing,
                    remove_others,
                )
            } else {
                old(self)@
            },
    {
        let ghost views = requests@.map_values(|c: CartItem| c@);
        let ghost s0 = self@;
        if let Some(e) = self.access_error(order_id, user_id) {
            return Err(e);
        }
        if let Some(e) = self.cart_error(requests) {
            return Err(e);
        }
        if remove_others {
            self.retain_named(order_id, requests);
        }
        let ghost base = self@.items;
        proof {
            lemma_retain(s0.items, named_or_foreign(order_id, views));
        }
        let mut k: usize = 0;
        assert(views.take(0) =~= Seq::empty());
        while k < requests.len()
            invariant
                k <= requests.len(),
                views == requests@.map_values(|c: CartItem| c@),
                s0.inv(),
                forall|j: int|
                    0 <= j < requests.len() ==> s0.line_error((#[trigger] requests[j]).ticket_type_id) is None,
                self@ == (StoreView {
                    items: s0.upsert_all(base, order_id, views.take(k as int), box_office_pricing),
                    ..s0
                }),
            decreases requests.len() - k,
        {
            assert(views.take(k + 1).drop_last() =~= views.take(k as int));
            let request = &requests[k];
            match self.ticket_type(request.ticket_type_id) {
                Some(t) => {
                    let line = OrderItem {
                        order_id,
                        ticket_type_id: request.ticket_type_id,
                        event_id: Some(t.event_id),
                        quantity: request.quantity,
                        unit_price_in_cents: if box_office_pricing {
                            t.box_office_price_in_cents
                        } else {
                            t.price_in_cents
                        },
                        redemption_code: copy_opt(&request.redemption_code),
                    };
                    assert(line@ == s0.priced(order_id, views[k as int], box_office_pricing));
                    self.set_line(line);
                },
                None => {
                    assert(false);
                },
            }
            k += 1;
        }
        assert(views.take(k as int) =~= views);
        proof {
            lemma_upsert_all_unique(s0, base, order_id, views, box_office_pricing);
            lemma_items_inv(s0, self@.items);
        }
        self.touch(order_id);
        Ok(())
    }

    /// Takes out of the user's draft the lines that cannot be bought any more.
    pub fn clear_invalid_items(&mut self, order_id: Id, user_id: Id) -> (r: Result<(), CheckoutError>)
        requires
            old(self).wf(),
        ensures
            final(self).wf(),
            r == match old(self)@.access_error(order_id, user_id) {
                Some(e) => Err::<(), CheckoutError>(e),
                None => Ok(()),
            },
            final(self)@ == if r is Ok {
                old(self)@.cleared(order_id)
            } else {
                old(self)@
            },
    {
        if let Some(e) = self.access_error(order_id, user_id) {
            return Err(e);
        }
        let ghost keep = self@.buyable_or_foreign(order_id);
        let mut kept: Vec<OrderItem> = Vec::new();
        let mut i: usize = 0;
        assert(self@.items.take(0) =~= Seq::empty());
        while i < self.items.len()
            invariant
                i <= self.items.len(),
                *self == *old(self),
                keep == self@.buyable_or_foreign(order_id),
                kept@.map_values(|i: OrderItem| i@) =~= retain(self@.items.take(i as int), keep),
            decreases self.items.len() - i,
        {
            assert(self@.items.take(i + 1).drop_last() =~= self@.items.take(i as int));
            if self.items[i].order_id != order_id || self.purchasable(self.items[i].ticket_type_id) {
                kept.push(self.items[i].copy());
            }
            i += 1;
        }
        assert(self@.items.take(i as int) =~= self@.items);
        self.items = kept;
        proof {
            lemma_retain(old(self)@.items, keep);
            lemma_items_inv(old(self)@, self@.items);
        }
        self.touch(order_id);
        Ok(())
    }
}

} // verus!
