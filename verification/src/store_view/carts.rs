//! What requests make of the lines of a cart.

use crate::errors::CheckoutError;
use crate::models::{CartItemView, EventStatus, OrderItemView, OrderStatus};
use crate::seqs::{find_where, first_where, lemma_first_is, lemma_first_same};
use crate::store_view::StoreView;
use crate::text::Id;
use vstd::prelude::*;

verus! {

impl StoreView {
    /// Why a cart may not hold tickets of the type, if it may not: the type
    /// is unknown, or its event is missing or still a draft.
    pub open spec fn line_error(self, ticket_type_id: Id) -> Option<CheckoutError> {
        match self.ticket_type(ticket_type_id) {
            None => Some(CheckoutError::UnknownTicketType),
            Some(t) => match self.event(t.event_id) {
                Some(e) => if e.status == EventStatus::Draft {
                    Some(CheckoutError::EventNotPublished)
                } else {
                    None
                },
                None => Some(CheckoutError::EventNotPublished),
            },
        }
    }

    /// The failure of the first request that the cart may not hold.
    pub open spec fn cart_error(self, requests: Seq<CartItemView>) -> Option<CheckoutError> {
        match find_where(requests, self.refused()) {
            Some(c) => self.line_error(c.ticket_type_id),
            None => None,
        }
    }

    pub open spec fn refused(self) -> spec_fn(CartItemView) -> bool {
        |c: CartItemView| self.line_error(c.ticket_type_id) is Some
    }

    /// The line that a request makes in an order, at today's price.
    pub open spec fn priced(self, order_id: Id, request: CartItemView, box_office_pricing: bool) -> OrderItemView {
        let t = self.ticket_type(request.ticket_type_id)->0;
        OrderItemView {
            order_id,
            ticket_type_id: request.ticket_type_id,
            event_id: Some(t.event_id),
            quantity: request.quantity,
            unit_price_in_cents: if box_office_pricing {
                t.box_office_price_in_cents
            } else {
                t.price_in_cents
            },
            redemption_code: request.redemption_code,
        }
    }

    /// The lines after the requests were applied one after the other.
    pub open spec fn upsert_all(
        self,
        items: Seq<OrderItemView>,
        order_id: Id,
        requests: Seq<CartItemView>,
        box_office_pricing: bool,
    ) -> Seq<OrderItemView>
        decreases requests.len(),
    {
        if requests.len() == 0 {
            items
        } else {
            upsert(
                self.upsert_all(items, order_id, requests.drop_last(), box_office_pricing),
                self.priced(order_id, requests.last(), box_office_pricing),
            )
        }
    }

    /// Why the cart cannot be changed, if it cannot: the order is missing, is
    /// another user's or is no draft, or a request is refused.
    pub open spec fn update_error(self, order_id: Id, user_id: Id, requests: Seq<CartItemView>) -> Option<
        CheckoutError,
    > {
        match self.access_error(order_id, user_id) {
            Some(e) => Some(e),
            None => self.cart_error(requests),
        }
    }

    /// Why a user cannot change an order, if the user cannot: the order is
    /// missing, is another user's or is no draft.
    pub open spec fn access_error(self, order_id: Id, user_id: Id) -> Option<CheckoutError> {
        match self.order(order_id) {
            None => Some(CheckoutError::NotFound),
            Some(o) => if o.user_id != user_id {
                Some(CheckoutError::NotOwner)
            } else if o.status != OrderStatus::Draft {
                Some(CheckoutError::NotDraft)
            } else {
                None
            },
        }
    }

    /// The store after the requests were applied to the cart. With
    /// `remove_others`, the lines of ticket types that no request names are
    /// taken out first. The change is counted in the version of the order.
    pub open spec fn updated(
        self,
        order_id: Id,
        requests: Seq<CartItemView>,
        box_office_pricing: bool,
        remove_others: bool,
    ) -> StoreView {
        let base = if remove_others {
            retain(self.items, named_or_foreign(order_id, requests))
        } else {
            self.items
        };
        StoreView { items: self.upsert_all(base, order_id, requests, box_office_pricing), ..self }.touched(
            order_id,
        )
    }

    /// Whether a line stays when the lines that cannot be bought are cleared.
    pub open spec fn buyable_or_foreign(self, order_id: Id) -> spec_fn(OrderItemView) -> bool {
        |i: OrderItemView| i.order_id != order_id || self.purchasable(i.ticket_type_id)
    }

    /// The store after the lines of the order that cannot be bought any more were taken out.
    pub open spec fn cleared(self, order_id: Id) -> StoreView {
        StoreView { items: retain(self.items, self.buyable_or_foreign(order_id)), ..self }.touched(order_id)
    }
}

pub open spec fn item_of(order_id: Id, ticket_type_id: Id) -> spec_fn(OrderItemView) -> bool {
    |i: OrderItemView| i.order_id == order_id && i.ticket_type_id == ticket_type_id
}

/// Whether some request names the ticket type.
pub open spec fn names(requests: Seq<CartItemView>, ticket_type_id: Id) -> bool {
    exists|k: int| 0 <= k < requests.len() && (#[trigger] requests[k]).ticket_type_id == ticket_type_id
}

/// Whether a line stays when a cart is replaced: it is of another order, or a request names its ticket type.
pub open spec fn named_or_foreign(order_id: Id, requests: Seq<CartItemView>) -> spec_fn(OrderItemView) -> bool {
    |i: OrderItemView| i.order_id != order_id || names(requests, i.ticket_type_id)
}

/// The elements of `items` that meet `keep`, in their order.
pub open spec fn retain(items: Seq<OrderItemView>, keep: spec_fn(OrderItemView) -> bool) -> Seq<OrderItemView>
    decreases items.len(),
{
    if items.len() == 0 {
        Seq::empty()
    } else {
        let rest = retain(items.drop_last(), keep);
        if keep(items.last()) {
            rest.push(items.last())
        } else {
            rest
        }
    }
}

/// The lines with one line set: the line of the same order and ticket type
/// is replaced, or taken out where the quantity is zero; a line that is new
/// is added, unless its quantity is zero.
pub open spec fn upsert(items: Seq<OrderItemView>, line: OrderItemView) -> Seq<OrderItemView> {
    match first_where(items, item_of(line.order_id, line.ticket_type_id)) {
        Some(i) => if line.quantity == 0 {
            items.remove(i)
        } else {
            items.update(i, line)
        },
        None => if line.quantity == 0 {
            items
        } else {
            items.push(line)
        },
    }
}

/// No two lines are of the same order and ticket type.
pub open spec fn unique_lines(items: Seq<OrderItemView>) -> bool {
    forall|i: int, j: int|
        0 <= i < j < items.len() && (#[trigger] items[i]).order_id == (#[trigger] items[j]).order_id
            ==> items[i].ticket_type_id != items[j].ticket_type_id
}

/// Setting a line leaves at most one line per order and ticket type.
pub proof fn lemma_upsert_unique(items: Seq<OrderItemView>, line: OrderItemView)
    requires
        unique_lines(items),
    ensures
        unique_lines(upsert(items, line)),
{
    lemma_first_is(items, item_of(line.order_id, line.ticket_type_id));
    let next = upsert(items, line);
    assert forall|i: int, j: int|
        0 <= i < j < next.len() && (#[trigger] next[i]).order_id == (#[trigger] next[j]).order_id implies next[i].ticket_type_id
        != next[j].ticket_type_id by {
        match first_where(items, item_of(line.order_id, line.ticket_type_id)) {
            Some(k) => {
                if line.quantity == 0 {
                    let a = if i < k { i } else { i + 1 };
                    let b = if j < k { j } else { j + 1 };
                    assert(next[i] == items[a]);
                    assert(next[j] == items[b]);
                } else {
                    assert(next[i].order_id == items[i].order_id);
                    assert(next[j].order_id == items[j].order_id);
                    assert(next[i].ticket_type_id == items[i].ticket_type_id);
                    assert(next[j].ticket_type_id == items[j].ticket_type_id);
                }
            },
            None => {
                if line.quantity != 0 {
                    assert(next[i] == items[i]);
                    if j < items.len() {
                        assert(next[j] == items[j]);
                    } else {
                        assert(!item_of(line.order_id, line.ticket_type_id)(items[i]));
                    }
                }
            },
        }
    }
}

/// What is kept of a list is part of the list, and keeps its order.
pub proof fn lemma_retain(items: Seq<OrderItemView>, keep: spec_fn(OrderItemView) -> bool)
    ensures
        forall|a: int|
            0 <= a < retain(items, keep).len() ==> exists|i: int|
                0 <= i < items.len() && items[i] == #[trigger] retain(items, keep)[a],
        unique_lines(items) ==> unique_lines(retain(items, keep)),
    decreases items.len(),
{
    if items.len() > 0 {
        let front = items.drop_last();
        lemma_retain(front, keep);
        let rest = retain(front, keep);
        let kept = retain(items, keep);
        assert forall|a: int| 0 <= a < kept.len() implies exists|i: int|
            0 <= i < items.len() && items[i] == #[trigger] kept[a] by {
            if a < rest.len() {
                let i = choose|i: int| 0 <= i < front.len() && front[i] == rest[a];
                assert(items[i] == kept[a]);
            } else {
                assert(items[items.len() - 1] == kept[a]);
            }
        }
        if unique_lines(items) {
            assert(unique_lines(front)) by {
                assert forall|i: int, j: int|
                    0 <= i < j < front.len() && (#[trigger] front[i]).order_id == (
                    #[trigger] front[j]).order_id implies front[i].ticket_type_id
                    != front[j].ticket_type_id by {
                    assert(items[i] == front[i] && items[j] == front[j]);
                }
            }
            assert forall|a: int, b: int|
                0 <= a < b < kept.len() && (#[trigger] kept[a]).order_id == (#[trigger] kept[b]).order_id implies kept[a].ticket_type_id
                != kept[b].ticket_type_id by {
                if b < rest.len() {
                    assert(kept[a] == rest[a] && kept[b] == rest[b]);
                } else {
                    let i = choose|i: int| 0 <= i < front.len() && front[i] == rest[a];
                    assert(items[i] == kept[a]);
                    assert(items[items.len() - 1] == kept[b]);
                }
            }
        }
    }
}

/// Other lines keep the store in order as long as no two are of the same order and ticket type.
pub proof fn lemma_items_inv(s: StoreView, items: Seq<OrderItemView>)
    requires
        s.inv(),
        unique_lines(items),
    ensures
        (StoreView { items, ..s }).inv(),
{
    let t = StoreView { items, ..s };
    assert(t.identified() == s.identified());
}

/// Applying requests leaves at most one line per order and ticket type.
pub proof fn lemma_upsert_all_unique(
    s: StoreView,
    items: Seq<OrderItemView>,
    order_id: Id,
    requests: Seq<CartItemView>,
    box_office_pricing: bool,
)
    requires
        unique_lines(items),
    ensures
        unique_lines(s.upsert_all(items, order_id, requests, box_office_pricing)),
    decreases requests.len(),
{
    if requests.len() > 0 {
        lemma_upsert_all_unique(s, items, order_id, requests.drop_last(), box_office_pricing);
        lemma_upsert_unique(
            s.upsert_all(items, order_id, requests.drop_last(), box_office_pricing),
            s.priced(order_id, requests.last(), box_office_pricing),
        );
    }
}

/// Which requests a cart refuses depends on the ticket types and events alone.
pub proof fn lemma_cart_error_frame(s: StoreView, t: StoreView, requests: Seq<CartItemView>)
    requires
        s.ticket_types == t.ticket_types,
        s.events == t.events,
    ensures
        s.cart_error(requests) == t.cart_error(requests),
{
    assert forall|j: int| 0 <= j < requests.len() implies #[trigger] s.refused()(requests[j]) == t.refused()(
        requests[j],
    ) by {}
    lemma_first_same(requests, s.refused(), t.refused());
}

} // verus!
