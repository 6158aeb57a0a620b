//! The cart of a user: what it holds, and how requests change it.

use crate::checkout::display_result;
use crate::errors::CheckoutError;
use crate::models::{CartItem, CartItemView, DisplayOrder, DisplayOrderView, Scopes};
use crate::store::OrderStore;
use crate::store_view::{StoreView, lemma_cart_error_frame, lemma_cart_is_order};
use crate::text::Id;
use vstd::prelude::*;

verus! {

/// The body of a request to change a cart.
#[derive(Debug)]
pub struct UpdateCartRequest {
    pub items: Vec<CartItem>,
    /// Whether the lines are sold at the rate of the box office.
    pub box_office_pricing: Option<bool>,
}

/// Whether each identifier is smaller than the next.
pub open spec fn increasing(ids: Seq<Id>) -> bool {
    forall|i: int, j: int| 0 <= i < j < ids.len() ==> ids[i] < ids[j]
}

/// The ticket types that the requests name, in the order of the requests.
pub open spec fn requested_ids(requests: Seq<CartItemView>) -> Seq<Id> {
    requests.map_values(|c: CartItemView| c.ticket_type_id)
}

/// The ticket types that the requests name, each once, in rising order.
pub fn sorted_ticket_type_ids(requests: &Vec<CartItem>) -> (ids: Vec<Id>)
    ensures
        increasing(ids@),
        forall|id: Id| ids@.contains(id) <==> requested_ids(requests@.map_values(|c: CartItem| c@)).contains(id),
{
    let ghost wanted = requested_ids(requests@.map_values(|c: CartItem| c@));
    let mut ids: Vec<Id> = Vec::new();
    let mut k: usize = 0;
    while k < requests.len()
        invariant
            k <= requests.len(),
            wanted == requested_ids(requests@.map_values(|c: CartItem| c@)),
            increasing(ids@),
            forall|id: Id| ids@.contains(id) <==> wanted.take(k as int).contains(id),
        decreases requests.len() - k,
    {
        let id = requests[k].ticket_type_id;
        assert(wanted[k as int] == id);
        let ghost before = ids@;
        let mut p: usize = 0;
        while p < ids.len() && ids[p] < id
            invariant
                p <= ids.len(),
                forall|j: int| 0 <= j < p ==> ids@[j] < id,
            decreases ids.len() - p,
        {
            p += 1;
        }
        if p == ids.len() || ids[p] != id {
            ids.insert(p, id);
            assert(ids@[p as int] == id);
            assert forall|x: Id| ids@.contains(x) <==> (before.contains(x) || x == id) by {
                if before.contains(x) {
                    let j = choose|j: int| 0 <= j < before.len() && before[j] == x;
                    if j < p {
                        assert(ids@[j] == x);
                    } else {
                        assert(ids@[j + 1] == x);
                    }
                }
                if ids@.contains(x) {
                    let j = choose|j: int| 0 <= j < ids@.len() && ids@[j] == x;
                    if j < p {
                        assert(before[j] == x);
                    } else if j > p {
                        assert(before[j - 1] == x);
                    }
                }
            }
        } else {
            assert(before[p as int] == id);
            assert(ids@ == before);
        }
        proof {
            let next = wanted.take(k + 1);
            let seen = wanted.take(k as int);
            assert(forall|x: Id| before.contains(x) <==> seen.contains(x));
            assert(forall|x: Id| ids@.contains(x) <==> (before.contains(x) || x == id));
            assert forall|x: Id| next.contains(x) <==> (seen.contains(x) || x == id) by {
                if seen.contains(x) {
                    let j = choose|j: int| 0 <= j < seen.len() && seen[j] == x;
                    assert(next[j] == x);
                }
                if x == id {
                    assert(next[k as int] == x);
                }
                if next.contains(x) {
                    let j = choose|j: int| 0 <= j < next.len() && next[j] == x;
                    if j < k {
                        assert(seen[j] == x);
                    }
                }
            }
            assert forall|x: Id| ids@.contains(x) <==> next.contains(x) by {
                assert(before.contains(x) <==> seen.contains(x));
            }
        }
        k += 1;
    }
    assert(wanted.take(k as int) =~= wanted);
    ids
}

impl StoreView {
    /// Whether the user may read box office tickets of the organization that owns the ticket type.
    pub open spec fn may_sell_at_box_office(self, user_id: Id, ticket_type_id: Id) -> bool {
        match self.event_of(ticket_type_id) {
            Some(e) => self.has_scope(user_id, e.organization_id, Scopes::BoxOfficeTicketRead),
            None => true,
        }
    }

    /// Whether the user may sell every ticket type named at the rate of the box office.
    pub open spec fn box_office_allowed(self, user_id: Id, requests: Seq<CartItemView>) -> bool {
        forall|k: int|
            0 <= k < requests.len() ==> self.may_sell_at_box_office(
                user_id,
                (#[trigger] requests[k]).ticket_type_id,
            )
    }

    /// What a change to a user's cart comes to. Before anything changes, the
    /// user must be allowed the rate asked for and the cart must accept
    /// every request. Then the user's cart is looked up, or made, and the
    /// requests are applied to it.
    pub open spec fn cart_changed(
        self,
        user_id: Id,
        requests: Seq<CartItemView>,
        box_office_pricing: bool,
        remove_others: bool,
    ) -> (StoreView, Result<DisplayOrderView, CheckoutError>) {
        if box_office_pricing && !self.box_office_allowed(user_id, requests) {
            (self, Err(CheckoutError::MissingScope))
        } else {
            match self.cart_error(requests) {
                Some(e) => (self, Err(e)),
                None => {
                    let s1 = self.with_cart(user_id);
                    let cart_id = s1.cart_of(user_id)->0.id;
                    let s2 = s1.updated(cart_id, requests, box_office_pricing, remove_others);
                    (s2, display_result(s2, cart_id))
                },
            }
        }
    }

    /// What clearing a user's cart of the lines that cannot be bought comes to.
    pub open spec fn cart_cleared(self, user_id: Id) -> (StoreView, Result<DisplayOrderView, CheckoutError>) {
        match self.cart_of(user_id) {
            None => (self, Err(CheckoutError::NoCart)),
            Some(c) => (self.cleared(c.id), display_result(self.cleared(c.id), c.id)),
        }
    }
}

/// Whether the user may sell every ticket type named at the rate of the
/// box office. The ticket types are looked at once each, in rising order.
pub fn box_office_allowed(store: &OrderStore, user_id: Id, requests: &Vec<CartItem>) -> (r: bool)
    ensures
        r == store@.box_office_allowed(user_id, requests@.map_values(|c: CartItem| c@)),
{
    let ghost views = requests@.map_values(|c: CartItem| c@);
    let ids = sorted_ticket_type_ids(requests);
    let mut k: usize = 0;
    while k < ids.len()
        invariant
            k <= ids.len(),
            views == requests@.map_values(|c: CartItem| c@),
            forall|id: Id| ids@.contains(id) <==> requested_ids(views).contains(id),
            forall|j: int| 0 <= j < k ==> store@.may_sell_at_box_office(user_id, #[trigger] ids@[j]),
        decreases ids.len() - k,
    {
        let allowed = match store.event_of(ids[k]) {
            Some(e) => store.has_scope(user_id, e.organization_id, Scopes::BoxOfficeTicketRead),
            None => true,
        };
        if !allowed {
            proof {
                assert(ids@.contains(ids@[k as int]));
                let j = choose|j: int| 0 <= j < requested_ids(views).len() && requested_ids(views)[j] == ids@[k as int];
                assert(views[j].ticket_type_id == ids@[k as int]);
            }
            return false;
        }
        k += 1;
    }
    proof {
        assert forall|j: int| 0 <= j < views.len() implies store@.may_sell_at_box_office(
            user_id,
            (#[trigger] views[j]).ticket_type_id,
        ) by {
            assert(requested_ids(views)[j] == views[j].ticket_type_id);
            assert(requested_ids(views).contains(views[j].ticket_type_id));
            assert(ids@.contains(views[j].ticket_type_id));
        }
    }
    true
}

/// What every change to a cart does once the rate is settled.
fn change_cart(
    store: &mut OrderStore,
    user_id: Id,
    requests: &Vec<CartItem>,
    box_office_pricing: bool,
    remove_others: bool,
) -> (r: Result<DisplayOrder, CheckoutError>)
    requires
        old(store).wf(),
    ensures
        final(store).wf(),
        final(store)@ == old(store)@.cart_changed(
            user_id,
            requests@.map_values(|c: CartItem| c@),
            box_office_pricing,
            remove_others,
        ).0,
        match r {
            Ok(d) => Ok(d@),
            Err(e) => Err(e),
        } == old(store)@.cart_changed(
            user_id,
            requests@.map_values(|c: CartItem| c@),
            box_office_pricing,
            remove_others,
        ).1,
{
    let ghost views = requests@.map_values(|c: CartItem| c@);
    if box_office_pricing && !box_office_allowed(store, user_id, requests) {
        return Err(CheckoutError::MissingScope);
    }
    if let Some(e) = store.cart_error(requests) {
        return Err(e);
    }
    let cart = store.find_or_create_cart(user_id);
    proof {
        lemma_cart_is_order(store@, user_id);
        lemma_cart_error_frame(old(store)@, store@, views);
    }
    let updated = store.update_quantities(cart.id, user_id, requests, box_office_pricing, remove_others);
    assert(updated is Ok);
    show_order(store, cart.id)
}

/// The order as a request returns it.
fn show_order(store: &OrderStore, order_id: Id) -> (r: Result<DisplayOrder, CheckoutError>)
    ensures
        match r {
            Ok(d) => Ok(d@),
            Err(e) => Err(e),
        } == display_result(store@, order_id),
{
    match store.order(order_id) {
        None => Err(CheckoutError::NotFound),
        Some(_) => match store.for_display(order_id) {
            Some(d) => Ok(d),
            None => Err(CheckoutError::TotalOverflow),
        },
    }
}

/// Adds to the user's cart: each request sets the line of its ticket type,
/// and the other lines stay.
///
/// Nothing changes, and no cart is made, unless the user may sell at the
/// rate asked for (`MissingScope`) and every request names a ticket type
/// (`UnknownTicketType`) of a published event (`EventNotPublished`).
pub fn update_cart(store: &mut OrderStore, user_id: Id, request: &UpdateCartRequest) -> (r: Result<
    DisplayOrder,
    CheckoutError,
>)
    requires
        old(store).wf(),
    ensures
        final(store).wf(),
        final(store)@ == old(store)@.cart_changed(
            user_id,
            request.items@.map_values(|c: CartItem| c@),
            request.box_office_pricing == Some(true),
            false,
        ).0,
        match r {
            Ok(d) => Ok(d@),
            Err(e) => Err(e),
        } == old(store)@.cart_changed(
            user_id,
            request.items@.map_values(|c: CartItem| c@),
            request.box_office_pricing == Some(true),
            false,
        ).1,
{
    let box_office_pricing = match request.box_office_pricing {
        Some(b) => b,
        None => false,
    };
    change_cart(store, user_id, &request.items, box_office_pricing, false)
}

/// Replaces the user's cart: each request sets the line of its ticket
/// type, and the lines that no request names are taken out.
///
/// Nothing changes, and no cart is made, unless the user may sell at the
/// rate asked for and every request names a ticket type of a published event.
pub fn replace_cart(store: &mut OrderStore, user_id: Id, request: &UpdateCartRequest) -> (r: Result<
    DisplayOrder,
    CheckoutError,
>)
    requires
        old(store).wf(),
    ensures
        final(store).wf(),
        final(store)@ == old(store)@.cart_changed(
            user_id,
            request.items@.map_values(|c: CartItem| c@),
            request.box_office_pricing == Some(true),
            true,
        ).0,
        match r {
            Ok(d) => Ok(d@),
            Err(e) => Err(e),
        } == old(store)@.cart_changed(
            user_id,
            request.items@.map_values(|c: CartItem| c@),
            request.box_office_pricing == Some(true),
            true,
        ).1,
{
    let box_office_pricing = match request.box_office_pricing {
        Some(b) => b,
        None => false,
    };
    change_cart(store, user_id, &request.items, box_office_pricing, true)
}

/// Empties the user's cart.
pub fn destroy(store: &mut OrderStore, user_id: Id) -> (r: Result<DisplayOrder, CheckoutError>)
    requires
        old(store).wf(),
    ensures
        final(store).wf(),
        final(store)@ == old(store)@.cart_changed(user_id, Seq::empty(), false, true).0,
        match r {
            Ok(d) => Ok(d@),
            Err(e) => Err(e),
        } == old(store)@.cart_changed(user_id, Seq::empty(), false, true).1,
{
    let none: Vec<CartItem> = Vec::new();
    assert(none@.map_values(|c: CartItem| c@) =~= Seq::empty());
    change_cart(store, user_id, &none, false, true)
}

/// The user's cart, if the user has one.
pub fn show(store: &OrderStore, user_id: Id) -> (r: Result<Option<DisplayOrder>, CheckoutError>)
    ensures
        match store@.cart_of(user_id) {
            None => r == Ok::<Option<DisplayOrder>, CheckoutError>(None),
            Some(c) => match display_result(store@, c.id) {
                Ok(d) => r matches Ok(Some(shown)) && shown@ == d,
                Err(e) => r == Err::<Option<DisplayOrder>, CheckoutError>(e),
            },
        },
{
    match store.find_cart_for_user(user_id) {
        None => Ok(None),
        Some(cart) => match show_order(store, cart.id) {
            Ok(d) => Ok(Some(d)),
            Err(e) => Err(e),
        },
    }
}

/// Takes out of the user's cart the lines that cannot be bought any more.
/// A user without a cart is told so (`NoCart`).
pub fn clear_invalid_items(store: &mut OrderStore, user_id: Id) -> (r: Result<DisplayOrder, CheckoutError>)
    requires
        old(store).wf(),
    ensures
        final(store).wf(),
        final(store)@ == old(store)@.cart_cleared(user_id).0,
        match r {
            Ok(d) => Ok(d@),
            Err(e) => Err(e),
        } == old(store)@.cart_cleared(user_id).1,
{
    let cart = match store.find_cart_for_user(user_id) {
        Some(cart) => cart,
        None => {
            return Err(CheckoutError::NoCart);
        },
    };
    proof {
        lemma_cart_is_order(store@, user_id);
    }
    let cleared = store.clear_invalid_items(cart.id, user_id);
    assert(cleared is Ok);
    show_order(store, cart.id)
}

} // verus!
