//! What is on sale, what an order holds and adds up to, and the tokens held for it.

use crate::models::{AssetTokens, Event, EventStatus, OrderItem, Scopes, TicketType, TicketTypeStatus};
use crate::seqs::{at, first_where, lemma_first_found, lemma_first_none};
use crate::store::OrderStore;
use crate::store_view::{
    asset_with_id, distinct_assets, event_with_id, grant_is, group_of, group_token, item_with_event,
    lemma_transfers_distinct, lines_of, opt_view, ticket_type_with_id, total_of, transfers_of,
};
use crate::text::{Id, copy_opt, opt_text};
use vstd::prelude::*;

verus! {

/// The place of the group of an asset.
fn group_index(groups: &Vec<AssetTokens>, asset_id: Id) -> (r: Option<usize>)
    ensures
        at(r) == first_where(groups@.map_values(|g: AssetTokens| g@), group_of(asset_id)),
        r matches Some(i) ==> i < groups.len(),
{
    let ghost views = groups@.map_values(|g: AssetTokens| g@);
    let mut k: usize = 0;
    while k < groups.len()
        invariant
            k <= groups.len(),
            views == groups@.map_values(|g: AssetTokens| g@),
            forall|j: int| 0 <= j < k ==> !#[trigger] group_of(asset_id)(views[j]),
        decreases groups.len() - k,
    {
        if groups[k].asset_id == asset_id {
            proof {
                lemma_first_found(views, group_of(asset_id), k as int);
            }
            return Some(k);
        }
        k += 1;
    }
    proof {
        lemma_first_none(views, group_of(asset_id));
    }
    None
}

impl OrderStore {
    /// The lines of an order.
    pub fn items(&self, order_id: Id) -> (lines: Vec<OrderItem>)
        ensures
            lines@.map_values(|i: OrderItem| i@) == self@.items_of(order_id),
    {
        let mut lines: Vec<OrderItem> = Vec::new();
        let mut i: usize = 0;
        assert(self@.items.take(0) =~= Seq::empty());
        while i < self.items.len()
            invariant
                i <= self.items.len(),
                lines@.map_values(|i: OrderItem| i@) =~= lines_of(self@.items.take(i as int), order_id),
            decreases self.items.len() - i,
        {
            assert(self@.items.take(i + 1).drop_last() =~= self@.items.take(i as int));
            if self.items[i].order_id == order_id {
                lines.push(self.items[i].copy());
            }
            i += 1;
        }
        assert(self@.items.take(i as int) =~= self@.items);
        lines
    }

    /// The total of an order in cents, where it fits the amount type.
    pub fn calculate_total(&self, order_id: Id) -> (total: Option<i64>)
        ensures
            total == if self@.total(order_id) <= i64::MAX {
                Some(self@.total(order_id) as i64)
            } else {
                None
            },
            self@.total(order_id) >= 0,
    {
        let mut sum: u128 = 0;
        let mut i: usize = 0;
        assert(self@.items.take(0) =~= Seq::empty());
        while i < self.items.len()
            invariant
                i <= self.items.len(),
                sum == total_of(self@.items.take(i as int), order_id),
                sum <= i * 0xffff_ffff_ffff_ffff,
            decreases self.items.len() - i,
        {
            assert(self@.items.take(i + 1).drop_last() =~= self@.items.take(i as int));
            if self.items[i].order_id == order_id {
                let quantity = self.items[i].quantity as u64;
                let price = self.items[i].unit_price_in_cents as u64;
                assert(quantity * price <= 0xffff_ffff_ffff_ffff) by (nonlinear_arith)
                    requires
                        quantity <= 0xffff_ffff,
                        price <= 0xffff_ffff,
                ;
                sum = sum + (quantity * price) as u128;
            }
            i += 1;
        }
        assert(self@.items.take(i as int) =~= self@.items);
        if sum <= 0x7fff_ffff_ffff_ffff {
            Some(sum as i64)
        } else {
            None
        }
    }

    /// The event with the identifier.
    pub fn event(&self, id: Id) -> (r: Option<Event>)
        ensures
            opt_view(r) == self@.event(id),
    {
        let mut i: usize = 0;
        while i < self.events.len()
            invariant
                i <= self.events.len(),
                forall|j: int| 0 <= j < i ==> !#[trigger] event_with_id(id)(self@.events[j]),
            decreases self.events.len() - i,
        {
            if self.events[i].id == id {
                proof {
                    lemma_first_found(self@.events, event_with_id(id), i as int);
                }
                return Some(self.events[i].copy());
            }
            i += 1;
        }
        proof {
            lemma_first_none(self@.events, event_with_id(id));
        }
        None
    }

    pub(super) fn ticket_type_index(&self, id: Id) -> (r: Option<usize>)
        ensures
            at(r) == first_where(self@.ticket_types, ticket_type_with_id(id)),
            r matches Some(i) ==> i < self.ticket_types.len(),
    {
        let mut i: usize = 0;
        while i < self.ticket_types.len()
            invariant
                i <= self.ticket_types.len(),
                forall|j: int| 0 <= j < i ==> !#[trigger] ticket_type_with_id(id)(self@.ticket_types[j]),
            decreases self.ticket_types.len() - i,
        {
            if self.ticket_types[i].id == id {
                proof {
                    lemma_first_found(self@.ticket_types, ticket_type_with_id(id), i as int);
                }
                return Some(i);
            }
            i += 1;
        }
        proof {
            lemma_first_none(self@.ticket_types, ticket_type_with_id(id));
        }
        None
    }

    /// The ticket type with the identifier.
    pub fn ticket_type(&self, id: Id) -> (r: Option<TicketType>)
        ensures
            r == self@.ticket_type(id),
    {
        match self.ticket_type_index(id) {
            Some(i) => Some(self.ticket_types[i]),
            None => None,
        }
    }

    /// The event that a ticket type belongs to.
    pub fn event_of(&self, ticket_type_id: Id) -> (r: Option<Event>)
        ensures
            opt_view(r) == self@.event_of(ticket_type_id),
    {
        match self.ticket_type(ticket_type_id) {
            Some(t) => self.event(t.event_id),
            None => None,
        }
    }

    /// Whether tickets of the type can be bought now.
    pub fn purchasable(&self, ticket_type_id: Id) -> (r: bool)
        ensures
            r == self@.purchasable(ticket_type_id),
    {
        match self.ticket_type(ticket_type_id) {
            Some(t) => match t.status {
                TicketTypeStatus::OnSale => match self.event(t.event_id) {
                    Some(e) => e.status == EventStatus::Published,
                    None => false,
                },
                _ => false,
            },
            None => false,
        }
    }

    /// Whether every line of the order can still be bought.
    pub fn items_valid_for_purchase(&self, order_id: Id) -> (valid: bool)
        ensures
            valid == self@.items_valid(order_id),
    {
        let mut i: usize = 0;
        while i < self.items.len()
            invariant
                i <= self.items.len(),
                forall|j: int|
                    0 <= j < i && (#[trigger] self@.items[j]).order_id == order_id ==> self@.purchasable(
                        self@.items[j].ticket_type_id,
                    ),
            decreases self.items.len() - i,
        {
            if self.items[i].order_id == order_id && !self.purchasable(self.items[i].ticket_type_id) {
                assert(self@.items[i as int].order_id == order_id);
                return false;
            }
            i += 1;
        }
        true
    }

    /// The event of the first line of the order that has one.
    pub fn main_event_id(&self, order_id: Id) -> (r: Option<Id>)
        ensures
            r == self@.main_event(order_id),
    {
        let mut i: usize = 0;
        while i < self.items.len()
            invariant
                i <= self.items.len(),
                forall|j: int| 0 <= j < i ==> !#[trigger] item_with_event(order_id)(self@.items[j]),
            decreases self.items.len() - i,
        {
            if self.items[i].order_id == order_id && self.items[i].event_id.is_some() {
                proof {
                    lemma_first_found(self@.items, item_with_event(order_id), i as int);
                }
                return self.items[i].event_id;
            }
            i += 1;
        }
        proof {
            lemma_first_none(self@.items, item_with_event(order_id));
        }
        None
    }

    /// Whether a user holds a capability on an organization.
    pub fn has_scope(&self, user_id: Id, organization_id: Id, scope: Scopes) -> (r: bool)
        ensures
            r == self@.has_scope(user_id, organization_id, scope),
    {
        let mut i: usize = 0;
        while i < self.grants.len()
            invariant
                i <= self.grants.len(),
                forall|j: int|
                    0 <= j < i ==> !#[trigger] grant_is(user_id, organization_id, scope)(self@.grants[j]),
            decreases self.grants.len() - i,
        {
            let g = self.grants[i];
            if g.user_id == user_id && g.organization_id == organization_id && g.scope == scope {
                assert(grant_is(user_id, organization_id, scope)(self@.grants[i as int]));
                return true;
            }
            i += 1;
        }
        false
    }

    /// The tokens held for an order, one group per asset.
    pub fn transfers(&self, order_id: Id) -> (groups: Vec<AssetTokens>)
        ensures
            groups@.map_values(|g: AssetTokens| g@) == self@.transfers(order_id),
            distinct_assets(self@.transfers(order_id)),
    {
        proof {
            lemma_transfers_distinct(self@.tickets, order_id);
        }
        let mut groups: Vec<AssetTokens> = Vec::new();
        let mut i: usize = 0;
        assert(self@.tickets.take(0) =~= Seq::empty());
        while i < self.tickets.len()
            invariant
                i <= self.tickets.len(),
                groups@.map_values(|g: AssetTokens| g@) =~= transfers_of(self@.tickets.take(i as int), order_id),
            decreases self.tickets.len() - i,
        {
            assert(self@.tickets.take(i + 1).drop_last() =~= self@.tickets.take(i as int));
            let ticket = self.tickets[i];
            if ticket.order_id == Some(order_id) {
                let ghost before = groups@.map_values(|g: AssetTokens| g@);
                let found = group_index(&groups, ticket.asset_id);
                match found {
                    Some(x) => {
                        groups[x].token_ids.push(ticket.token_id);
                        assert(groups@.map_values(|g: AssetTokens| g@) =~= group_token(before, ticket));
                    },
                    None => {
                        let mut token_ids: Vec<u64> = Vec::new();
                        token_ids.push(ticket.token_id);
                        assert(token_ids@ =~= seq![ticket.token_id]);
                        groups.push(
                            AssetTokens { asset_id: ticket.asset_id, wallet_id: ticket.wallet_id, token_ids },
                        );
                        assert(groups@.map_values(|g: AssetTokens| g@) =~= group_token(before, ticket));
                    },
                }
            }
            i += 1;
        }
        assert(self@.tickets.take(i as int) =~= self@.tickets);
        groups
    }

    fn asset_index(&self, id: Id) -> (r: Option<usize>)
        ensures
            at(r) == first_where(self@.assets, asset_with_id(id)),
            r matches Some(i) ==> i < self.assets.len(),
    {
        let mut i: usize = 0;
        while i < self.assets.len()
            invariant
                i <= self.assets.len(),
                forall|j: int| 0 <= j < i ==> !#[trigger] asset_with_id(id)(self@.assets[j]),
            decreases self.assets.len() - i,
        {
            if self.assets[i].id == id {
                proof {
                    lemma_first_found(self@.assets, asset_with_id(id), i as int);
                }
                return Some(i);
            }
            i += 1;
        }
        proof {
            lemma_first_none(self@.assets, asset_with_id(id));
        }
        None
    }

    /// The identifier that an asset has on the ledger, where the asset
    /// exists and has one.
    pub fn ledger_asset_id(&self, asset_id: Id) -> (r: Option<String>)
        ensures
            opt_text(r) == match self@.asset(asset_id) {
                Some(a) => a.blockchain_asset_id,
                None => None,
            },
            r is Some == self@.on_ledger(asset_id),
    {
        match self.asset_index(asset_id) {
            Some(i) => copy_opt(&self.assets[i].blockchain_asset_id),
            None => None,
        }
    }

    /// Whether every asset of the list has an identifier on the ledger.
    pub fn assets_on_ledger(&self, groups: &Vec<AssetTokens>) -> (r: bool)
        ensures
            r == self@.all_on_ledger(groups@.map_values(|g: AssetTokens| g@)),
    {
        let ghost views = groups@.map_values(|g: AssetTokens| g@);
        let mut i: usize = 0;
        while i < groups.len()
            invariant
                i <= groups.len(),
                views == groups@.map_values(|g: AssetTokens| g@),
                forall|j: int| 0 <= j < i ==> self@.on_ledger((#[trigger] views[j]).asset_id),
            decreases groups.len() - i,
        {
            match self.asset_index(groups[i].asset_id) {
                Some(k) => {
                    if self.assets[k].blockchain_asset_id.is_none() {
                        assert(!self@.on_ledger(views[i as int].asset_id));
                        return false;
                    }
                },
                None => {
                    assert(!self@.on_ledger(views[i as int].asset_id));
                    return false;
                },
            }
            i += 1;
        }
        true
    }
}

} // verus!
