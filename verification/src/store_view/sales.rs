//! What is on sale, what an order holds and adds up to, and the tokens held for it.

use crate::models::{
    AssetTokensView, AssetView, DisplayOrderView, EventStatus, EventView, OrderItemView, TicketInstance,
    TicketType, TicketTypeStatus,
};
use crate::seqs::{find_where, first_where, lemma_first_is};
use crate::store_view::StoreView;
use crate::text::Id;
use vstd::prelude::*;

verus! {

impl StoreView {
    pub open spec fn event(self, id: Id) -> Option<EventView> {
        find_where(self.events, event_with_id(id))
    }

    pub open spec fn ticket_type(self, id: Id) -> Option<TicketType> {
        find_where(self.ticket_types, ticket_type_with_id(id))
    }

    pub open spec fn asset(self, id: Id) -> Option<AssetView> {
        find_where(self.assets, asset_with_id(id))
    }

    /// The event that a ticket type belongs to.
    pub open spec fn event_of(self, ticket_type_id: Id) -> Option<EventView> {
        match self.ticket_type(ticket_type_id) {
            Some(t) => self.event(t.event_id),
            None => None,
        }
    }

    /// The lines of an order, in the order in which the store holds them.
    pub open spec fn items_of(self, order_id: Id) -> Seq<OrderItemView> {
        lines_of(self.items, order_id)
    }

    /// What the lines of an order add up to, in cents.
    pub open spec fn total(self, order_id: Id) -> int {
        total_of(self.items, order_id)
    }

    /// Whether tickets of the type can be bought now: the type is on sale
    /// and its event is published.
    pub open spec fn purchasable(self, ticket_type_id: Id) -> bool {
        &&& self.ticket_type(ticket_type_id) matches Some(t)
        &&& t.status == TicketTypeStatus::OnSale
        &&& self.event(t.event_id) matches Some(e)
        &&& e.status == EventStatus::Published
    }

    /// Whether every line of the order can still be bought.
    pub open spec fn items_valid(self, order_id: Id) -> bool {
        forall|i: int|
            0 <= i < self.items.len() && (#[trigger] self.items[i]).order_id == order_id
                ==> self.purchasable(self.items[i].ticket_type_id)
    }

    /// The event of the first line of the order that has one.
    pub open spec fn main_event(self, order_id: Id) -> Option<Id> {
        match find_where(self.items, item_with_event(order_id)) {
            Some(i) => i.event_id,
            None => None,
        }
    }

    /// The tokens held for an order, by asset.
    pub open spec fn transfers(self, order_id: Id) -> Seq<AssetTokensView> {
        transfers_of(self.tickets, order_id)
    }

    /// Whether the asset has an identifier on the ledger.
    pub open spec fn on_ledger(self, asset_id: Id) -> bool {
        self.asset(asset_id) matches Some(a) && a.blockchain_asset_id is Some
    }

    /// Whether every asset of the list has an identifier on the ledger.
    pub open spec fn all_on_ledger(self, groups: Seq<AssetTokensView>) -> bool {
        forall|i: int| 0 <= i < groups.len() ==> self.on_ledger((#[trigger] groups[i]).asset_id)
    }

    /// The order as it is shown, where it exists and its total fits the amount type.
    pub open spec fn display(self, order_id: Id) -> Option<DisplayOrderView> {
        match self.order(order_id) {
            Some(o) => if self.total(order_id) <= i64::MAX {
                Some(
                    DisplayOrderView {
                        id: o.id,
                        user_id: o.user_id,
                        on_behalf_of_user_id: o.on_behalf_of_user_id,
                        status: o.status,
                        total_in_cents: self.total(order_id) as i64,
                        checkout_url: o.checkout_url,
                        items: self.items_of(order_id),
                    },
                )
            } else {
                None
            },
            None => None,
        }
    }

    /// The store after the sale of a ticket type was opened or closed.
    pub open spec fn with_ticket_type_status(self, id: Id, status: TicketTypeStatus) -> StoreView {
        match first_where(self.ticket_types, ticket_type_with_id(id)) {
            Some(i) => StoreView {
                ticket_types: self.ticket_types.update(i, TicketType { status, ..self.ticket_types[i] }),
                ..self
            },
            None => self,
        }
    }

    /// The store after an event moved to another state.
    pub open spec fn with_event_status(self, id: Id, status: EventStatus) -> StoreView {
        match first_where(self.events, event_with_id(id)) {
            Some(i) => StoreView { events: self.events.update(i, EventView { status, ..self.events[i] }), ..self },
            None => self,
        }
    }
}

pub open spec fn event_with_id(id: Id) -> spec_fn(EventView) -> bool {
    |e: EventView| e.id == id
}

/// An event of which only the organization and the state are known.
pub open spec fn plain_event(id: Id, organization_id: Id, status: EventStatus) -> EventView {
    EventView {
        id,
        name: Seq::empty(),
        organization_id,
        venue_id: None,
        created_at: 0,
        event_start: None,
        door_time: None,
        status,
        publish_date: None,
        promo_image_url: None,
        additional_info: None,
        age_limit: None,
        cancelled_at: None,
        updated_at: 0,
    }
}

pub open spec fn ticket_type_with_id(id: Id) -> spec_fn(TicketType) -> bool {
    |t: TicketType| t.id == id
}

pub open spec fn asset_with_id(id: Id) -> spec_fn(AssetView) -> bool {
    |a: AssetView| a.id == id
}

pub open spec fn item_with_event(order_id: Id) -> spec_fn(OrderItemView) -> bool {
    |i: OrderItemView| i.order_id == order_id && i.event_id is Some
}

pub open spec fn group_of(asset_id: Id) -> spec_fn(AssetTokensView) -> bool {
    |g: AssetTokensView| g.asset_id == asset_id
}

/// The lines of `items` that belong to the order.
pub open spec fn lines_of(items: Seq<OrderItemView>, order_id: Id) -> Seq<OrderItemView>
    decreases items.len(),
{
    if items.len() == 0 {
        Seq::empty()
    } else {
        let rest = lines_of(items.drop_last(), order_id);
        if items.last().order_id == order_id {
            rest.push(items.last())
        } else {
            rest
        }
    }
}

/// What a line adds to the total of the order: quantity times unit price.
pub open spec fn line_total(item: OrderItemView, order_id: Id) -> int {
    if item.order_id == order_id {
        item.quantity * item.unit_price_in_cents
    } else {
        0
    }
}

/// The sum of quantity times unit price over the lines of the order.
pub open spec fn total_of(items: Seq<OrderItemView>, order_id: Id) -> int
    decreases items.len(),
{
    if items.len() == 0 {
        0
    } else {
        total_of(items.drop_last(), order_id) + line_total(items.last(), order_id)
    }
}

/// The groups with one more ticket: its token joins the group of its asset,
/// or starts a new group with the wallet that holds it.
pub open spec fn group_token(groups: Seq<AssetTokensView>, ticket: TicketInstance) -> Seq<AssetTokensView> {
    match first_where(groups, group_of(ticket.asset_id)) {
        Some(i) => groups.update(
            i,
            AssetTokensView { token_ids: groups[i].token_ids.push(ticket.token_id), ..groups[i] },
        ),
        None => groups.push(
            AssetTokensView {
                asset_id: ticket.asset_id,
                wallet_id: ticket.wallet_id,
                token_ids: seq![ticket.token_id],
            },
        ),
    }
}

/// The tokens of the tickets held for the order, one group per asset, groups
/// and tokens in the order in which the tickets come.
pub open spec fn transfers_of(tickets: Seq<TicketInstance>, order_id: Id) -> Seq<AssetTokensView>
    decreases tickets.len(),
{
    if tickets.len() == 0 {
        Seq::empty()
    } else {
        let rest = transfers_of(tickets.drop_last(), order_id);
        if tickets.last().order_id == Some(order_id) {
            group_token(rest, tickets.last())
        } else {
            rest
        }
    }
}

/// No two groups are of the same asset.
pub open spec fn distinct_assets(groups: Seq<AssetTokensView>) -> bool {
    forall|i: int, j: int|
        0 <= i < j < groups.len() ==> (#[trigger] groups[i]).asset_id != (#[trigger] groups[j]).asset_id
}

/// The tokens of an order are handed over asset by asset: no asset comes twice.
pub proof fn lemma_transfers_distinct(tickets: Seq<TicketInstance>, order_id: Id)
    ensures
        distinct_assets(transfers_of(tickets, order_id)),
    decreases tickets.len(),
{
    if tickets.len() > 0 {
        lemma_transfers_distinct(tickets.drop_last(), order_id);
        let rest = transfers_of(tickets.drop_last(), order_id);
        let t = tickets.last();
        if t.order_id == Some(order_id) {
            lemma_first_is(rest, group_of(t.asset_id));
            let next = group_token(rest, t);
            assert forall|i: int, j: int| 0 <= i < j < next.len() implies (#[trigger] next[i]).asset_id != (
            #[trigger] next[j]).asset_id by {
                match first_where(rest, group_of(t.asset_id)) {
                    Some(k) => {
                        assert(rest[i].asset_id == next[i].asset_id);
                        assert(rest[j].asset_id == next[j].asset_id);
                    },
                    None => {
                        assert(rest[i].asset_id == next[i].asset_id);
                        if j < rest.len() {
                            assert(rest[j].asset_id == next[j].asset_id);
                        } else {
                            assert(!group_of(t.asset_id)(rest[i]));
                        }
                    },
                }
            }
        }
    }
}

/// Whether the store holds the line for the order.
pub open spec fn has_line(items: Seq<OrderItemView>, order_id: Id, line: OrderItemView) -> bool {
    exists|i: int| 0 <= i < items.len() && #[trigger] items[i] == line && items[i].order_id == order_id
}

/// The lines of an order are the lines of the store that belong to it.
pub proof fn lemma_lines_of(items: Seq<OrderItemView>, order_id: Id)
    ensures
        forall|a: int|
            0 <= a < lines_of(items, order_id).len() ==> has_line(
                items,
                order_id,
                #[trigger] lines_of(items, order_id)[a],
            ),
        forall|i: int|
            0 <= i < items.len() && (#[trigger] items[i]).order_id == order_id ==> lines_of(
                items,
                order_id,
            ).contains(items[i]),
    decreases items.len(),
{
    if items.len() > 0 {
        let front = items.drop_last();
        lemma_lines_of(front, order_id);
        let rest = lines_of(front, order_id);
        let lines = lines_of(items, order_id);
        assert forall|a: int| 0 <= a < lines.len() implies has_line(items, order_id, #[trigger] lines[a]) by {
            if a < rest.len() {
                assert(has_line(front, order_id, rest[a]));
                let i = choose|i: int|
                    0 <= i < front.len() && #[trigger] front[i] == rest[a] && front[i].order_id == order_id;
                assert(items[i] == lines[a]);
            } else {
                assert(items[items.len() - 1] == lines[a]);
            }
        }
        assert forall|i: int| 0 <= i < items.len() && (#[trigger] items[i]).order_id == order_id implies lines.contains(
            items[i],
        ) by {
            if i < front.len() {
                assert(front[i] == items[i]);
                assert(rest.contains(front[i]));
                let a = choose|a: int| 0 <= a < rest.len() && rest[a] == front[i];
                assert(lines[a] == items[i]);
            } else {
                assert(lines[lines.len() - 1] == items[i]);
            }
        }
    }
}

} // verus!
