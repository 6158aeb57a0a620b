//! The order store: users, orders with their lines and payments, the
//! events and ticket types on sale, the ticket tokens and the wallets that
//! hold them.
//!
//! Every operation states what it returns and how it changes the content of
//! the store, which `crate::store_view` describes.

use crate::models::{
    Artist, Asset, AssetView, Event, EventArtist, EventStatus, FeeSchedule, FeeScheduleRange, Grant, Hold,
    NewOrder, Order, OrderItem, OrderStatus, OrderView, Payment, PaymentMethod, Scopes, TicketInstance,
    TicketType, TicketTypeStatus, User, UserView, Venue, Wallet, WalletOwner, WalletView,
};
use crate::seqs::{at, first_where, lemma_first_found, lemma_first_is, lemma_first_none};
use crate::store_view::{
    StoreView, draft_of, grant_is, lemma_touched_inv, lemma_with_cart_inv, new_cart, next_version, opt_view,
    order_with_id, plain_event, user_with_email, user_with_id, user_with_phone,
};
use crate::text::{Id, opt_is, opt_text};
use vstd::prelude::*;

mod carts;
mod events;
mod payments;
mod sales;
mod search;

verus! {

/// The store.
pub struct OrderStore {
    next_id: Id,
    users: Vec<User>,
    orders: Vec<Order>,
    items: Vec<OrderItem>,
    payments: Vec<Payment>,
    payment_methods: Vec<PaymentMethod>,
    events: Vec<Event>,
    venues: Vec<Venue>,
    artists: Vec<Artist>,
    event_artists: Vec<EventArtist>,
    fee_schedules: Vec<FeeSchedule>,
    fee_schedule_ranges: Vec<FeeScheduleRange>,
    holds: Vec<Hold>,
    ticket_types: Vec<TicketType>,
    assets: Vec<Asset>,
    tickets: Vec<TicketInstance>,
    wallets: Vec<Wallet>,
    grants: Vec<Grant>,
}

impl View for OrderStore {
    type V = StoreView;

    closed spec fn view(&self) -> StoreView {
        StoreView {
            next_id: self.next_id,
            users: self.users@.map_values(|u: User| u@),
            orders: self.orders@.map_values(|o: Order| o@),
            items: self.items@.map_values(|i: OrderItem| i@),
            payments: self.payments@.map_values(|p: Payment| p@),
            payment_methods: self.payment_methods@.map_values(|m: PaymentMethod| m@),
            events: self.events@.map_values(|e: Event| e@),
            venues: self.venues@.map_values(|v: Venue| v@),
            artists: self.artists@.map_values(|a: Artist| a@),
            event_artists: self.event_artists@,
            fee_schedules: self.fee_schedules@.map_values(|f: FeeSchedule| f@),
            fee_schedule_ranges: self.fee_schedule_ranges@,
            holds: self.holds@.map_values(|h: Hold| h@),
            ticket_types: self.ticket_types@,
            assets: self.assets@.map_values(|a: Asset| a@),
            tickets: self.tickets@,
            wallets: self.wallets@.map_values(|w: Wallet| w@),
            grants: self.grants@,
        }
    }
}

impl OrderStore {
    /// Whether the store is in order.
    pub open spec fn wf(&self) -> bool {
        self@.inv()
    }

    /// A store in memory has identifiers left.
    pub proof fn lemma_has_room(&self)
        requires
            self.wf(),
        ensures
            self@.has_room(),
    {
        let n = self.users.len() + self.orders.len() + self.payments.len() + self.events.len()
            + self.ticket_types.len() + self.assets.len() + self.tickets.len() + self.wallets.len()
            + self.venues.len() + self.artists.len() + self.fee_schedules.len() + self.fee_schedule_ranges.len()
            + self.holds.len();
        assert(n == self@.identified());
        assert(n <= 13 * usize::MAX);
    }

    /// An empty store.
    pub fn new() -> (store: OrderStore)
        ensures
            store.wf(),
            store@ == (StoreView {
                next_id: 1,
                users: Seq::empty(),
                orders: Seq::empty(),
                items: Seq::empty(),
                payments: Seq::empty(),
                payment_methods: Seq::empty(),
                events: Seq::empty(),
                venues: Seq::empty(),
                artists: Seq::empty(),
                event_artists: Seq::empty(),
                fee_schedules: Seq::empty(),
                fee_schedule_ranges: Seq::empty(),
                holds: Seq::empty(),
                ticket_types: Seq::empty(),
                assets: Seq::empty(),
                tickets: Seq::empty(),
                wallets: Seq::empty(),
                grants: Seq::empty(),
            }),
    {
        let store = OrderStore {
            next_id: 1,
            users: Vec::new(),
            orders: Vec::new(),
            items: Vec::new(),
            payments: Vec::new(),
            payment_methods: Vec::new(),
            events: Vec::new(),
            venues: Vec::new(),
            artists: Vec::new(),
            event_artists: Vec::new(),
            fee_schedules: Vec::new(),
            fee_schedule_ranges: Vec::new(),
            holds: Vec::new(),
            ticket_types: Vec::new(),
            assets: Vec::new(),
            tickets: Vec::new(),
            wallets: Vec::new(),
            grants: Vec::new(),
        };
        assert(store@.users =~= Seq::empty());
        assert(store@.orders =~= Seq::empty());
        assert(store@.items =~= Seq::empty());
        assert(store@.payments =~= Seq::empty());
        assert(store@.payment_methods =~= Seq::empty());
        assert(store@.assets =~= Seq::empty());
        assert(store@.wallets =~= Seq::empty());
        assert(store@.events =~= Seq::empty());
        assert(store@.venues =~= Seq::empty());
        assert(store@.artists =~= Seq::empty());
        assert(store@.fee_schedules =~= Seq::empty());
        assert(store@.holds =~= Seq::empty());
        store
    }

    /// Takes the next identifier.
    fn fresh_id(&mut self) -> (id: Id)
        requires
            old(self).next_id == 1 + old(self)@.identified(),
        ensures
            id == old(self).next_id,
            final(self).next_id == id + 1,
            final(self).users == old(self).users,
            final(self).orders == old(self).orders,
            final(self).items == old(self).items,
            final(self).payments == old(self).payments,
            final(self).payment_methods == old(self).payment_methods,
            final(self).events == old(self).events,
            final(self).venues == old(self).venues,
            final(self).artists == old(self).artists,
            final(self).event_artists == old(self).event_artists,
            final(self).fee_schedules == old(self).fee_schedules,
            final(self).fee_schedule_ranges == old(self).fee_schedule_ranges,
            final(self).holds == old(self).holds,
            final(self).ticket_types == old(self).ticket_types,
            final(self).assets == old(self).assets,
            final(self).tickets == old(self).tickets,
            final(self).wallets == old(self).wallets,
            final(self).grants == old(self).grants,
    {
        let ghost n = self.users.len() + self.orders.len() + self.payments.len() + self.events.len()
            + self.ticket_types.len() + self.assets.len() + self.tickets.len() + self.wallets.len()
            + self.venues.len() + self.artists.len() + self.fee_schedules.len() + self.fee_schedule_ranges.len()
            + self.holds.len();
        assert(n == self@.identified());
        assert(n <= 13 * usize::MAX);
        let id = self.next_id;
        self.next_id = id + 1;
        id
    }

    /// Adds a user and returns the identifier given to it.
    pub fn add_user(
        &mut self,
        first_name: Option<String>,
        last_name: Option<String>,
        email: Option<String>,
        phone: Option<String>,
    ) -> (id: Id)
        requires
            old(self).wf(),
        ensures
            final(self).wf(),
            id == old(self)@.next_id,
            final(self)@ == (StoreView {
                next_id: (id + 1) as Id,
                users: old(self)@.users.push(
                    UserView {
                        id,
                        first_name: opt_text(first_name),
                        last_name: opt_text(last_name),
                        email: opt_text(email),
                        phone: opt_text(phone),
                    },
                ),
                ..old(self)@
            }),
    {
        let id = self.fresh_id();
        let user = User { id, first_name, last_name, email, phone };
        self.users.push(user);
        assert(self@.users =~= old(self)@.users.push(user@));
        id
    }

    /// Adds an event of an organization.
    pub fn add_event(&mut self, organization_id: Id, status: EventStatus) -> (id: Id)
        requires
            old(self).wf(),
        ensures
            final(self).wf(),
            id == old(self)@.next_id,
            final(self)@ == (StoreView {
                next_id: (id + 1) as Id,
                events: old(self)@.events.push(plain_event(id, organization_id, status)),
                ..old(self)@
            }),
    {
        let id = self.fresh_id();
        let event = Event {
            id,
            name: String::new(),
            organization_id,
            venue_id: None,
            created_at: 0,
            event_start: None,
            door_time: None,
            status,
            publish_date: None,
            promo_image_url: None,
            additional_info: None,
            age_limit: None,
            cancelled_at: None,
            updated_at: 0,
        };
        let ghost v = event@;
        self.events.push(event);
        assert(self@.events =~= old(self)@.events.push(v));
        id
    }

    /// Adds a ticket type to an event, on sale.
    pub fn add_ticket_type(&mut self, event_id: Id, price_in_cents: u32, box_office_price_in_cents: u32) -> (id:
        Id)
        requires
            old(self).wf(),
        ensures
            final(self).wf(),
            id == old(self)@.next_id,
            final(self)@ == (StoreView {
                next_id: (id + 1) as Id,
                ticket_types: old(self)@.ticket_types.push(
                    TicketType {
                        id,
                        event_id,
                        price_in_cents,
                        box_office_price_in_cents,
                        status: TicketTypeStatus::OnSale,
                    },
                ),
                ..old(self)@
            }),
    {
        let id = self.fresh_id();
        self.ticket_types.push(
            TicketType { id, event_id, price_in_cents, box_office_price_in_cents, status: TicketTypeStatus::OnSale },
        );
        id
    }

    /// Adds the batch of tokens of a ticket type, with its identifier on the ledger if it has one.
    pub fn add_asset(&mut self, ticket_type_id: Id, blockchain_asset_id: Option<String>) -> (id: Id)
        requires
            old(self).wf(),
        ensures
            final(self).wf(),
            id == old(self)@.next_id,
            final(self)@ == (StoreView {
                next_id: (id + 1) as Id,
                assets: old(self)@.assets.push(
                    AssetView { id, ticket_type_id, blockchain_asset_id: opt_text(blockchain_asset_id) },
                ),
                ..old(self)@
            }),
    {
        let id = self.fresh_id();
        let asset = Asset { id, ticket_type_id, blockchain_asset_id };
        self.assets.push(asset);
        assert(self@.assets =~= old(self)@.assets.push(asset@));
        id
    }

    /// Adds a wallet, of a user or of an organization.
    pub fn add_wallet(&mut self, owner: WalletOwner, secret_key: String, public_key: String) -> (id: Id)
        requires
            old(self).wf(),
        ensures
            final(self).wf(),
            id == old(self)@.next_id,
            final(self)@ == (StoreView {
                next_id: (id + 1) as Id,
                wallets: old(self)@.wallets.push(
                    WalletView { id, owner, secret_key: secret_key@, public_key: public_key@ },
                ),
                ..old(self)@
            }),
    {
        let id = self.fresh_id();
        let wallet = Wallet { id, owner, secret_key, public_key };
        self.wallets.push(wallet);
        assert(self@.wallets =~= old(self)@.wallets.push(wallet@));
        id
    }

    /// Adds a ticket token to a wallet, held for an order or free.
    pub fn add_ticket(&mut self, asset_id: Id, token_id: u64, wallet_id: Id, order_id: Option<Id>) -> (id: Id)
        requires
            old(self).wf(),
        ensures
            final(self).wf(),
            id == old(self)@.next_id,
            final(self)@ == (StoreView {
                next_id: (id + 1) as Id,
                tickets: old(self)@.tickets.push(TicketInstance { id, asset_id, token_id, wallet_id, order_id }),
                ..old(self)@
            }),
    {
        let id = self.fresh_id();
        self.tickets.push(TicketInstance { id, asset_id, token_id, wallet_id, order_id });
        id
    }

    /// Gives a user a capability on an organization.
    pub fn grant(&mut self, user_id: Id, organization_id: Id, scope: Scopes)
        requires
            old(self).wf(),
        ensures
            final(self).wf(),
            final(self)@ == (StoreView {
                grants: old(self)@.grants.push(Grant { user_id, organization_id, scope }),
                ..old(self)@
            }),
            final(self)@.has_scope(user_id, organization_id, scope),
    {
        self.grants.push(Grant { user_id, organization_id, scope });
        assert(grant_is(user_id, organization_id, scope)(self@.grants[self@.grants.len() - 1]));
    }
}

impl OrderStore {
    fn user_index(&self, id: Id) -> (r: Option<usize>)
        ensures
            at(r) == first_where(self@.users, user_with_id(id)),
            r matches Some(i) ==> i < self.users.len(),
    {
        let mut i: usize = 0;
        while i < self.users.len()
            invariant
                i <= self.users.len(),
                forall|j: int| 0 <= j < i ==> !#[trigger] user_with_id(id)(self@.users[j]),
            decreases self.users.len() - i,
        {
            if self.users[i].id == id {
                proof {
                    lemma_first_found(self@.users, user_with_id(id), i as int);
                }
                return Some(i);
            }
            i += 1;
        }
        proof {
            lemma_first_none(self@.users, user_with_id(id));
        }
        None
    }

    /// The user with the identifier.
    pub fn user(&self, id: Id) -> (r: Option<User>)
        ensures
            opt_view(r) == self@.user(id),
    {
        match self.user_index(id) {
            Some(i) => Some(self.users[i].copy()),
            None => None,
        }
    }

    /// The identifier of the first user with the email address.
    pub fn find_user_by_email(&self, email: &str) -> (r: Option<Id>)
        ensures
            r == match self@.user_by_email(email@) {
                Some(u) => Some(u.id),
                None => None,
            },
    {
        let mut i: usize = 0;
        while i < self.users.len()
            invariant
                i <= self.users.len(),
                forall|j: int| 0 <= j < i ==> !#[trigger] user_with_email(email@)(self@.users[j]),
            decreases self.users.len() - i,
        {
            if opt_is(&self.users[i].email, email) {
                proof {
                    lemma_first_found(self@.users, user_with_email(email@), i as int);
                }
                return Some(self.users[i].id);
            }
            i += 1;
        }
        proof {
            lemma_first_none(self@.users, user_with_email(email@));
        }
        None
    }

    /// The identifier of the first user with the phone number.
    pub fn find_user_by_phone(&self, phone: &str) -> (r: Option<Id>)
        ensures
            r == match self@.user_by_phone(phone@) {
                Some(u) => Some(u.id),
                None => None,
            },
    {
        let mut i: usize = 0;
        while i < self.users.len()
            invariant
                i <= self.users.len(),
                forall|j: int| 0 <= j < i ==> !#[trigger] user_with_phone(phone@)(self@.users[j]),
            decreases self.users.len() - i,
        {
            if opt_is(&self.users[i].phone, phone) {
                proof {
                    lemma_first_found(self@.users, user_with_phone(phone@), i as int);
                }
                return Some(self.users[i].id);
            }
            i += 1;
        }
        proof {
            lemma_first_none(self@.users, user_with_phone(phone@));
        }
        None
    }

    fn order_index(&self, id: Id) -> (r: Option<usize>)
        ensures
            at(r) == self@.order_at(id),
            r matches Some(i) ==> i < self.orders.len(),
    {
        let mut i: usize = 0;
        while i < self.orders.len()
            invariant
                i <= self.orders.len(),
                forall|j: int| 0 <= j < i ==> !#[trigger] order_with_id(id)(self@.orders[j]),
            decreases self.orders.len() - i,
        {
            if self.orders[i].id == id {
                proof {
                    lemma_first_found(self@.orders, order_with_id(id), i as int);
                }
                return Some(i);
            }
            i += 1;
        }
        proof {
            lemma_first_none(self@.orders, order_with_id(id));
        }
        None
    }

    /// The order with the identifier, as it is now.
    pub fn order(&self, id: Id) -> (r: Option<Order>)
        ensures
            opt_view(r) == self@.order(id),
    {
        match self.order_index(id) {
            Some(i) => Some(self.orders[i].copy()),
            None => None,
        }
    }

    fn cart_index(&self, user_id: Id) -> (r: Option<usize>)
        ensures
            at(r) == first_where(self@.orders, draft_of(user_id)),
            r matches Some(i) ==> i < self.orders.len(),
    {
        let mut i: usize = 0;
        while i < self.orders.len()
            invariant
                i <= self.orders.len(),
                forall|j: int| 0 <= j < i ==> !#[trigger] draft_of(user_id)(self@.orders[j]),
            decreases self.orders.len() - i,
        {
            if self.orders[i].user_id == user_id && self.orders[i].status == OrderStatus::Draft {
                proof {
                    lemma_first_found(self@.orders, draft_of(user_id), i as int);
                }
                return Some(i);
            }
            i += 1;
        }
        proof {
            lemma_first_none(self@.orders, draft_of(user_id));
        }
        None
    }

    /// The cart of a user, if the user has one.
    pub fn find_cart_for_user(&self, user_id: Id) -> (r: Option<Order>)
        ensures
            opt_view(r) == self@.cart_of(user_id),
    {
        match self.cart_index(user_id) {
            Some(i) => Some(self.orders[i].copy()),
            None => None,
        }
    }

    /// The cart of a user, made empty where the user has none.
    pub fn find_or_create_cart(&mut self, user_id: Id) -> (cart: Order)
        requires
            old(self).wf(),
        ensures
            final(self).wf(),
            final(self)@ == old(self)@.with_cart(user_id),
            final(self)@.cart_of(user_id) == Some(cart@),
            cart@ == match old(self)@.cart_of(user_id) {
                Some(o) => o,
                None => new_cart(old(self)@.next_id, user_id),
            },
    {
        proof {
            self.lemma_has_room();
            lemma_with_cart_inv(old(self)@, user_id);
        }
        match self.cart_index(user_id) {
            Some(i) => self.orders[i].copy(),
            None => {
                let id = self.fresh_id();
                let cart = Order {
                    id,
                    user_id,
                    on_behalf_of_user_id: None,
                    status: OrderStatus::Draft,
                    version: 0,
                    note: None,
                    checkout_url: None,
                    checkout_url_expires: None,
                };
                let copy = cart.copy();
                proof {
                    lemma_first_is(old(self)@.orders, draft_of(user_id));
                }
                self.orders.push(cart);
                proof {
                    assert(self@.orders =~= old(self)@.orders.push(cart@));
                    lemma_with_cart_inv(old(self)@, user_id);
                }
                copy
            },
        }
    }

    /// Counts one more change to an order, if it is still in the version
    /// that the caller read. A caller whose version is out of date learns so
    /// and changes nothing.
    pub fn lock_version(&mut self, order_id: Id, version: u64) -> (locked: bool)
        requires
            old(self).wf(),
        ensures
            final(self).wf(),
            locked == old(self)@.is_current(order_id, version),
            final(self)@ == if locked {
                old(self)@.touched(order_id)
            } else {
                old(self)@
            },
    {
        proof {
            lemma_touched_inv(old(self)@, order_id);
        }
        match self.order_index(order_id) {
            Some(i) => {
                if self.orders[i].version == version {
                    self.orders[i].version = if version == u64::MAX {
                        0
                    } else {
                        version + 1
                    };
                    proof {
                        let o = old(self)@.orders[i as int];
                        assert(self@.orders =~= old(self)@.orders.update(
                            i as int,
                            OrderView { version: next_version(o.version), ..o },
                        ));
                    }
                    true
                } else {
                    false
                }
            },
            None => false,
        }
    }

    /// Counts one more change to an order.
    pub fn touch(&mut self, order_id: Id)
        requires
            old(self).wf(),
        ensures
            final(self).wf(),
            final(self)@ == old(self)@.touched(order_id),
    {
        proof {
            lemma_touched_inv(old(self)@, order_id);
        }
        match self.order_index(order_id) {
            Some(i) => {
                let version = self.orders[i].version;
                self.orders[i].version = if version == u64::MAX {
                    0
                } else {
                    version + 1
                };
                proof {
                    let o = old(self)@.orders[i as int];
                    assert(self@.orders =~= old(self)@.orders.update(
                        i as int,
                        OrderView { version: next_version(o.version), ..o },
                    ));
                }
            },
            None => {},
        }
    }
}

impl NewOrder {
    /// Puts the order in the store: the user's cart where the user has one,
    /// else a new cart for the user.
    pub fn commit(&self, store: &mut OrderStore) -> (order: Order)
        requires
            old(store).wf(),
        ensures
            final(store).wf(),
            final(store)@ == old(store)@.with_cart(self.user_id),
            final(store)@.cart_of(self.user_id) == Some(order@),
    {
        store.find_or_create_cart(self.user_id)
    }
}

} // verus!
