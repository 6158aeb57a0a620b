//! The records of the order store, each with the view that contracts speak of.

use crate::text::{Id, copy_opt, opt_text};
use vstd::prelude::*;

verus! {

/// The life of an order: a draft is a cart; the other states are reached by checkout.
#[derive(Clone, Copy, Debug, PartialEq, Eq, Structural)]
pub enum OrderStatus {
    Draft,
    PendingPayment,
    Paid,
    Cancelled,
}

#[derive(Clone, Copy, Debug, PartialEq, Eq, Structural)]
pub enum PaymentStatus {
    Requested,
    Authorized,
    Completed,
    Cancelled,
}

/// How the money of a payment moved.
#[derive(Clone, Copy, Debug, PartialEq, Eq, Structural)]
pub enum PaymentMethods {
    /// Recorded by hand, or free.
    External,
    /// Authorized and captured through a card processor.
    CreditCard,
    /// Requested on a provider's hosted page.
    Provider,
}

/// Capabilities that a user may hold on an organization.
#[derive(Clone, Copy, Debug, PartialEq, Eq, Structural)]
pub enum Scopes {
    BoxOfficeTicketRead,
    OrderMakeExternalPayment,
}

#[derive(Clone, Copy, Debug, PartialEq, Eq, Structural)]
pub enum EventStatus {
    Draft,
    Published,
    Closed,
}

#[derive(Clone, Copy, Debug, PartialEq, Eq, Structural)]
pub enum TicketTypeStatus {
    OnSale,
    SoldOut,
    SaleEnded,
}

#[derive(Debug)]
pub struct User {
    pub id: Id,
    pub first_name: Option<String>,
    pub last_name: Option<String>,
    pub email: Option<String>,
    pub phone: Option<String>,
}

pub struct UserView {
    pub id: Id,
    pub first_name: Option<Seq<char>>,
    pub last_name: Option<Seq<char>>,
    pub email: Option<Seq<char>>,
    pub phone: Option<Seq<char>>,
}

impl View for User {
    type V = UserView;

    open spec fn view(&self) -> UserView {
        UserView {
            id: self.id,
            first_name: opt_text(self.first_name),
            last_name: opt_text(self.last_name),
            email: opt_text(self.email),
            phone: opt_text(self.phone),
        }
    }
}

impl User {
    pub fn copy(&self) -> (r: User)
        ensures
            r@ == self@,
    {
        User {
            id: self.id,
            first_name: copy_opt(&self.first_name),
            last_name: copy_opt(&self.last_name),
            email: copy_opt(&self.email),
            phone: copy_opt(&self.phone),
        }
    }
}

/// A cart, or a purchase made from one.
#[derive(Debug)]
pub struct Order {
    pub id: Id,
    pub user_id: Id,
    /// The guest for whom a member of staff recorded the purchase.
    pub on_behalf_of_user_id: Option<Id>,
    pub status: OrderStatus,
    /// Counts the changes made to the order; a checkout goes through only
    /// from the version that its caller read.
    pub version: u64,
    pub note: Option<String>,
    pub checkout_url: Option<String>,
    /// Seconds since the epoch at which the hosted payment page expires.
    pub checkout_url_expires: Option<i64>,
}

pub struct OrderView {
    pub id: Id,
    pub user_id: Id,
    pub on_behalf_of_user_id: Option<Id>,
    pub status: OrderStatus,
    pub version: u64,
    pub note: Option<Seq<char>>,
    pub checkout_url: Option<Seq<char>>,
    pub checkout_url_expires: Option<i64>,
}

impl View for Order {
    type V = OrderView;

    open spec fn view(&self) -> OrderView {
        OrderView {
            id: self.id,
            user_id: self.user_id,
            on_behalf_of_user_id: self.on_behalf_of_user_id,
            status: self.status,
            version: self.version,
            note: opt_text(self.note),
            checkout_url: opt_text(self.checkout_url),
            checkout_url_expires: self.checkout_url_expires,
        }
    }
}

impl Order {
    pub fn copy(&self) -> (r: Order)
        ensures
            r@ == self@,
    {
        Order {
            id: self.id,
            user_id: self.user_id,
            on_behalf_of_user_id: self.on_behalf_of_user_id,
            status: self.status,
            version: self.version,
            note: copy_opt(&self.note),
            checkout_url: copy_opt(&self.checkout_url),
            checkout_url_expires: self.checkout_url_expires,
        }
    }

    /// A cart for the user, not in the store yet.
    pub fn create(user_id: Id) -> (order: NewOrder)
        ensures
            order.user_id == user_id,
    {
        NewOrder { user_id }
    }

    /// The state of the order.
    pub fn status(&self) -> (s: OrderStatus)
        ensures
            s == self.status,
    {
        self.status
    }
}

/// A line of an order. An order holds at most one line per ticket type.
#[derive(Debug)]
pub struct OrderItem {
    pub order_id: Id,
    pub ticket_type_id: Id,
    pub event_id: Option<Id>,
    pub quantity: u32,
    pub unit_price_in_cents: u32,
    pub redemption_code: Option<String>,
}

pub struct OrderItemView {
    pub order_id: Id,
    pub ticket_type_id: Id,
    pub event_id: Option<Id>,
    pub quantity: u32,
    pub unit_price_in_cents: u32,
    pub redemption_code: Option<Seq<char>>,
}

impl View for OrderItem {
    type V = OrderItemView;

    open spec fn view(&self) -> OrderItemView {
        OrderItemView {
            order_id: self.order_id,
            ticket_type_id: self.ticket_type_id,
            event_id: self.event_id,
            quantity: self.quantity,
            unit_price_in_cents: self.unit_price_in_cents,
            redemption_code: opt_text(self.redemption_code),
        }
    }
}

impl OrderItem {
    pub fn copy(&self) -> (r: OrderItem)
        ensures
            r@ == self@,
    {
        OrderItem {
            order_id: self.order_id,
            ticket_type_id: self.ticket_type_id,
            event_id: self.event_id,
            quantity: self.quantity,
            unit_price_in_cents: self.unit_price_in_cents,
            redemption_code: copy_opt(&self.redemption_code),
        }
    }
}

/// What a cart is asked to hold of one ticket type. A quantity of zero takes the line out.
#[derive(Debug)]
pub struct CartItem {
    pub ticket_type_id: Id,
    pub quantity: u32,
    pub redemption_code: Option<String>,
}

pub struct CartItemView {
    pub ticket_type_id: Id,
    pub quantity: u32,
    pub redemption_code: Option<Seq<char>>,
}

impl View for CartItem {
    type V = CartItemView;

    open spec fn view(&self) -> CartItemView {
        CartItemView {
            ticket_type_id: self.ticket_type_id,
            quantity: self.quantity,
            redemption_code: opt_text(self.redemption_code),
        }
    }
}

/// One movement of money against an order.
#[derive(Debug)]
pub struct Payment {
    pub id: Id,
    pub order_id: Id,
    pub created_by: Option<Id>,
    pub status: PaymentStatus,
    pub payment_method: PaymentMethods,
    pub amount: i64,
    /// The name of the provider, `External` for what no provider handled.
    pub provider: String,
    /// The provider's reference of the transaction, or the free text of a payment recorded by hand.
    pub external_reference: Option<String>,
    /// What the provider answered, kept as it came.
    pub raw_data: Option<String>,
    /// The secret that the buyer's browser brings back from a hosted payment page.
    pub url_nonce: Option<String>,
}

pub struct PaymentView {
    pub id: Id,
    pub order_id: Id,
    pub created_by: Option<Id>,
    pub status: PaymentStatus,
    pub payment_method: PaymentMethods,
    pub amount: i64,
    pub provider: Seq<char>,
    pub external_reference: Option<Seq<char>>,
    pub raw_data: Option<Seq<char>>,
    pub url_nonce: Option<Seq<char>>,
}

impl View for Payment {
    type V = PaymentView;

    open spec fn view(&self) -> PaymentView {
        PaymentView {
            id: self.id,
            order_id: self.order_id,
            created_by: self.created_by,
            status: self.status,
            payment_method: self.payment_method,
            amount: self.amount,
            provider: self.provider@,
            external_reference: opt_text(self.external_reference),
            raw_data: opt_text(self.raw_data),
            url_nonce: opt_text(self.url_nonce),
        }
    }
}

impl Payment {
    pub fn copy(&self) -> (r: Payment)
        ensures
            r@ == self@,
    {
        Payment {
            id: self.id,
            order_id: self.order_id,
            created_by: self.created_by,
            status: self.status,
            payment_method: self.payment_method,
            amount: self.amount,
            provider: self.provider.clone(),
            external_reference: copy_opt(&self.external_reference),
            raw_data: copy_opt(&self.raw_data),
            url_nonce: copy_opt(&self.url_nonce),
        }
    }
}

/// A token kept for a user, with which a provider charges again. A user has
/// at most one per provider.
#[derive(Debug)]
pub struct PaymentMethod {
    pub user_id: Id,
    /// The name of the provider.
    pub name: String,
    pub is_default: bool,
    /// The token for repeat charges.
    pub provider: String,
    /// What the provider answered when the token was made or last changed.
    pub provider_data: String,
}

pub struct PaymentMethodView {
    pub user_id: Id,
    pub name: Seq<char>,
    pub is_default: bool,
    pub provider: Seq<char>,
    pub provider_data: Seq<char>,
}

impl View for PaymentMethod {
    type V = PaymentMethodView;

    open spec fn view(&self) -> PaymentMethodView {
        PaymentMethodView {
            user_id: self.user_id,
            name: self.name@,
            is_default: self.is_default,
            provider: self.provider@,
            provider_data: self.provider_data@,
        }
    }
}

impl PaymentMethod {
    pub fn copy(&self) -> (r: PaymentMethod)
        ensures
            r@ == self@,
    {
        PaymentMethod {
            user_id: self.user_id,
            name: self.name.clone(),
            is_default: self.is_default,
            provider: self.provider.clone(),
            provider_data: self.provider_data.clone(),
        }
    }
}

/// An event. Times are in seconds since the epoch.
#[derive(Debug)]
pub struct Event {
    pub id: Id,
    pub name: String,
    pub organization_id: Id,
    pub venue_id: Option<Id>,
    pub created_at: i64,
    pub event_start: Option<i64>,
    pub door_time: Option<i64>,
    pub status: EventStatus,
    pub publish_date: Option<i64>,
    pub promo_image_url: Option<String>,
    pub additional_info: Option<String>,
    pub age_limit: Option<i32>,
    pub cancelled_at: Option<i64>,
    pub updated_at: i64,
}

pub struct EventView {
    pub id: Id,
    pub name: Seq<char>,
    pub organization_id: Id,
    pub venue_id: Option<Id>,
    pub created_at: i64,
    pub event_start: Option<i64>,
    pub door_time: Option<i64>,
    pub status: EventStatus,
    pub publish_date: Option<i64>,
    pub promo_image_url: Option<Seq<char>>,
    pub additional_info: Option<Seq<char>>,
    pub age_limit: Option<i32>,
    pub cancelled_at: Option<i64>,
    pub updated_at: i64,
}

impl View for Event {
    type V = EventView;

    open spec fn view(&self) -> EventView {
        EventView {
            id: self.id,
            name: self.name@,
            organization_id: self.organization_id,
            venue_id: self.venue_id,
            created_at: self.created_at,
            event_start: self.event_start,
            door_time: self.door_time,
            status: self.status,
            publish_date: self.publish_date,
            promo_image_url: opt_text(self.promo_image_url),
            additional_info: opt_text(self.additional_info),
            age_limit: self.age_limit,
            cancelled_at: self.cancelled_at,
            updated_at: self.updated_at,
        }
    }
}

impl Event {
    pub fn copy(&self) -> (r: Event)
        ensures
            r@ == self@,
    {
        Event {
            id: self.id,
            name: self.name.clone(),
            organization_id: self.organization_id,
            venue_id: self.venue_id,
            created_at: self.created_at,
            event_start: self.event_start,
            door_time: self.door_time,
            status: self.status,
            publish_date: self.publish_date,
            promo_image_url: copy_opt(&self.promo_image_url),
            additional_info: copy_opt(&self.additional_info),
            age_limit: self.age_limit,
            cancelled_at: self.cancelled_at,
            updated_at: self.updated_at,
        }
    }
}

/// An event that is not in the store yet.
#[derive(Debug)]
pub struct NewEvent {
    pub name: String,
    pub organization_id: Id,
    pub venue_id: Option<Id>,
    pub event_start: Option<i64>,
    pub door_time: Option<i64>,
    pub status: EventStatus,
    pub publish_date: Option<i64>,
    pub promo_image_url: Option<String>,
    pub additional_info: Option<String>,
    pub age_limit: Option<i32>,
}

/// What of an event is to change: every attribute that is given.
#[derive(Debug)]
pub struct EventEditableAttributes {
    pub name: Option<String>,
    pub venue_id: Option<Id>,
    pub event_start: Option<i64>,
    pub door_time: Option<i64>,
    pub publish_date: Option<i64>,
    pub promo_image_url: Option<String>,
    pub additional_info: Option<String>,
    pub age_limit: Option<i32>,
    pub cancelled_at: Option<i64>,
}

/// Where events take place.
#[derive(Debug)]
pub struct Venue {
    pub id: Id,
    pub name: String,
    pub region_id: Option<Id>,
}

pub struct VenueView {
    pub id: Id,
    pub name: Seq<char>,
    pub region_id: Option<Id>,
}

impl View for Venue {
    type V = VenueView;

    open spec fn view(&self) -> VenueView {
        VenueView { id: self.id, name: self.name@, region_id: self.region_id }
    }
}

impl Venue {
    pub fn copy(&self) -> (r: Venue)
        ensures
            r@ == self@,
    {
        Venue { id: self.id, name: self.name.clone(), region_id: self.region_id }
    }
}

/// A venue as it is shown with an event.
#[derive(Debug)]
pub struct DisplayVenue {
    pub id: Id,
    pub name: String,
}

pub struct DisplayVenueView {
    pub id: Id,
    pub name: Seq<char>,
}

impl View for DisplayVenue {
    type V = DisplayVenueView;

    open spec fn view(&self) -> DisplayVenueView {
        DisplayVenueView { id: self.id, name: self.name@ }
    }
}

/// An event as it is shown.
#[derive(Debug)]
pub struct DisplayEvent {
    pub id: Id,
    pub name: String,
    pub event_start: Option<i64>,
    pub door_time: Option<i64>,
    pub promo_image_url: Option<String>,
    pub additional_info: Option<String>,
    pub venue: Option<DisplayVenue>,
}

pub struct DisplayEventView {
    pub id: Id,
    pub name: Seq<char>,
    pub event_start: Option<i64>,
    pub door_time: Option<i64>,
    pub promo_image_url: Option<Seq<char>>,
    pub additional_info: Option<Seq<char>>,
    pub venue: Option<DisplayVenueView>,
}

impl View for DisplayEvent {
    type V = DisplayEventView;

    open spec fn view(&self) -> DisplayEventView {
        DisplayEventView {
            id: self.id,
            name: self.name@,
            event_start: self.event_start,
            door_time: self.door_time,
            promo_image_url: opt_text(self.promo_image_url),
            additional_info: opt_text(self.additional_info),
            venue: match self.venue {
                Some(v) => Some(v@),
                None => None,
            },
        }
    }
}

#[derive(Debug)]
pub struct Artist {
    pub id: Id,
    pub name: String,
}

pub struct ArtistView {
    pub id: Id,
    pub name: Seq<char>,
}

impl View for Artist {
    type V = ArtistView;

    open spec fn view(&self) -> ArtistView {
        ArtistView { id: self.id, name: self.name@ }
    }
}

/// An artist who plays at an event.
#[derive(Clone, Copy, Debug)]
pub struct EventArtist {
    pub event_id: Id,
    pub artist_id: Id,
    pub rank: i32,
    pub set_time: Option<i64>,
}

/// A list of fees by price.
#[derive(Debug)]
pub struct FeeSchedule {
    pub id: Id,
    pub name: String,
    pub created_at: i64,
    pub updated_at: i64,
}

pub struct FeeScheduleView {
    pub id: Id,
    pub name: Seq<char>,
    pub created_at: i64,
    pub updated_at: i64,
}

impl View for FeeSchedule {
    type V = FeeScheduleView;

    open spec fn view(&self) -> FeeScheduleView {
        FeeScheduleView { id: self.id, name: self.name@, created_at: self.created_at, updated_at: self.updated_at }
    }
}

impl FeeSchedule {
    pub fn copy(&self) -> (r: FeeSchedule)
        ensures
            r@ == self@,
    {
        FeeSchedule {
            id: self.id,
            name: self.name.clone(),
            created_at: self.created_at,
            updated_at: self.updated_at,
        }
    }
}

/// A fee schedule that is not in the store yet: its name, and for each
/// range the price at which it begins and its fee.
#[derive(Debug)]
pub struct NewFeeSchedule {
    pub name: String,
    pub ranges: Vec<(i64, i64)>,
}

/// The fee for prices from `min_price` on, up to the next range of the schedule.
#[derive(Clone, Copy, Debug)]
pub struct FeeScheduleRange {
    pub id: Id,
    pub fee_schedule_id: Id,
    pub min_price: i64,
    pub fee: i64,
    pub created_at: i64,
    pub updated_at: i64,
}

/// A cart that is not in the store yet.
#[derive(Clone, Copy, Debug)]
pub struct NewOrder {
    pub user_id: Id,
}

#[derive(Clone, Copy, Debug, PartialEq, Eq, Structural)]
pub enum HoldTypes {
    Discount,
    Comp,
}

/// Tickets of a type set aside under a redemption code.
#[derive(Debug)]
pub struct Hold {
    pub id: Id,
    pub ticket_type_id: Id,
    pub redemption_code: String,
    pub max_per_order: Option<i64>,
    pub discount_in_cents: Option<i64>,
    pub hold_type: HoldTypes,
}

pub struct HoldView {
    pub id: Id,
    pub ticket_type_id: Id,
    pub redemption_code: Seq<char>,
    pub max_per_order: Option<i64>,
    pub discount_in_cents: Option<i64>,
    pub hold_type: HoldTypes,
}

impl View for Hold {
    type V = HoldView;

    open spec fn view(&self) -> HoldView {
        HoldView {
            id: self.id,
            ticket_type_id: self.ticket_type_id,
            redemption_code: self.redemption_code@,
            max_per_order: self.max_per_order,
            discount_in_cents: self.discount_in_cents,
            hold_type: self.hold_type,
        }
    }
}

impl Hold {
    pub fn copy(&self) -> (r: Hold)
        ensures
            r@ == self@,
    {
        Hold {
            id: self.id,
            ticket_type_id: self.ticket_type_id,
            redemption_code: self.redemption_code.clone(),
            max_per_order: self.max_per_order,
            discount_in_cents: self.discount_in_cents,
            hold_type: self.hold_type,
        }
    }
}

#[derive(Clone, Copy, Debug)]
pub struct TicketType {
    pub id: Id,
    pub event_id: Id,
    pub price_in_cents: u32,
    /// The rate for sales at the box office.
    pub box_office_price_in_cents: u32,
    pub status: TicketTypeStatus,
}

/// A batch of ticket tokens of one ticket type.
#[derive(Debug)]
pub struct Asset {
    pub id: Id,
    pub ticket_type_id: Id,
    /// The identifier of the batch on the ledger, once it has one.
    pub blockchain_asset_id: Option<String>,
}

pub struct AssetView {
    pub id: Id,
    pub ticket_type_id: Id,
    pub blockchain_asset_id: Option<Seq<char>>,
}

impl View for Asset {
    type V = AssetView;

    open spec fn view(&self) -> AssetView {
        AssetView {
            id: self.id,
            ticket_type_id: self.ticket_type_id,
            blockchain_asset_id: opt_text(self.blockchain_asset_id),
        }
    }
}

/// One ticket token, in the wallet that owns it, held for an order or free.
#[derive(Clone, Copy, Debug)]
pub struct TicketInstance {
    pub id: Id,
    pub asset_id: Id,
    pub token_id: u64,
    pub wallet_id: Id,
    pub order_id: Option<Id>,
}

/// Whose a wallet is.
#[derive(Clone, Copy, Debug, PartialEq, Eq, Structural)]
pub enum WalletOwner {
    User(Id),
    Organization(Id),
}

/// A key pair on the ledger, of a user or of an organization.
#[derive(Debug)]
pub struct Wallet {
    pub id: Id,
    pub owner: WalletOwner,
    pub secret_key: String,
    pub public_key: String,
}

pub struct WalletView {
    pub id: Id,
    pub owner: WalletOwner,
    pub secret_key: Seq<char>,
    pub public_key: Seq<char>,
}

impl View for Wallet {
    type V = WalletView;

    open spec fn view(&self) -> WalletView {
        WalletView { id: self.id, owner: self.owner, secret_key: self.secret_key@, public_key: self.public_key@ }
    }
}

impl Wallet {
    pub fn copy(&self) -> (r: Wallet)
        ensures
            r@ == self@,
    {
        Wallet {
            id: self.id,
            owner: self.owner,
            secret_key: self.secret_key.clone(),
            public_key: self.public_key.clone(),
        }
    }
}

/// A capability of a user on an organization.
#[derive(Clone, Copy, Debug)]
pub struct Grant {
    pub user_id: Id,
    pub organization_id: Id,
    pub scope: Scopes,
}

/// The tokens of one asset that an order hands over, with the wallet that holds them.
#[derive(Debug)]
pub struct AssetTokens {
    pub asset_id: Id,
    pub wallet_id: Id,
    pub token_ids: Vec<u64>,
}

pub struct AssetTokensView {
    pub asset_id: Id,
    pub wallet_id: Id,
    pub token_ids: Seq<u64>,
}

impl View for AssetTokens {
    type V = AssetTokensView;

    open spec fn view(&self) -> AssetTokensView {
        AssetTokensView { asset_id: self.asset_id, wallet_id: self.wallet_id, token_ids: self.token_ids@ }
    }
}

/// An order as it is shown: the record, its lines and what they add up to.
#[derive(Debug)]
pub struct DisplayOrder {
    pub id: Id,
    pub user_id: Id,
    pub on_behalf_of_user_id: Option<Id>,
    pub status: OrderStatus,
    pub total_in_cents: i64,
    pub checkout_url: Option<String>,
    pub items: Vec<OrderItem>,
}

pub struct DisplayOrderView {
    pub id: Id,
    pub user_id: Id,
    pub on_behalf_of_user_id: Option<Id>,
    pub status: OrderStatus,
    pub total_in_cents: i64,
    pub checkout_url: Option<Seq<char>>,
    pub items: Seq<OrderItemView>,
}

impl View for DisplayOrder {
    type V = DisplayOrderView;

    open spec fn view(&self) -> DisplayOrderView {
        DisplayOrderView {
            id: self.id,
            user_id: self.user_id,
            on_behalf_of_user_id: self.on_behalf_of_user_id,
            status: self.status,
            total_in_cents: self.total_in_cents,
            checkout_url: opt_text(self.checkout_url),
            items: self.items@.map_values(|i: OrderItem| i@),
        }
    }
}

} // verus!
