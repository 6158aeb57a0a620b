//! The checkout engine of a ticket-selling platform.
//!
//! A user fills a cart, which is a draft order in the order store, and
//! checks it out: for nothing, against a payment recorded by hand, or
//! through a payment processor. A checkout is taken step by step; between
//! two steps the caller talks to the payment provider or to the ledger that
//! holds the ticket tokens, so the library itself never waits for anyone.
//!
//! - `store` is the order store, `store_view` its mathematical content and
//!   what every operation makes of it, `models` the records that it holds.
//! - `cart` changes carts, `checkout` takes a checkout from step to step,
//!   `payments` finds the processors and receives buyers and notifications
//!   that come back from a hosted payment page.
//! - `laws` states what holds of all of this, whatever the inputs are.
//! - `events`, `fee_schedules` and `redemption_codes` keep what is on sale.
//! - `caching`, `paging` and `stripe_client` shape responses and requests.

pub mod caching;
pub mod cart;
pub mod checkout;
pub mod errors;
pub mod events;
pub mod fee_schedules;
pub mod laws;
pub mod models;
pub mod paging;
pub mod payments;
pub mod redemption_codes;
pub mod seqs;
pub mod store;
pub mod store_view;
pub mod stripe_client;
pub mod text;
