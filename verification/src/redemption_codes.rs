//! Redemption codes: what a code stands for.

use crate::errors::CheckoutError;
use crate::models::{HoldTypes, HoldView};
use crate::store::OrderStore;
use crate::text::Id;
use vstd::prelude::*;

verus! {

/// The redemption code that a request asks about.
#[derive(Debug)]
pub struct PathParameters {
    pub code: String,
}

/// What a redemption code stands for.
#[derive(Debug)]
pub struct RedemptionCode {
    pub ticket_type_id: Id,
    pub redemption_code: String,
    pub max_per_order: Option<i64>,
    pub discount_in_cents: Option<i64>,
    pub hold_type: HoldTypes,
}

impl RedemptionCode {
    /// Whether this is what the hold says of its code.
    pub open spec fn is_of(&self, hold: HoldView) -> bool {
        &&& self.ticket_type_id == hold.ticket_type_id
        &&& self.redemption_code@ == hold.redemption_code
        &&& self.max_per_order == hold.max_per_order
        &&& self.discount_in_cents == hold.discount_in_cents
        &&& self.hold_type == hold.hold_type
    }
}

/// What the redemption code stands for: the ticket type, the discount and
/// the limit of the first hold with the code. `NotFound` where no hold has it.
pub fn show(store: &OrderStore, path: &PathParameters) -> (r: Result<RedemptionCode, CheckoutError>)
    ensures
        match store@.hold_by_code(path.code@) {
            Some(hold) => r matches Ok(shown) && shown.is_of(hold),
            None => r matches Err(e) && e == CheckoutError::NotFound,
        },
{
    match store.find_by_redemption_code(path.code.as_str()) {
        Some(hold) => Ok(
            RedemptionCode {
                ticket_type_id: hold.ticket_type_id,
                redemption_code: hold.redemption_code,
                max_per_order: hold.max_per_order,
                discount_in_cents: hold.discount_in_cents,
                hold_type: hold.hold_type,
            },
        ),
        None => Err(CheckoutError::NotFound),
    }
}

} // verus!
