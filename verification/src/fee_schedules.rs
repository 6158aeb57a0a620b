//! Fee schedules: the fee that the platform takes, by the price of a ticket.

use crate::errors::CheckoutError;
use crate::models::{FeeSchedule, FeeScheduleRange, FeeScheduleView, NewFeeSchedule};
use crate::store::OrderStore;
use crate::text::Id;
use vstd::prelude::*;

verus! {

impl FeeSchedule {
    /// A fee schedule that is not in the store yet. Each range is the price
    /// at which it begins and its fee.
    pub fn create(name: String, ranges: Vec<(i64, i64)>) -> (new: NewFeeSchedule)
        ensures
            new.name == name,
            new.ranges == ranges,
    {
        NewFeeSchedule { name, ranges }
    }

    /// The ranges of the schedule, in the order of the store.
    pub fn ranges(&self, store: &OrderStore) -> (list: Vec<FeeScheduleRange>)
        ensures
            list@ == store@.ranges_of(self.id),
    {
        store.fee_schedule_ranges(self.id)
    }

    /// The fee schedule with the identifier.
    pub fn find(id: Id, store: &OrderStore) -> (r: Result<FeeSchedule, CheckoutError>)
        ensures
            match store@.fee_schedule(id) {
                Some(f) => r matches Ok(found) && found@ == f,
                None => r matches Err(e) && e == CheckoutError::NotFound,
            },
    {
        match store.fee_schedule(id) {
            Some(schedule) => Ok(schedule),
            None => Err(CheckoutError::NotFound),
        }
    }
}

impl NewFeeSchedule {
    /// Puts the schedule and its ranges in the store, made at `now`.
    pub fn commit(self, store: &mut OrderStore, now: i64) -> (schedule: FeeSchedule)
        requires
            old(store).wf(),
        ensures
            final(store).wf(),
            schedule@ == (FeeScheduleView {
                id: old(store)@.next_id,
                name: self.name@,
                created_at: now,
                updated_at: now,
            }),
            final(store)@ == old(store)@.with_fee_schedule(self.name@, self.ranges@, now),
    {
        store.insert_fee_schedule(&self, now)
    }
}

} // verus!
