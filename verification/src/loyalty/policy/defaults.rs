//! The default terms of a new stamp policy, in one place so the API, the owner app's
//! hints and the tests agree.

use vstd::prelude::*;

verus! {

pub const TARGET_STAMP_COUNT: i16 = 10;
pub const STAMPS_PER_ORDER: i16 = 1;
pub const MINIMUM_ORDER_AMOUNT: i64 = 0;
pub const DAILY_EARNING_LIMIT: i16 = 1;
pub const STAMP_VALIDITY_DAYS: i16 = 180;
pub const REWARD_VALIDITY_DAYS: i16 = 30;
pub const DUPLICATE_WARNING_MINUTES: i32 = 5;

} // verus!
