//! The escrow record and the threshold rule that both payouts share.

use vstd::prelude::*;
use crate::address::Address;
use crate::error::ErrorCode;

verus! {

/// The terms of one seller's sale. Everything but `threshold_met` is fixed
/// when the record is created.
#[derive(Clone, Copy, Debug, PartialEq, Eq)]
pub struct ProtectionConfig {
    /// The seller.
    pub creator_address: Address,
    /// Price of one item, in lamports.
    pub sale_price: u64,
    /// How many items may be sold.
    pub max_quantity: u64,
    /// Proceeds, in lamports, that the sale must reach before the seller may
    /// withdraw.
    pub threshold_level: u64,
    /// Whether a release has succeeded. Never reset.
    pub threshold_met: bool,
    /// When the sale window closes.
    pub end_sales_time: i64,
    /// The bump with which the record's address was derived, kept for signing
    /// transfers out of it.
    pub derivation_nonce: u8,
}

/// The host's clock.
#[derive(Clone, Copy, Debug, PartialEq, Eq)]
pub struct Clock {
    pub unix_timestamp: i64,
}

/// What lies at the record's address beyond the rent-exemption floor.
pub open spec fn spec_available_proceeds(lamports: u64, rent_exempt_minimum: u64) -> Option<u64> {
    if lamports >= rent_exempt_minimum {
        Some((lamports - rent_exempt_minimum) as u64)
    } else {
        None
    }
}

/// The balance at the record's address less the floor that keeps the account
/// alive; `None` where the balance is below the floor.
pub fn available_proceeds(lamports: u64, rent_exempt_minimum: u64) -> (r: Option<u64>)
    ensures
        r == spec_available_proceeds(lamports, rent_exempt_minimum),
        r matches Some(available) ==> available + rent_exempt_minimum == lamports,
        r is None <==> lamports < rent_exempt_minimum,
{
    lamports.checked_sub(rent_exempt_minimum)
}

impl ProtectionConfig {
    /// The threshold is within what the sale can bring in at most, and that
    /// bound fits in 64 bits.
    pub open spec fn wf(&self) -> bool {
        self.threshold_level <= self.sale_price * self.max_quantity <= u64::MAX
    }

    /// The threshold was crossed before, or the proceeds cross it now.
    pub open spec fn spec_threshold_reached(&self, available: u64) -> bool {
        self.threshold_met || self.threshold_level <= available
    }

    /// Whether funds may leave the escrow: judged afresh on every request,
    /// since sales add to the balance without notice.
    pub fn threshold_reached(&self, available: u64) -> (r: bool)
        ensures
            r == self.spec_threshold_reached(available),
    {
        self.threshold_met || self.threshold_level <= available
    }

    /// `self` differs from `before` at most in that the threshold has been
    /// marked as met.
    pub open spec fn follows(&self, before: ProtectionConfig) -> bool {
        &&& self.creator_address == before.creator_address
        &&& self.sale_price == before.sale_price
        &&& self.max_quantity == before.max_quantity
        &&& self.threshold_level == before.threshold_level
        &&& self.end_sales_time == before.end_sales_time
        &&& self.derivation_nonce == before.derivation_nonce
        &&& (before.threshold_met ==> self.threshold_met)
    }
}

/// The window may only be opened with an end that lies strictly ahead.
pub fn future_end_time(clock: &Clock, end_sales_time: i64) -> (r: Result<(), ErrorCode>)
    ensures
        r == if clock.unix_timestamp < end_sales_time {
            Ok::<(), ErrorCode>(())
        } else {
            Err::<(), ErrorCode>(ErrorCode::EndSalesFuture)
        },
{
    if !(clock.unix_timestamp < end_sales_time) {
        return Err(ErrorCode::EndSalesFuture);
    }
    Ok(())
}

/// Payouts are only considered once the clock is strictly past the end of
/// the window.
pub fn past_end_sales_time(config: &ProtectionConfig, clock: &Clock) -> (r: Result<(), ErrorCode>)
    ensures
        r == if config.end_sales_time < clock.unix_timestamp {
            Ok::<(), ErrorCode>(())
        } else {
            Err::<(), ErrorCode>(ErrorCode::SaleNotOver)
        },
{
    if !(config.end_sales_time < clock.unix_timestamp) {
        return Err(ErrorCode::SaleNotOver);
    }
    Ok(())
}

} // verus!
