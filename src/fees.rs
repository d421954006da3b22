use crate::address::Address;
use crate::arith::{lemma_product_fits_u128, lemma_scaled_fraction};
use crate::error::StreamflowError;
use vstd::prelude::*;

verus! {

/// Basis points in a whole: a rate of 10000 takes everything.
pub const BPS_DENOMINATOR: u16 = 10000;

/// The fee taken from `gross` at `rate_bps` basis points, rounded down.
pub open spec fn fee_of(gross: int, rate_bps: int) -> int {
    gross * rate_bps / 10000
}

/// Total fee on a movement of `gross`: the action's own fee on the gross
/// amount, then the platform fee on what the first left.
pub open spec fn layered_fee(gross: int, action_rate: int, platform_rate: int) -> int {
    fee_of(gross, action_rate) + fee_of(gross - fee_of(gross, action_rate), platform_rate)
}

/// Splits `gross_amount` into `(net_amount, fee_amount)` at `rate_bps` basis
/// points; the two always add up to the gross amount.
pub fn compute_fee(gross_amount: u64, rate_bps: u16) -> (r: (u64, u64))
    requires
        rate_bps <= 10000,
    ensures
        r.1 == fee_of(gross_amount as int, rate_bps as int),
        r.0 + r.1 == gross_amount,
{
    proof {
        lemma_product_fits_u128(gross_amount as int, rate_bps as int);
        lemma_scaled_fraction(gross_amount as int, rate_bps as int, rate_bps as int, 10000);
    }
    let fee = ((gross_amount as u128 * rate_bps as u128) / BPS_DENOMINATOR as u128) as u64;
    (gross_amount - fee, fee)
}

/// Fee rates, in basis points, and where fees go.
#[derive(Debug, Clone, Copy)]
pub struct FeeConfig {
    /// Charged on every movement to the recipient, after the action's own fee.
    pub platform_fee_rate: u16,
    pub withdrawal_fee_rate: u16,
    pub cancellation_fee_rate: u16,
    pub fee_recipient: Address,
}

impl FeeConfig {
    pub open spec fn is_valid(&self) -> bool {
        &&& self.platform_fee_rate <= 10000
        &&& self.withdrawal_fee_rate <= 10000
        &&& self.cancellation_fee_rate <= 10000
    }

    /// Checks that every rate lies in `[0, 10000]`.
    pub fn validate(&self) -> (r: Result<(), StreamflowError>)
        ensures
            r is Ok <==> self.is_valid(),
            r is Err ==> r == Err::<(), _>(StreamflowError::InvalidFeeConfig),
    {
        if self.platform_fee_rate > BPS_DENOMINATOR || self.withdrawal_fee_rate > BPS_DENOMINATOR
            || self.cancellation_fee_rate > BPS_DENOMINATOR {
            return Err(StreamflowError::InvalidFeeConfig);
        }
        Ok(())
    }

    /// Splits a movement of `gross_amount` into what the payee receives and
    /// the fees: the action's rate first, then the platform rate on the rest.
    pub fn charge(&self, gross_amount: u64, action_rate: u16) -> (r: (u64, u64))
        requires
            self.is_valid(),
            action_rate <= 10000,
        ensures
            r.1 == layered_fee(gross_amount as int, action_rate as int, self.platform_fee_rate as int),
            r.0 + r.1 == gross_amount,
    {
        let (after_action, action_fee) = compute_fee(gross_amount, action_rate);
        let (net, platform_fee) = compute_fee(after_action, self.platform_fee_rate);
        (net, action_fee + platform_fee)
    }
}

impl Default for FeeConfig {
    fn default() -> (r: Self)
        ensures
            r.platform_fee_rate == 25,
            r.withdrawal_fee_rate == 0,
            r.cancellation_fee_rate == 0,
            r.fee_recipient@ == Seq::new(32, |i: int| 0u8),
    {
        FeeConfig {
            platform_fee_rate: 25,
            withdrawal_fee_rate: 0,
            cancellation_fee_rate: 0,
            fee_recipient: Address::zero(),
        }
    }
}

} // verus!
