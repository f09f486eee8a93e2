//! The fee engine: a pro-rata facilitator fee in basis points.
//!
//! `fee = floor(amount * fee_bps / 10000)`, computed with an overflow-checked
//! multiply before the divide; `net = amount - fee`.

use vstd::prelude::*;
use crate::account::Balance;

verus! {

/// One hundred percent, in basis points.
pub const BPS_SCALE: u16 = 10000;

/// The fee owed on `amount` at `fee_bps` basis points, as unbounded math.
pub open spec fn fee_of(amount: Balance, fee_bps: u16) -> int {
    amount * fee_bps / (BPS_SCALE as int)
}

/// Whether `amount * fee_bps` fits in 128 bits, so the fee is computable.
pub open spec fn fee_computable(amount: Balance, fee_bps: u16) -> bool {
    amount * fee_bps <= Balance::MAX
}

/// The fee never exceeds the amount when the rate is at most 100%.
pub proof fn lemma_fee_bounded(amount: Balance, fee_bps: u16)
    requires
        fee_bps <= BPS_SCALE,
    ensures
        0 <= fee_of(amount, fee_bps) <= amount,
{
    assert(0 <= amount * fee_bps <= amount * (BPS_SCALE as int)) by (nonlinear_arith)
        requires 0 <= amount, 0 <= fee_bps <= BPS_SCALE;
    assert(amount * (BPS_SCALE as int) / (BPS_SCALE as int) == amount) by (nonlinear_arith);
    assert(amount * fee_bps / (BPS_SCALE as int) <= amount * (BPS_SCALE as int) / (
    BPS_SCALE as int)) by (nonlinear_arith)
        requires 0 <= amount * fee_bps <= amount * (BPS_SCALE as int);
}

/// A basis-point rate clamped to at most 100%.
pub open spec fn clamped_bps(bps: u16) -> u16 {
    if bps > BPS_SCALE {
        BPS_SCALE
    } else {
        bps
    }
}

/// Clamps a basis-point rate to at most 100%.
pub fn clamp_bps(bps: u16) -> (r: u16)
    ensures
        r == clamped_bps(bps),
{
    if bps > BPS_SCALE {
        BPS_SCALE
    } else {
        bps
    }
}

/// Splits `amount` into `(fee, net)` at `fee_bps` basis points.
///
/// Fails exactly when the checked multiply would overflow 128 bits.
pub fn compute_fee(amount: Balance, fee_bps: u16) -> (r: Option<(Balance, Balance)>)
    requires
        fee_bps <= BPS_SCALE,
    ensures
        fee_computable(amount, fee_bps) ==> r == Some(
            ((fee_of(amount, fee_bps) as Balance), ((amount - fee_of(amount, fee_bps)) as Balance)),
        ),
        !fee_computable(amount, fee_bps) ==> r is None,
{
    proof {
        lemma_fee_bounded(amount, fee_bps);
    }
    match amount.checked_mul(fee_bps as u128) {
        Some(scaled) => {
            let fee: Balance = scaled / (BPS_SCALE as u128);
            Some((fee, amount - fee))
        },
        None => None,
    }
}

} // verus!
