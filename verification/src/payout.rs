use vstd::prelude::*;

use crate::errors::DiceError;

verus! {

/// Basis points making up the whole: an edge of 150 keeps 1.5% for the house.
pub const BPS_DENOMINATOR: u16 = 10_000;

/// The winning payout: the wagered amount reduced by the house edge, with
/// the division truncating toward zero.
pub open spec fn payout_spec(amount: u64, house_edge_bps: u16) -> int
    recommends
        house_edge_bps <= BPS_DENOMINATOR,
{
    (amount * (BPS_DENOMINATOR - house_edge_bps)) / (BPS_DENOMINATOR as int)
}

/// Computes the winning payout in 128-bit arithmetic, so that the product
/// `amount * (10_000 - house_edge_bps)` cannot overflow, and proves that the
/// quotient fits back into the settlement currency's 64-bit width. An edge
/// above the whole (more than 10_000 basis points) cannot be priced and is
/// rejected as an arithmetic fault.
pub fn payout_amount(amount: u64, house_edge_bps: u16) -> (r: Result<u64, DiceError>)
    ensures
        house_edge_bps <= BPS_DENOMINATOR ==> (r matches Ok(p) && p == payout_spec(
            amount,
            house_edge_bps,
        )),
        house_edge_bps > BPS_DENOMINATOR ==> r == Err::<u64, DiceError>(
            DiceError::ArithmeticOverflow,
        ),
        r matches Ok(p) ==> p <= amount,
{
    if house_edge_bps > BPS_DENOMINATOR {
        return Err(DiceError::ArithmeticOverflow);
    }
    let keep: u128 = (BPS_DENOMINATOR - house_edge_bps) as u128;
    assert((amount as u128) * keep <= (u64::MAX as u128) * 10_000) by (nonlinear_arith)
        requires
            keep <= 10_000,
            amount <= u64::MAX,
    ;
    let wide: u128 = (amount as u128) * keep;
    let quotient: u128 = wide / 10_000u128;
    proof {
        assert(wide <= (amount as int) * 10_000) by (nonlinear_arith)
            requires
                keep <= 10_000,
                wide == (amount as int) * (keep as int),
        ;
        assert(wide / 10_000 <= (amount as int) * 10_000 / 10_000) by (nonlinear_arith)
            requires
                wide <= (amount as int) * 10_000,
        ;
        assert((amount as int) * 10_000 / 10_000 == amount as int) by (nonlinear_arith);
    }
    Ok(quotient as u64)
}

/// With a zero house edge, the winner is paid back exactly the wagered amount.
pub proof fn lemma_payout_zero_edge(amount: u64)
    ensures
        payout_spec(amount, 0) == amount,
{
    assert((amount * 10_000) / 10_000 == amount) by (nonlinear_arith);
}

} // verus!
