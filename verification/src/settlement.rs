use vstd::prelude::*;
use vstd::arithmetic::div_mod::{lemma_fundamental_div_mod, lemma_mod_bound};
use crate::state::BuyerDecisionState;

verus! {

/// How the custodied funds of one transaction are distributed at closing
/// time. The four amounts always add up to the settlement basis exactly.
#[derive(Clone, Copy, PartialEq, Eq, Structural, Debug)]
pub struct SettlementPlan {
    /// The referral beneficiary's share of the platform fee.
    pub reflink_amount: u64,
    /// The platform treasury's share of the fee.
    pub treasury_amount: u64,
    /// The seller's share: `close_rate` percent of the basis.
    pub seller_amount: u64,
    /// Whatever remains goes back to the buyer, absorbing all rounding
    /// residue.
    pub buyer_amount: u64,
}

/// The platform fee is owed only on a regular accepted settlement: the
/// seller keeps 95 percent and the buyer accepted the delivery. A 100
/// percent close rate marks the fee-free discount path, and a declined
/// transaction moves no value to the seller at all.
pub open spec fn fee_applies(close_rate: u8, decision: BuyerDecisionState) -> bool {
    close_rate == 95 && decision is Accept
}

/// A quarter percent of the basis: the referral beneficiary's cut when
/// the fee is split.
pub open spec fn referral_cut(basis: u64) -> int {
    basis * 25 / 10000
}

/// Four and a half percent of the basis: the treasury's cut beside a
/// referral payout.
pub open spec fn split_treasury_cut(basis: u64) -> int {
    basis * 45 / 1000
}

/// The full five percent fee, owed to the treasury when no referral is
/// honoured.
pub open spec fn full_treasury_cut(basis: u64) -> int {
    basis * 5 / 100
}

/// `close_rate` percent of the basis, rounded down: the seller's share.
pub open spec fn seller_cut(basis: u64, close_rate: u8) -> int {
    basis * close_rate / 100
}

/// The referral beneficiary's amount for a settlement.
pub open spec fn spec_reflink_amount(
    basis: u64,
    close_rate: u8,
    decision: BuyerDecisionState,
    referral_matched: bool,
) -> int {
    if fee_applies(close_rate, decision) && referral_matched {
        referral_cut(basis)
    } else {
        0
    }
}

/// The treasury's amount for a settlement.
pub open spec fn spec_treasury_amount(
    basis: u64,
    close_rate: u8,
    decision: BuyerDecisionState,
    referral_matched: bool,
) -> int {
    if fee_applies(close_rate, decision) {
        if referral_matched {
            split_treasury_cut(basis)
        } else {
            full_treasury_cut(basis)
        }
    } else {
        0
    }
}

/// The seller's amount for a settlement.
pub open spec fn spec_seller_amount(basis: u64, close_rate: u8) -> int {
    seller_cut(basis, close_rate)
}

/// The buyer's amount: the remaining balance after fee and seller share,
/// so integer-division residue always returns to the buyer.
pub open spec fn spec_buyer_amount(
    basis: u64,
    close_rate: u8,
    decision: BuyerDecisionState,
    referral_matched: bool,
) -> int {
    basis - spec_reflink_amount(basis, close_rate, decision, referral_matched)
        - spec_treasury_amount(basis, close_rate, decision, referral_matched)
        - spec_seller_amount(basis, close_rate)
}

/// `d * (x / d)` never exceeds `x`: what integer division hands out,
/// multiplied back, stays under the dividend.
proof fn lemma_div_times_denominator_le(x: int, d: int)
    requires
        x >= 0,
        d > 0,
    ensures
        0 <= d * (x / d) <= x,
        x / d >= 0,
{
    lemma_fundamental_div_mod(x, d);
    lemma_mod_bound(x, d);
    if x / d < 0 {
        assert(d * (x / d) <= -d) by (nonlinear_arith)
            requires
                d > 0 && x / d <= -1,
        ;
    }
    assert(d * (x / d) >= 0) by (nonlinear_arith)
        requires
            d > 0 && x / d >= 0,
    ;
}

/// The three outgoing cuts never over-draw the basis, whatever of the
/// allowed close rates and decisions settlement runs under.
pub proof fn lemma_cuts_fit(
    basis: u64,
    close_rate: u8,
    decision: BuyerDecisionState,
    referral_matched: bool,
)
    requires
        close_rate <= 100,
    ensures
        0 <= spec_reflink_amount(basis, close_rate, decision, referral_matched) <= basis,
        0 <= spec_treasury_amount(basis, close_rate, decision, referral_matched) <= basis,
        0 <= spec_seller_amount(basis, close_rate) <= basis,
        spec_reflink_amount(basis, close_rate, decision, referral_matched)
            + spec_treasury_amount(basis, close_rate, decision, referral_matched)
            + spec_seller_amount(basis, close_rate) <= basis,
{
    let b = basis as int;
    let r = close_rate as int;
    lemma_div_times_denominator_le(b * 25, 10000);
    lemma_div_times_denominator_le(b * 45, 1000);
    lemma_div_times_denominator_le(b * 5, 100);
    lemma_div_times_denominator_le(b * r, 100);
    assert(b * r <= b * 100) by (nonlinear_arith)
        requires
            b >= 0 && r <= 100,
    ;
    if fee_applies(close_rate, decision) {
        // close_rate is exactly 95 here; bring every cut over the common
        // denominator 10000: 25 + 450 + 9500 = 9975 <= 10000.
        assert(10000 * (b * 45 / 1000) <= 450 * b) by {
            assert(1000 * (b * 45 / 1000) <= 45 * b);
        };
        assert(10000 * (b * 95 / 100) <= 9500 * b) by {
            lemma_div_times_denominator_le(b * 95, 100);
            assert(100 * (b * 95 / 100) <= 95 * b);
        };
        assert(10000 * (b * 25 / 10000) <= 25 * b);
        if referral_matched {
            assert(10000 * (referral_cut(basis) + split_treasury_cut(basis) + seller_cut(
                basis,
                close_rate,
            )) <= 9975 * b);
        } else {
            let t = full_treasury_cut(basis);
            let c = seller_cut(basis, close_rate);
            assert(100 * (b * 5 / 100) <= 5 * b);
            assert(10000 * t <= 500 * b);
            assert(c == b * 95 / 100);
            assert(10000 * c <= 9500 * b);
            assert(10000 * (t + c) == 10000 * t + 10000 * c) by (nonlinear_arith);
            assert(10000 * (t + c) <= 10000 * b);
        }
    }
}

/// Law: settlement is value-conserving. Seller payout, buyer payout and
/// the fee payouts add up to the settlement basis exactly, for every
/// close rate the lifecycle can freeze and every decision outcome.
pub proof fn lemma_settlement_value_conserving(
    basis: u64,
    close_rate: u8,
    decision: BuyerDecisionState,
    referral_matched: bool,
)
    requires
        close_rate == 0 || close_rate == 95 || close_rate == 100,
    ensures
        spec_seller_amount(basis, close_rate) + spec_buyer_amount(
            basis,
            close_rate,
            decision,
            referral_matched,
        ) + spec_reflink_amount(basis, close_rate, decision, referral_matched)
            + spec_treasury_amount(basis, close_rate, decision, referral_matched) == basis,
        spec_buyer_amount(basis, close_rate, decision, referral_matched) >= 0,
{
    lemma_cuts_fit(basis, close_rate, decision, referral_matched);
}

/// Computes the final fund split for one settlement: the platform fee
/// (split with a matched referral beneficiary, or flat to the treasury),
/// the seller's `close_rate` percent, and the remainder back to the
/// buyer.
pub fn compute_settlement(
    basis: u64,
    close_rate: u8,
    decision: BuyerDecisionState,
    referral_matched: bool,
) -> (plan: SettlementPlan)
    requires
        close_rate <= 100,
    ensures
        plan.reflink_amount == spec_reflink_amount(basis, close_rate, decision, referral_matched),
        plan.treasury_amount == spec_treasury_amount(basis, close_rate, decision, referral_matched),
        plan.seller_amount == spec_seller_amount(basis, close_rate),
        plan.buyer_amount == spec_buyer_amount(basis, close_rate, decision, referral_matched),
        plan.reflink_amount + plan.treasury_amount + plan.seller_amount + plan.buyer_amount
            == basis,
{
    proof {
        lemma_cuts_fit(basis, close_rate, decision, referral_matched);
    }
    let b = basis as u128;
    let fee = close_rate == 95 && matches!(decision, BuyerDecisionState::Accept);
    let reflink_amount: u64 = if fee && referral_matched {
        (b * 25 / 10000) as u64
    } else {
        0
    };
    let treasury_amount: u64 = if fee {
        if referral_matched {
            (b * 45 / 1000) as u64
        } else {
            (b * 5 / 100) as u64
        }
    } else {
        0
    };
    let seller_amount: u64 = (b * (close_rate as u128) / 100) as u64;
    let buyer_amount: u64 = basis - reflink_amount - treasury_amount - seller_amount;
    SettlementPlan { reflink_amount, treasury_amount, seller_amount, buyer_amount }
}

} // verus!
