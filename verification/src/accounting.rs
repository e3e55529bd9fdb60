use vstd::prelude::*;
use vstd::arithmetic::div_mod::{lemma_fundamental_div_mod, lemma_mod_bound};

verus! {

/// Whether an open request actually consumes a dispute-discount credit:
/// the buyer asked for it and has credit left.
pub open spec fn discount_consumed(discounts: u64, use_discount: bool) -> bool {
    use_discount && discounts > 0
}

/// The commission rate fixed at open time: 100 when a discount credit is
/// consumed (the fee was already shaved off the price), else 95.
pub open spec fn open_rate(discounts: u64, use_discount: bool) -> u8 {
    if discount_consumed(discounts, use_discount) {
        100u8
    } else {
        95u8
    }
}

/// The buyer's credit balance after an open: one credit less exactly
/// when the discount was consumed.
pub open spec fn open_discounts_after(discounts: u64, use_discount: bool) -> int {
    if discount_consumed(discounts, use_discount) {
        discounts - 1
    } else {
        discounts as int
    }
}

/// The price actually custodied: consuming a discount shaves five
/// percent up front.
pub open spec fn effective_price(price: u64, consumed: bool) -> int {
    if consumed {
        price * 95 / 100
    } else {
        price as int
    }
}

/// The buyer's credit balance after a decline or early-decline rollback:
/// one credit back exactly when the transaction ran at the discount rate.
pub open spec fn refund_discounts_after(discounts: int, rate: u8) -> int {
    if rate == 100 {
        discounts + 1
    } else {
        discounts
    }
}

/// Law: a discount credit is consumed at most once per open and refunded
/// at most once per decline, and over an open followed by a decline the
/// buyer's credit balance is exactly what it was before.
pub proof fn lemma_discount_round_trip(discounts: u64, use_discount: bool)
    ensures
        refund_discounts_after(
            open_discounts_after(discounts, use_discount),
            open_rate(discounts, use_discount),
        ) == discounts,
{
}

/// The effective price never exceeds the asked price, so the custodied
/// amount still fits the price field.
pub proof fn lemma_effective_price_le(price: u64, consumed: bool)
    ensures
        0 <= effective_price(price, consumed) <= price,
{
    if consumed {
        let p = price as int;
        lemma_fundamental_div_mod(p * 95, 100);
        lemma_mod_bound(p * 95, 100);
        assert(p * 95 >= 0 && p * 95 <= 100 * p) by (nonlinear_arith)
            requires
                p >= 0,
        ;
        if p * 95 / 100 < 0 {
            assert(100 * (p * 95 / 100) <= -100) by (nonlinear_arith)
                requires
                    p * 95 / 100 <= -1,
            ;
        }
        if p * 95 / 100 > p {
            assert(100 * (p * 95 / 100) >= 100 * p + 100) by (nonlinear_arith)
                requires
                    p * 95 / 100 >= p + 1,
            ;
        }
    }
}

} // verus!
