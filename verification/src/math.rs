//! The two fixed, auditable amount formulas of the engine: the fee taken
//! from an owner payout and the pro-rated refund of an unused part of a
//! term. Both round toward zero.

use vstd::prelude::*;

verus! {

/// The fee on a taxed leg: three percent of `amount`, rounded toward zero.
pub open spec fn spec_tax(amount: int) -> int {
    amount * 3 / 100
}

/// The pro-rated refund for `remaining` unused seconds of a `term_len`-second
/// term paid at `price`: the floor of `price * remaining / term_len`.
pub open spec fn spec_refund(price: int, remaining: int, term_len: int) -> int {
    price * remaining / term_len
}

/// The tax split is exact: the fee and the rest of the amount always add
/// back to the amount, with the fee never exceeding it.
pub proof fn lemma_tax_split(amount: u64)
    ensures
        0 <= spec_tax(amount as int) <= amount,
        spec_tax(amount as int) + (amount - spec_tax(amount as int)) == amount,
{
    assert(0 <= amount * 3 / 100 <= amount) by (nonlinear_arith);
}

/// A refund never exceeds the price, and uses the whole ratio exactly: zero
/// remaining seconds refund nothing, a whole remaining term refunds the
/// whole price.
pub proof fn lemma_refund_bounds(price: u64, remaining: int, term_len: int)
    requires
        0 <= remaining <= term_len,
        0 < term_len,
    ensures
        0 <= spec_refund(price as int, remaining, term_len) <= price,
        remaining == 0 ==> spec_refund(price as int, remaining, term_len) == 0,
        remaining == term_len ==> spec_refund(price as int, remaining, term_len) == price,
{
    assert(0 <= price * remaining / term_len) by (nonlinear_arith)
        requires
            0 <= remaining && 0 < term_len && 0 <= price,
    ;
    assert(price * remaining / term_len <= price) by (nonlinear_arith)
        requires
            0 <= remaining <= term_len && 0 < term_len && 0 <= price,
    ;
    if remaining == 0 {
        assert(price * 0 == 0) by (nonlinear_arith);
    }
    if remaining == term_len {
        assert(price * term_len / term_len == price) by (nonlinear_arith)
            requires
                0 < term_len && 0 <= price,
        ;
    }
}

/// Computes `spec_tax(amount)`, the three-percent fee rounded toward zero.
pub fn tax_of(amount: u64) -> (t: u64)
    ensures
        t == spec_tax(amount as int),
        t <= amount,
{
    let wide: u128 = (amount as u128) * 3;
    let t: u128 = wide / 100;
    proof {
        lemma_tax_split(amount);
        assert(t == spec_tax(amount as int));
    }
    t as u64
}

/// Computes `spec_refund(price, remaining, term_len)`, the pro-rated refund
/// rounded toward zero.
pub fn refund_of(price: u64, remaining: u64, term_len: u64) -> (r: u64)
    requires
        remaining <= term_len,
        0 < term_len,
    ensures
        r == spec_refund(price as int, remaining as int, term_len as int),
        r <= price,
{
    proof {
        assert(price * remaining < 0x100000000000000000000000000000000) by (nonlinear_arith)
            requires
                0 <= price < 0x10000000000000000 && 0 <= remaining < 0x10000000000000000,
        ;
    }
    let wide: u128 = (price as u128) * (remaining as u128);
    let r: u128 = wide / (term_len as u128);
    proof {
        lemma_refund_bounds(price, remaining as int, term_len as int);
        assert(r == spec_refund(price as int, remaining as int, term_len as int));
    }
    r as u64
}

} // verus!
