use vstd::prelude::*;

use vstd::arithmetic::div_mod::{lemma_fundamental_div_mod, lemma_mod_bound};

verus! {

/// The output that a constant-product pool pays for `amount_in`, after keeping
/// the fee: `fee_num / fee_den` of the input is traded (997/1000 on the pools
/// that the router quotes), and the result is rounded down.
pub open spec fn amount_out(
    amount_in: nat,
    reserve_in: nat,
    reserve_out: nat,
    fee_num: nat,
    fee_den: nat,
) -> nat {
    let with_fee = amount_in * fee_num;
    let denominator = reserve_in * fee_den + with_fee;
    if denominator == 0 {
        0
    } else {
        (with_fee * reserve_out) / denominator
    }
}

proof fn lemma_div_times_le(n: int, d: int)
    requires
        n >= 0,
        d > 0,
    ensures
        (n / d) * d <= n,
        n / d >= 0,
{
    lemma_fundamental_div_mod(n, d);
    lemma_mod_bound(n, d);
    assert((n / d) * d == d * (n / d)) by (nonlinear_arith);
    assert(n / d >= 0) by (nonlinear_arith)
        requires
            n >= 0,
            d > 0,
            n == d * (n / d) + n % d,
            n % d < d,
    ;
}

/// Buying and at once selling back through a pool that keeps a fee loses:
/// after trading `a` of one token for `x1` of the other, the pool holds
/// `reserve_in + a` and `reserve_out - x1`, and trading the `x1` back pays
/// out strictly less than `a`.  (The first leg also never drains the pool.)
pub proof fn lemma_round_trip_loses(a: nat, reserve_in: nat, reserve_out: nat, fee_num: nat, fee_den: nat)
    requires
        a > 0,
        reserve_in > 0,
        reserve_out > 0,
        0 < fee_num < fee_den,
    ensures
        amount_out(a, reserve_in, reserve_out, fee_num, fee_den) < reserve_out,
        amount_out(
            amount_out(a, reserve_in, reserve_out, fee_num, fee_den),
            (reserve_out - amount_out(a, reserve_in, reserve_out, fee_num, fee_den)) as nat,
            reserve_in + a,
            fee_num,
            fee_den,
        ) < a,
{
    let g = fee_num as int;
    let d = fee_den as int;
    let r = reserve_in as int;
    let big_r = reserve_out as int;
    let ai = a as int;
    let d1 = r * d + ai * g;
    let n1 = ai * g * big_r;
    assert(d1 > 0 && n1 >= 0 && ai * g >= 0 && r * d > 0 && ai * d > 0 && g * r > 0)
        by (nonlinear_arith)
        requires
            r > 0,
            d > 0,
            ai > 0,
            g > 0,
            big_r > 0,
            d1 == r * d + ai * g,
            n1 == ai * g * big_r,
    ;
    assert((ai * fee_num) * reserve_out == n1) by (nonlinear_arith)
        requires
            n1 == ai * g * big_r,
            g == fee_num,
            big_r == reserve_out,
    ;
    let x1 = n1 / d1;
    lemma_div_times_le(n1, d1);
    assert(amount_out(a, reserve_in, reserve_out, fee_num, fee_den) == x1);
    // x1 < reserve_out, since a * g < d1
    assert(x1 < big_r) by (nonlinear_arith)
        requires
            x1 * d1 <= ai * g * big_r,
            ai * g < d1,
            big_r > 0,
            d1 > 0,
            x1 >= 0,
    ;
    let r2 = big_r - x1;
    let i2 = r + ai;
    let d2 = r2 * d + x1 * g;
    let n2 = x1 * g * i2;
    assert(d2 > 0 && n2 >= 0) by (nonlinear_arith)
        requires
            r2 > 0,
            d > 0,
            x1 >= 0,
            g > 0,
            i2 > 0,
            d2 == r2 * d + x1 * g,
            n2 == x1 * g * i2,
    ;
    // the key inequality: x1 * (a d + g r) < a d R
    let k = ai * d + g * r;
    assert(k > 0);
    assert(g * k < d * d1) by (nonlinear_arith)
        requires
            0 < g < d,
            r > 0,
            ai > 0,
            k == ai * d + g * r,
            d1 == r * d + ai * g,
    ;
    assert(x1 * d1 * k <= n1 * k) by (nonlinear_arith)
        requires
            x1 * d1 <= n1,
            k > 0,
    ;
    assert(n1 * k < ai * d * big_r * d1) by (nonlinear_arith)
        requires
            n1 == ai * g * big_r,
            g * k < d * d1,
            ai > 0,
            big_r > 0,
    ;
    assert(x1 * k < ai * d * big_r) by (nonlinear_arith)
        requires
            x1 * d1 * k < ai * d * big_r * d1,
            d1 > 0,
    ;
    assert(n2 < ai * d2) by (nonlinear_arith)
        requires
            x1 * k < ai * d * big_r,
            k == ai * d + g * r,
            n2 == x1 * g * i2,
            i2 == r + ai,
            d2 == r2 * d + x1 * g,
            r2 == big_r - x1,
    ;
    let x2 = n2 / d2;
    lemma_div_times_le(n2, d2);
    assert(x2 < ai) by (nonlinear_arith)
        requires
            x2 * d2 <= n2,
            n2 < ai * d2,
            d2 > 0,
    ;
    let x1n = amount_out(a, reserve_in, reserve_out, fee_num, fee_den);
    assert((x1n * fee_num) * (reserve_in + a) == n2) by (nonlinear_arith)
        requires
            x1n == x1,
            n2 == x1 * g * i2,
            g == fee_num,
            i2 == reserve_in + a,
    ;
    assert(((reserve_out - x1n) as nat) * fee_den + x1n * fee_num == d2) by (nonlinear_arith)
        requires
            x1n == x1,
            x1 < big_r,
            big_r == reserve_out,
            d2 == r2 * d + x1 * g,
            r2 == big_r - x1,
            g == fee_num,
            d == fee_den,
    ;
}

} // verus!
