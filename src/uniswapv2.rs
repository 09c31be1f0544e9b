use vstd::prelude::*;

use crate::abi::{
    decode_address_strict, decode_reserves, decode_uint, encode_get_amount_out, encode_get_pair,
    encode_get_reserves, encode_swap, first_word, get_amount_out_data, get_pair_data,
    get_reserves_data, reserves_of, strict_address_of, swap_data,
};
use crate::address::{bytes_lt, lemma_address_order_total, zero_bytes, Address};
use crate::call::{failure_of, output_of, CallOutcome, EvmCall, Failure};
use crate::word::U256;

verus! {

/// A constant-product pool and its two tokens, in canonical order.
#[derive(Clone, Copy, Debug, PartialEq, Eq)]
pub struct UniV2Pair {
    pub address: Address,
    pub token0: Address,
    pub token1: Address,
}

/// The constant-product AMM protocol.
pub struct UniswapV2;

impl UniswapV2 {
    pub fn new() -> Self {
        UniswapV2
    }
}

/// Two tokens in canonical order: the one that precedes first.
pub open spec fn ordered(a: Address, b: Address) -> (Address, Address) {
    if bytes_lt(a@, b@) {
        (a, b)
    } else {
        (b, a)
    }
}

/// The pair that the factory's answer to `getPair(token_a, token_b)` names.
pub open spec fn pair_of(token_a: Address, token_b: Address, o: CallOutcome) -> Result<
    UniV2Pair,
    Failure,
> {
    match output_of(o) {
        Ok(out) => match strict_address_of(out) {
            Some(pool) => if pool@ == zero_bytes(20) {
                Err(Failure::NoPool)
            } else {
                Ok(
                    UniV2Pair {
                        address: pool,
                        token0: ordered(token_a, token_b).0,
                        token1: ordered(token_a, token_b).1,
                    },
                )
            },
            None => Err(Failure::Malformed),
        },
        Err(f) => Err(f),
    }
}

/// The reserves that a `getReserves()` outcome reports, as `(reserve0, reserve1)`.
pub open spec fn reserves_result(o: CallOutcome) -> Result<(U256, U256), Failure> {
    match output_of(o) {
        Ok(out) => match reserves_of(out) {
            Some(r) => Ok(r),
            None => Err(Failure::Malformed),
        },
        Err(f) => Err(f),
    }
}

/// The amount that a `getAmountOut` outcome quotes.
pub open spec fn amount_out_result(o: CallOutcome) -> Result<U256, Failure> {
    match output_of(o) {
        Ok(out) => match first_word(out) {
            Some(w) => Ok(w),
            None => Err(Failure::Malformed),
        },
        Err(f) => Err(f),
    }
}

/// Whether a `swap` outcome means the swap took place.
pub open spec fn swap_result_spec(o: CallOutcome) -> Result<(), Failure> {
    match output_of(o) {
        Ok(_) => Ok(()),
        Err(f) => Err(f),
    }
}

/// True when `token_in` is the pool's token0.
pub open spec fn token0_in(pair: UniV2Pair, token_in: Address) -> bool {
    pair.token0@ == token_in@
}

/// The pool's reserves as `(reserve_in, reserve_out)` for a trade that pays
/// in `token_in`.
pub open spec fn oriented(pair: UniV2Pair, token_in: Address, reserves: (U256, U256)) -> (
    U256,
    U256,
) {
    if token0_in(pair, token_in) {
        reserves
    } else {
        (reserves.1, reserves.0)
    }
}

/// The `(amount0Out, amount1Out)` words of a swap that pays in `token_in` and
/// takes `amount_out` of the other token.
pub open spec fn swap_outputs(pair: UniV2Pair, token_in: Address, amount_out: U256) -> (
    Seq<u8>,
    Seq<u8>,
) {
    if token0_in(pair, token_in) {
        (zero_bytes(32), amount_out@)
    } else {
        (amount_out@, zero_bytes(32))
    }
}

/// Whichever order the two tokens are given in, a resolved pair holds them in
/// canonical order, token0 strictly before token1, and resolving them in the
/// other order gives the same pair.
pub proof fn lemma_pair_canonical(token_a: Address, token_b: Address, o: CallOutcome)
    requires
        token_a@ != token_b@,
    ensures
        pair_of(token_a, token_b, o) == pair_of(token_b, token_a, o),
        pair_of(token_a, token_b, o) matches Ok(p) ==> {
            &&& bytes_lt(p.token0@, p.token1@)
            &&& (p.token0 == token_a && p.token1 == token_b) || (p.token0 == token_b && p.token1
                == token_a)
        },
{
    lemma_address_order_total(token_a, token_b);
}

/// The read-only call that asks `factory` for the pool of two tokens.
pub fn pair_query(factory: &Address, token_a: &Address, token_b: &Address, sender: &Address) -> (r:
    EvmCall)
    ensures
        r.caller == *sender,
        r.to == *factory,
        r.data@ == get_pair_data(*token_a, *token_b),
{
    EvmCall { caller: *sender, to: *factory, data: encode_get_pair(token_a, token_b) }
}

/// Resolves the pair of two tokens from the factory's answer to `getPair`: a
/// zero pool address means that there is no pool.
pub fn get_pair(token_a: &Address, token_b: &Address, factory_answer: &CallOutcome) -> (r: Result<
    UniV2Pair,
    Failure,
>)
    ensures
        r == pair_of(*token_a, *token_b, *factory_answer),
{
    let out = match factory_answer {
        CallOutcome::Success(out) => out,
        _ => {
            return Err(failure_of(factory_answer));
        },
    };
    let pool = match decode_address_strict(out) {
        Some(pool) => pool,
        None => {
            return Err(Failure::Malformed);
        },
    };
    if pool.is_zero() {
        return Err(Failure::NoPool);
    }
    let (token0, token1) = if token_a.precedes(token_b) {
        (*token_a, *token_b)
    } else {
        (*token_b, *token_a)
    };
    Ok(UniV2Pair { address: pool, token0, token1 })
}

/// The call that reads the reserves of `pair`.
pub fn reserves_query(pair: &Address, sender: &Address) -> (r: EvmCall)
    ensures
        r.caller == *sender,
        r.to == *pair,
        r.data@ == get_reserves_data(),
{
    EvmCall { caller: *sender, to: *pair, data: encode_get_reserves() }
}

/// Reads `(reserve0, reserve1)` out of a `getReserves()` outcome.
pub fn get_univ2_reserves(o: &CallOutcome) -> (r: Result<(U256, U256), Failure>)
    ensures
        r == reserves_result(*o),
{
    match o {
        CallOutcome::Success(out) => match decode_reserves(out) {
            Some(r) => Ok(r),
            None => Err(Failure::Malformed),
        },
        _ => Err(failure_of(o)),
    }
}

/// The call that asks `router` to quote a trade of `amount_in` against the
/// given reserves.
pub fn amount_out_query(
    router: &Address,
    amount_in: &U256,
    reserve_in: &U256,
    reserve_out: &U256,
    sender: &Address,
) -> (r: EvmCall)
    ensures
        r.caller == *sender,
        r.to == *router,
        r.data@ == get_amount_out_data(*amount_in, *reserve_in, *reserve_out),
{
    EvmCall {
        caller: *sender,
        to: *router,
        data: encode_get_amount_out(amount_in, reserve_in, reserve_out),
    }
}

/// Reads the quoted amount out of a `getAmountOut` outcome.
pub fn get_univ2_amount_out(o: &CallOutcome) -> (r: Result<U256, Failure>)
    ensures
        r == amount_out_result(*o),
{
    match o {
        CallOutcome::Success(out) => match decode_uint(out) {
            Some(w) => Ok(w),
            None => Err(Failure::Malformed),
        },
        _ => Err(failure_of(o)),
    }
}

/// Orders the pool's reserves for a trade that pays in `token_in`.
pub fn orient_reserves(pair: &UniV2Pair, token_in: &Address, reserves: (U256, U256)) -> (r: (
    U256,
    U256,
))
    ensures
        r == oriented(*pair, *token_in, reserves),
{
    if pair.token0.same_as(token_in) {
        reserves
    } else {
        (reserves.1, reserves.0)
    }
}

/// The call by `sender` that makes `pair` pay out `amount_out` of the token
/// other than `token_in` to `sender`.
pub fn univ2_swap(sender: &Address, pair: &UniV2Pair, token_in: &Address, amount_out: &U256) -> (r:
    EvmCall)
    ensures
        r.caller == *sender,
        r.to == pair.address,
        r.data@ == swap_data(
            swap_outputs(*pair, *token_in, *amount_out).0,
            swap_outputs(*pair, *token_in, *amount_out).1,
            *sender,
        ),
{
    let zero = U256::zero();
    let data = if pair.token0.same_as(token_in) {
        encode_swap(&zero, amount_out, sender)
    } else {
        encode_swap(amount_out, &zero, sender)
    };
    EvmCall { caller: *sender, to: pair.address, data }
}

/// Reads a `swap` outcome: any completed call counts.
pub fn swap_result(o: &CallOutcome) -> (r: Result<(), Failure>)
    ensures
        r == swap_result_spec(*o),
{
    match o {
        CallOutcome::Success(_) => Ok(()),
        _ => Err(failure_of(o)),
    }
}

} // verus!
