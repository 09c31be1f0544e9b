use vstd::prelude::*;

use crate::abi::{
    balance_of_data, bool_of, decimals_data, decode_bool, decode_string, decode_uint, decode_uint8,
    encode_balance_of, encode_transfer, first_word, name_data, selector, string_of, symbol_data,
    transfer_data, uint8_of,
};
use crate::address::Address;
use crate::call::{failure_of, output_of, CallOutcome, EvmCall, Failure};
use crate::word::U256;

verus! {

/// An ERC-20 token: its address and its metadata (informational only).
#[derive(Clone, Debug)]
pub struct ERC20 {
    pub address: Address,
    pub name: String,
    pub symbol: String,
    pub decimals: u8,
}

/// The balance that a `balanceOf` outcome reports.
pub open spec fn balance_result(o: CallOutcome) -> Result<U256, Failure> {
    match output_of(o) {
        Ok(out) => match first_word(out) {
            Some(w) => Ok(w),
            None => Err(Failure::Malformed),
        },
        Err(f) => Err(f),
    }
}

/// Whether a `transfer` outcome means the transfer took place.  An empty
/// return payload counts as success: many tokens return nothing, and a failed
/// transfer of theirs reverts.
pub open spec fn transfer_result_spec(o: CallOutcome) -> Result<(), Failure> {
    match output_of(o) {
        Ok(out) => if out.len() == 0 {
            Ok(())
        } else {
            match bool_of(out) {
                Some(true) => Ok(()),
                Some(false) => Err(Failure::TransferRefused),
                None => Err(Failure::Malformed),
            }
        },
        Err(f) => Err(f),
    }
}

/// The call that asks `token` for the balance of `owner`.
pub fn balance_of(token: &Address, owner: &Address, sender: &Address) -> (r: EvmCall)
    ensures
        r.caller == *sender,
        r.to == *token,
        r.data@ == balance_of_data(*owner),
{
    EvmCall { caller: *sender, to: *token, data: encode_balance_of(owner) }
}

/// The call by `from` that moves `amount` of `token` to `to`.
pub fn transfer(from: &Address, to: &Address, amount: &U256, token: &Address) -> (r: EvmCall)
    ensures
        r.caller == *from,
        r.to == *token,
        r.data@ == transfer_data(*to, *amount),
{
    EvmCall { caller: *from, to: *token, data: encode_transfer(to, amount) }
}

/// Reads the balance out of a `balanceOf` outcome.
pub fn balance_from(o: &CallOutcome) -> (r: Result<U256, Failure>)
    ensures
        r == balance_result(*o),
{
    match o {
        CallOutcome::Success(out) => match decode_uint(out) {
            Some(w) => Ok(w),
            None => Err(Failure::Malformed),
        },
        _ => Err(failure_of(o)),
    }
}

/// Reads a `transfer` outcome.
pub fn transfer_result(o: &CallOutcome) -> (r: Result<(), Failure>)
    ensures
        r == transfer_result_spec(*o),
{
    match o {
        CallOutcome::Success(out) => {
            if out.len() == 0 {
                return Ok(());
            }
            match decode_bool(out) {
                Some(true) => Ok(()),
                Some(false) => Err(Failure::TransferRefused),
                None => Err(Failure::Malformed),
            }
        },
        _ => Err(failure_of(o)),
    }
}

/// Why metadata answers do not make a token: the first call that failed, in
/// the order name, symbol, decimals; else, the first answer that does not
/// decode.
pub open spec fn metadata_failure(name: CallOutcome, symbol: CallOutcome, decimals: CallOutcome) -> Option<
    Failure,
> {
    match (output_of(name), output_of(symbol), output_of(decimals)) {
        (Err(f), _, _) => Some(f),
        (Ok(_), Err(f), _) => Some(f),
        (Ok(_), Ok(_), Err(f)) => Some(f),
        (Ok(n), Ok(s), Ok(d)) => if string_of(n) is Some && string_of(s) is Some && uint8_of(
            d,
        ) is Some {
            None
        } else {
            Some(Failure::Malformed)
        },
    }
}

/// The read-only calls that ask `token` for its name, symbol and decimals.
pub fn metadata_queries(token: &Address, sender: &Address) -> (r: (EvmCall, EvmCall, EvmCall))
    ensures
        r.0.to == *token && r.0.caller == *sender && r.0.data@ == name_data(),
        r.1.to == *token && r.1.caller == *sender && r.1.data@ == symbol_data(),
        r.2.to == *token && r.2.caller == *sender && r.2.data@ == decimals_data(),
{
    (
        EvmCall { caller: *sender, to: *token, data: selector("name()") },
        EvmCall { caller: *sender, to: *token, data: selector("symbol()") },
        EvmCall { caller: *sender, to: *token, data: selector("decimals()") },
    )
}

fn answer_output(o: &CallOutcome) -> (r: Result<&Vec<u8>, Failure>)
    ensures
        r matches Ok(v) ==> output_of(*o) == Ok::<Seq<u8>, Failure>(v@),
        r matches Err(f) ==> output_of(*o) == Err::<Seq<u8>, Failure>(f),
{
    match o {
        CallOutcome::Success(v) => Ok(v),
        _ => Err(failure_of(o)),
    }
}

/// Builds the token at `token` from its answers to `name()`, `symbol()` and
/// `decimals()`.
pub fn get_erc20_info(
    token: &Address,
    name: &CallOutcome,
    symbol: &CallOutcome,
    decimals: &CallOutcome,
) -> (r: Result<ERC20, Failure>)
    ensures
        r matches Err(f) ==> metadata_failure(*name, *symbol, *decimals) == Some(f),
        r matches Ok(t) ==> {
            &&& metadata_failure(*name, *symbol, *decimals) is None
            &&& t.address == *token
            &&& output_of(*name) matches Ok(n) && string_of(n) == Some(t.name@)
            &&& output_of(*symbol) matches Ok(s) && string_of(s) == Some(t.symbol@)
            &&& output_of(*decimals) matches Ok(d) && uint8_of(d) == Some(t.decimals)
        },
{
    let n = answer_output(name)?;
    let s = answer_output(symbol)?;
    let d = answer_output(decimals)?;
    let name_text = decode_string(n);
    let symbol_text = decode_string(s);
    let places = decode_uint8(d);
    match (name_text, symbol_text, places) {
        (Some(name), Some(symbol), Some(decimals)) => Ok(
            ERC20 { address: *token, name, symbol, decimals },
        ),
        _ => Err(Failure::Malformed),
    }
}

impl ERC20 {
    /// The call that asks this token for the balance of `owner`.
    pub fn balance_of(&self, owner: &Address, sender: &Address) -> (r: EvmCall)
        ensures
            r.caller == *sender,
            r.to == self.address,
            r.data@ == balance_of_data(*owner),
    {
        balance_of(&self.address, owner, sender)
    }

    /// The call by `from` that moves `amount` of this token to `to`.
    pub fn transfer(&self, from: &Address, to: &Address, amount: &U256) -> (r: EvmCall)
        ensures
            r.caller == *from,
            r.to == self.address,
            r.data@ == transfer_data(*to, *amount),
    {
        transfer(from, to, amount, &self.address)
    }
}

} // verus!
