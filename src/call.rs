use vstd::prelude::*;

use crate::address::Address;

verus! {

/// A contract call to run against the state overlay.
#[derive(Clone, Debug)]
pub struct EvmCall {
    pub caller: Address,
    pub to: Address,
    pub data: Vec<u8>,
}

/// What running a call gave back.
#[derive(Clone, Debug)]
pub enum CallOutcome {
    /// The call completed; its return payload.
    Success(Vec<u8>),
    /// The call reverted; its revert payload.
    Revert(Vec<u8>),
    /// Execution halted abnormally (out of gas, invalid opcode, ...).
    Halt,
    /// The call could not be run: the remote state could not be read.
    Unavailable,
}

/// Why a step of the simulation did not go through.
#[derive(Clone, Copy, Debug, PartialEq, Eq, Structural)]
pub enum Failure {
    /// The factory knows no pool for the two tokens.
    NoPool,
    /// Remote state could not be read.
    Unavailable,
    /// A call reverted.
    Reverted,
    /// A call halted abnormally.
    Halted,
    /// A return payload did not decode.
    Malformed,
    /// `transfer` returned false.
    TransferRefused,
    /// A reserve of the pool is zero.
    NoLiquidity,
}

/// The return payload of a completed call, or why there is none.
pub open spec fn output_of(o: CallOutcome) -> Result<Seq<u8>, Failure> {
    match o {
        CallOutcome::Success(v) => Ok(v@),
        CallOutcome::Revert(_) => Err(Failure::Reverted),
        CallOutcome::Halt => Err(Failure::Halted),
        CallOutcome::Unavailable => Err(Failure::Unavailable),
    }
}

/// The failure that a call outcome other than success stands for.
pub fn failure_of(o: &CallOutcome) -> (r: Failure)
    requires
        !(o is Success),
    ensures
        output_of(*o) == Err::<Seq<u8>, Failure>(r),
{
    match o {
        CallOutcome::Success(_) => Failure::Unavailable,
        CallOutcome::Revert(_) => Failure::Reverted,
        CallOutcome::Halt => Failure::Halted,
        CallOutcome::Unavailable => Failure::Unavailable,
    }
}

impl Failure {
    /// A short description of the failure.
    pub fn describe(&self) -> &'static str {
        match self {
            Failure::NoPool => "Pair does not exist on Uniswap V2",
            Failure::Unavailable => "remote state could not be read",
            Failure::Reverted => "execution reverted",
            Failure::Halted => "execution halted",
            Failure::Malformed => "return data could not be decoded",
            Failure::TransferRefused => "'transfer' failed",
            Failure::NoLiquidity => "pool has no liquidity",
        }
    }
}

} // verus!
