use vstd::prelude::*;

verus! {

/// Chain identifier of the main network, the only one a run accepts.
pub const MAINNET_CHAIN_ID: u64 = 1;

/// The AMM family a run trades on.
#[derive(Clone, Copy, Debug, PartialEq, Eq, Structural)]
pub enum Protocol {
    UniV2,
    UniV3,
}

impl Protocol {
    /// Only the constant-product family is implemented.
    pub fn is_implemented(&self) -> (r: bool)
        ensures
            r == (*self is UniV2),
    {
        match self {
            Protocol::UniV2 => true,
            Protocol::UniV3 => false,
        }
    }
}

/// The command line of a run, as given.
#[derive(Clone, Debug)]
pub struct Cli {
    /// Address of the token to test.
    pub token: String,
    /// Print balances before and after the swaps.
    pub logs: bool,
    /// Address the test trades from.
    pub sender: Option<String>,
    /// The RPC endpoint.
    pub rpc_url: String,
    /// The protocol used to test the token.
    pub protocol: Protocol,
}

} // verus!
