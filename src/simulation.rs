use vstd::prelude::*;

use crate::abi::{
    get_amount_out_data, get_pair_data, get_reserves_data, mapping_key, mapping_slot, swap_data,
    transfer_data,
};
use crate::address::{address_of, zero_bytes, Address};
use crate::call::{output_of, CallOutcome, EvmCall, Failure};
use crate::erc20::{transfer, transfer_result, transfer_result_spec};
use crate::uniswapv2::{
    amount_out_query, amount_out_result, get_pair, get_univ2_amount_out, get_univ2_reserves,
    orient_reserves, oriented, pair_of, pair_query, reserves_query, reserves_result, swap_outputs,
    swap_result, swap_result_spec, univ2_swap, UniV2Pair,
};
use crate::verdict::{classify, classify_spec, Verdict};
use crate::word::{lemma_word_for, word_for, U256};

verus! {

/// What a run is told before it starts.
#[derive(Clone, Copy, Debug, PartialEq, Eq)]
pub struct SimConfig {
    /// The base asset (the wrapped native currency) that the run pays with.
    pub base_token: Address,
    /// The token under test.
    pub subject_token: Address,
    /// The account that trades.
    pub sender: Address,
    /// The AMM factory that knows the pools.
    pub factory: Address,
    /// The AMM router that quotes trades.
    pub router: Address,
    /// Storage slot of the base asset's `balanceOf` mapping.
    pub balance_slot: u128,
    /// Balance of the base asset given to the sender.
    pub fund_amount: u128,
    /// The first leg trades `fund_amount / trade_divisor`, rounded up.
    pub trade_divisor: u128,
}

/// Where a run stands.
#[derive(Clone, Copy, Debug, PartialEq, Eq)]
pub enum Phase {
    /// Looking up the pool of the two tokens.
    ResolvePair,
    /// Giving the sender its base-asset balance.
    Fund,
    /// Reading the pool's reserves for the current leg.
    Reserves,
    /// Sending the current leg's input into the pool.
    Transfer,
    /// Asking the router what the current leg pays out.
    Quote,
    /// Executing the current leg's swap.
    Swap,
    /// Finished, with a verdict.
    Done(Verdict),
}

/// The writes that give the sender its starting balance: the account's native
/// balance, and its entry in the base asset's balance mapping.
#[derive(Clone, Copy, Debug, PartialEq, Eq)]
pub struct Funding {
    pub account: Address,
    pub balance: U256,
    pub token: Address,
    pub slot: U256,
    pub value: U256,
}

/// What the caller is to do next.
#[derive(Clone, Debug)]
pub enum Action {
    /// A read-only call against the remote chain, outside the overlay.
    Lookup(EvmCall),
    /// Write the funding into the overlay.
    Fund(Funding),
    /// Run a call on the overlay and discard its state changes.
    Query(EvmCall),
    /// Run a call on the overlay and keep its state changes.
    Execute(EvmCall),
    /// Stop: the run has its verdict.
    Finish(Verdict),
}

/// A round-trip swap simulation: buy the subject token with the base asset,
/// then sell it back.
#[derive(Clone, Copy, Debug, PartialEq, Eq)]
pub struct Simulation {
    pub config: SimConfig,
    pub phase: Phase,
    /// The leg under way: 0 before the first, 1 buying, 2 selling.
    pub leg: u8,
    pub pair: UniV2Pair,
    /// `config.fund_amount` as a word.
    pub funding: U256,
    /// `config.balance_slot` as a word.
    pub slot: U256,
    /// The first leg's input.
    pub trade: U256,
    /// The current leg's input.
    pub amount_in: U256,
    pub reserve_in: U256,
    pub reserve_out: U256,
    /// The current leg's quoted output.
    pub quote: U256,
    /// What the first leg paid out.
    pub leg1_out: U256,
}

/// A run of `config` that has not started yet.
pub open spec fn fresh(config: SimConfig) -> Simulation {
    let zero = word_for(0);
    let nowhere = address_of(zero_bytes(20));
    Simulation {
        config,
        phase: Phase::ResolvePair,
        leg: 0,
        pair: UniV2Pair { address: nowhere, token0: nowhere, token1: nowhere },
        funding: word_for(config.fund_amount as nat),
        slot: word_for(config.balance_slot as nat),
        trade: word_for(ceil_div(config.fund_amount as nat, config.trade_divisor as nat)),
        amount_in: zero,
        reserve_in: zero,
        reserve_out: zero,
        quote: zero,
        leg1_out: zero,
    }
}

/// `a / b` rounded up.
pub open spec fn ceil_div(a: nat, b: nat) -> nat {
    if a % b == 0 {
        a / b
    } else {
        a / b + 1
    }
}

/// The token that the current leg pays in.
pub open spec fn token_in(s: Simulation) -> Address {
    if s.leg == 1 {
        s.config.base_token
    } else {
        s.config.subject_token
    }
}

/// True of the phases inside a swap leg.
pub open spec fn in_leg(p: Phase) -> bool {
    p is Reserves || p is Transfer || p is Quote || p is Swap
}

/// True of the phases that come after the reserves were read.
pub open spec fn priced(p: Phase) -> bool {
    p is Transfer || p is Quote || p is Swap
}

/// `s` finished with verdict `v`.
pub open spec fn finish(s: Simulation, v: Verdict) -> Simulation {
    Simulation { phase: Phase::Done(v), ..s }
}

/// `s` finished by failure `f` in its current leg.
pub open spec fn fail(s: Simulation, f: Failure) -> Simulation {
    finish(s, classify_spec(s.leg, f))
}

/// The state after the outcome `e` of the action that state `s` asked for.
pub open spec fn next(s: Simulation, e: CallOutcome) -> Simulation {
    match s.phase {
        Phase::ResolvePair => match pair_of(s.config.subject_token, s.config.base_token, e) {
            Ok(p) => Simulation { phase: Phase::Fund, pair: p, ..s },
            Err(f) => fail(s, f),
        },
        Phase::Fund => match output_of(e) {
            Ok(_) => Simulation { phase: Phase::Reserves, leg: 1, amount_in: s.trade, ..s },
            Err(f) => fail(s, f),
        },
        Phase::Reserves => match reserves_result(e) {
            Ok(r) => {
                let (rin, rout) = oriented(s.pair, token_in(s), r);
                if rin.value() == 0 || rout.value() == 0 {
                    fail(s, Failure::NoLiquidity)
                } else {
                    Simulation { phase: Phase::Transfer, reserve_in: rin, reserve_out: rout, ..s }
                }
            },
            Err(f) => fail(s, f),
        },
        Phase::Transfer => match transfer_result_spec(e) {
            Ok(_) => Simulation { phase: Phase::Quote, ..s },
            Err(f) => fail(s, f),
        },
        Phase::Quote => match amount_out_result(e) {
            Ok(q) => Simulation { phase: Phase::Swap, quote: q, ..s },
            Err(f) => fail(s, f),
        },
        Phase::Swap => match swap_result_spec(e) {
            Ok(_) => if s.leg == 1 {
                Simulation {
                    phase: Phase::Reserves,
                    leg: 2,
                    amount_in: s.quote,
                    leg1_out: s.quote,
                    ..s
                }
            } else {
                finish(s, Verdict::Success { leg1_out: s.leg1_out, leg2_out: s.quote })
            },
            Err(f) => fail(s, f),
        },
        Phase::Done(_) => s,
    }
}

/// The state after a whole sequence of outcomes.
pub open spec fn run(s: Simulation, events: Seq<CallOutcome>) -> Simulation
    decreases events.len(),
{
    if events.len() == 0 {
        s
    } else {
        run(next(s, events[0]), events.drop_first())
    }
}

/// True when `c` is a call by the run's sender to `to` with call data `data`.
pub open spec fn call_is(s: Simulation, c: EvmCall, to: Address, data: Seq<u8>) -> bool {
    c.caller == s.config.sender && c.to == to && c.data@ == data
}

/// The action that state `s` asks for.
pub open spec fn action_fits(s: Simulation, a: Action) -> bool {
    match s.phase {
        Phase::ResolvePair => a matches Action::Lookup(c) && call_is(
            s,
            c,
            s.config.factory,
            get_pair_data(s.config.subject_token, s.config.base_token),
        ),
        Phase::Fund => a matches Action::Fund(f) && f == (Funding {
            account: s.config.sender,
            balance: s.funding,
            token: s.config.base_token,
            slot: mapping_key(s.config.sender, s.slot),
            value: s.funding,
        }),
        Phase::Reserves => a matches Action::Query(c) && call_is(
            s,
            c,
            s.pair.address,
            get_reserves_data(),
        ),
        Phase::Transfer => a matches Action::Execute(c) && call_is(
            s,
            c,
            token_in(s),
            transfer_data(s.pair.address, s.amount_in),
        ),
        Phase::Quote => a matches Action::Query(c) && call_is(
            s,
            c,
            s.config.router,
            get_amount_out_data(s.amount_in, s.reserve_in, s.reserve_out),
        ),
        Phase::Swap => a matches Action::Execute(c) && call_is(
            s,
            c,
            s.pair.address,
            swap_data(
                swap_outputs(s.pair, token_in(s), s.quote).0,
                swap_outputs(s.pair, token_in(s), s.quote).1,
                s.config.sender,
            ),
        ),
        Phase::Done(v) => a matches Action::Finish(w) && w == v,
    }
}

impl Simulation {
    /// The run's fixed values match its configuration.
    pub open spec fn wf(&self) -> bool {
        &&& self.config.trade_divisor > 0
        &&& self.funding.value() == self.config.fund_amount
        &&& self.slot.value() == self.config.balance_slot
        &&& self.trade.value() == ceil_div(
            self.config.fund_amount as nat,
            self.config.trade_divisor as nat,
        )
        &&& self.leg <= 2
        &&& in_leg(self.phase) ==> (self.leg == 1 || self.leg == 2)
        &&& priced(self.phase) ==> self.reserve_in.value() > 0 && self.reserve_out.value() > 0
    }

    /// A run that has not started yet.
    pub fn new(config: SimConfig) -> (r: Simulation)
        requires
            config.trade_divisor > 0,
        ensures
            r.wf(),
            r == fresh(config),
    {
        let div = config.trade_divisor;
        let rounded: u128 = if config.fund_amount % div == 0 {
            config.fund_amount / div
        } else {
            assert(div >= 2);
            assert(config.fund_amount / div <= config.fund_amount / 2) by (nonlinear_arith)
                requires
                    div >= 2,
            ;
            config.fund_amount / div + 1
        };
        let zero = U256::zero();
        let zero_address = Address::zero();
        Simulation {
            config,
            phase: Phase::ResolvePair,
            leg: 0,
            pair: UniV2Pair { address: zero_address, token0: zero_address, token1: zero_address },
            funding: U256::from_u128(config.fund_amount),
            slot: U256::from_u128(config.balance_slot),
            trade: U256::from_u128(rounded),
            amount_in: zero,
            reserve_in: zero,
            reserve_out: zero,
            quote: zero,
            leg1_out: zero,
        }
    }

    /// The token that the current leg pays in.
    fn token_in(&self) -> (r: Address)
        ensures
            r == token_in(*self),
    {
        if self.leg == 1 {
            self.config.base_token
        } else {
            self.config.subject_token
        }
    }

    /// What the caller is to do next.
    pub fn next_action(&self) -> (a: Action)
        ensures
            action_fits(*self, a),
    {
        let sender = &self.config.sender;
        match self.phase {
            Phase::ResolvePair => Action::Lookup(
                pair_query(
                    &self.config.factory,
                    &self.config.subject_token,
                    &self.config.base_token,
                    sender,
                ),
            ),
            Phase::Fund => Action::Fund(
                Funding {
                    account: *sender,
                    balance: self.funding,
                    token: self.config.base_token,
                    slot: mapping_slot(sender, &self.slot),
                    value: self.funding,
                },
            ),
            Phase::Reserves => Action::Query(reserves_query(&self.pair.address, sender)),
            Phase::Transfer => Action::Execute(
                transfer(sender, &self.pair.address, &self.amount_in, &self.token_in()),
            ),
            Phase::Quote => Action::Query(
                amount_out_query(
                    &self.config.router,
                    &self.amount_in,
                    &self.reserve_in,
                    &self.reserve_out,
                    sender,
                ),
            ),
            Phase::Swap => Action::Execute(
                univ2_swap(sender, &self.pair, &self.token_in(), &self.quote),
            ),
            Phase::Done(v) => Action::Finish(v),
        }
    }

    fn fail(&mut self, f: Failure)
        ensures
            *final(self) == fail(*old(self), f),
    {
        self.phase = Phase::Done(classify(self.leg, f));
    }

    /// Takes in the outcome of the action last asked for.
    pub fn advance(&mut self, e: &CallOutcome)
        requires
            old(self).wf(),
        ensures
            final(self).wf(),
            *final(self) == next(*old(self), *e),
    {
        match self.phase {
            Phase::ResolvePair => {
                match get_pair(&self.config.subject_token, &self.config.base_token, e) {
                    Ok(p) => {
                        self.pair = p;
                        self.phase = Phase::Fund;
                    },
                    Err(f) => self.fail(f),
                }
            },
            Phase::Fund => {
                match e {
                    CallOutcome::Success(_) => {
                        self.leg = 1;
                        self.amount_in = self.trade;
                        self.phase = Phase::Reserves;
                    },
                    CallOutcome::Revert(_) => self.fail(Failure::Reverted),
                    CallOutcome::Halt => self.fail(Failure::Halted),
                    CallOutcome::Unavailable => self.fail(Failure::Unavailable),
                }
            },
            Phase::Reserves => {
                match get_univ2_reserves(e) {
                    Ok(r) => {
                        let t = self.token_in();
                        let (rin, rout) = orient_reserves(&self.pair, &t, r);
                        if rin.is_zero() || rout.is_zero() {
                            self.fail(Failure::NoLiquidity);
                        } else {
                            self.reserve_in = rin;
                            self.reserve_out = rout;
                            self.phase = Phase::Transfer;
                        }
                    },
                    Err(f) => self.fail(f),
                }
            },
            Phase::Transfer => {
                match transfer_result(e) {
                    Ok(_) => self.phase = Phase::Quote,
                    Err(f) => self.fail(f),
                }
            },
            Phase::Quote => {
                match get_univ2_amount_out(e) {
                    Ok(q) => {
                        self.quote = q;
                        self.phase = Phase::Swap;
                    },
                    Err(f) => self.fail(f),
                }
            },
            Phase::Swap => {
                match swap_result(e) {
                    Ok(_) => {
                        if self.leg == 1 {
                            self.leg = 2;
                            self.amount_in = self.quote;
                            self.leg1_out = self.quote;
                            self.phase = Phase::Reserves;
                        } else {
                            self.phase = Phase::Done(
                                Verdict::Success { leg1_out: self.leg1_out, leg2_out: self.quote },
                            );
                        }
                    },
                    Err(f) => self.fail(f),
                }
            },
            Phase::Done(_) => {},
        }
    }

    /// Runs the simulation against scripted outcomes, one for each action
    /// asked for, in order; a finished run ignores the outcomes that remain.
    pub fn replay(config: SimConfig, outcomes: &Vec<CallOutcome>) -> (r: Simulation)
        requires
            config.trade_divisor > 0,
        ensures
            r.wf(),
            r == run(fresh(config), outcomes@),
    {
        let mut s = Simulation::new(config);
        let mut i: usize = 0;
        assert(outcomes@.subrange(0, outcomes@.len() as int) =~= outcomes@);
        while i < outcomes.len()
            invariant
                0 <= i <= outcomes@.len(),
                s.wf(),
                run(fresh(config), outcomes@) == run(s, outcomes@.subrange(i as int, outcomes@.len() as int)),
            decreases outcomes@.len() - i,
        {
            let ghost rest = outcomes@.subrange(i as int, outcomes@.len() as int);
            assert(rest.drop_first() =~= outcomes@.subrange(i + 1, outcomes@.len() as int));
            assert(rest[0] == outcomes@[i as int]);
            s.advance(&outcomes[i]);
            i = i + 1;
        }
        assert(outcomes@.subrange(i as int, outcomes@.len() as int) =~= Seq::<CallOutcome>::empty());
        s
    }

    /// The verdict, once the run has finished.
    pub fn verdict(&self) -> (r: Option<Verdict>)
        ensures
            self.phase matches Phase::Done(v) ==> r == Some(v),
            !(self.phase is Done) ==> r is None,
    {
        match self.phase {
            Phase::Done(v) => Some(v),
            _ => None,
        }
    }
}

} // verus!

verus! {

/// A finished run stays finished, whatever it is fed.
pub proof fn lemma_done_absorbing(s: Simulation, events: Seq<CallOutcome>)
    requires
        s.phase is Done,
    ensures
        run(s, events) == s,
    decreases events.len(),
{
    if events.len() > 0 {
        lemma_done_absorbing(next(s, events[0]), events.drop_first());
    }
}

/// Funding gives the sender exactly the configured amount of the base asset:
/// once the pool is found, the run writes that amount as the sender's native
/// balance, and the same amount into the sender's entry of the base asset's
/// balance mapping.
pub proof fn lemma_funding_sets_balance(s: Simulation, e: CallOutcome, a: Action)
    requires
        s.wf(),
        s.phase is ResolvePair,
        s.config.fund_amount > 0,
        pair_of(s.config.subject_token, s.config.base_token, e) is Ok,
        action_fits(next(s, e), a),
    ensures
        a matches Action::Fund(f) && {
            &&& f.account == s.config.sender
            &&& f.token == s.config.base_token
            &&& f.balance.value() == s.config.fund_amount
            &&& f.value.value() == s.config.fund_amount
            &&& f.slot == mapping_key(s.config.sender, s.slot)
            &&& s.slot.value() == s.config.balance_slot
        },
{
}

/// A failing call of the selling leg marks a honeypot: if any call of the
/// second leg reverts or halts, the run ends with `LikelyHoneypot` blaming leg
/// 2, whatever outcomes follow, and never with `Success`.
pub proof fn lemma_selling_failure_is_honeypot(
    s: Simulation,
    e: CallOutcome,
    rest: Seq<CallOutcome>,
)
    requires
        s.leg == 2,
        in_leg(s.phase),
        e is Revert || e is Halt,
    ensures
        run(s, seq![e] + rest).phase matches Phase::Done(v) && v matches Verdict::LikelyHoneypot {
            failing_leg,
            ..
        } && failing_leg == 2,
{
    let events = seq![e] + rest;
    assert(events[0] == e);
    assert(events.drop_first() =~= rest);
    let t = next(s, e);
    assert(t.phase matches Phase::Done(v) && v matches Verdict::LikelyHoneypot { failing_leg, .. }
        && failing_leg == 2);
    lemma_done_absorbing(t, rest);
}

/// A pool without liquidity makes the run inconclusive, in either leg: when
/// the reserves read show a zero reserve on either side, the run stops there,
/// before any quote is asked for, with `InconclusiveError`.
pub proof fn lemma_zero_liquidity_inconclusive(s: Simulation, e: CallOutcome)
    requires
        s.phase is Reserves,
        reserves_result(e) matches Ok(r) && (r.0.value() == 0 || r.1.value() == 0),
    ensures
        next(s, e).phase == Phase::Done(
            Verdict::InconclusiveError { reason: Failure::NoLiquidity },
        ),
{
}

/// Two states that can only go on alike: they agree on everything that a
/// later step reads.
pub open spec fn agree(s1: Simulation, s2: Simulation) -> bool {
    &&& s1.config == s2.config
    &&& s1.phase == s2.phase
    &&& s1.leg == s2.leg
    &&& s1.funding == s2.funding
    &&& s1.slot == s2.slot
    &&& s1.trade == s2.trade
    &&& (s1.phase is Fund || in_leg(s1.phase)) ==> s1.pair == s2.pair
    &&& in_leg(s1.phase) ==> s1.amount_in == s2.amount_in
    &&& priced(s1.phase) ==> s1.reserve_in == s2.reserve_in && s1.reserve_out == s2.reserve_out
    &&& s1.phase is Swap ==> s1.quote == s2.quote
    &&& in_leg(s1.phase) && s1.leg != 1 ==> s1.leg1_out == s2.leg1_out
}

proof fn lemma_next_agrees(s1: Simulation, s2: Simulation, e: CallOutcome)
    requires
        agree(s1, s2),
    ensures
        agree(next(s1, e), next(s2, e)),
{
    assert(token_in(s1) == token_in(s2));
    match s1.phase {
        Phase::ResolvePair => {
            assert(pair_of(s1.config.subject_token, s1.config.base_token, e) == pair_of(
                s2.config.subject_token,
                s2.config.base_token,
                e,
            ));
        },
        Phase::Fund => {},
        Phase::Reserves => {
            assert(s1.pair == s2.pair);
        },
        Phase::Transfer => {},
        Phase::Quote => {},
        Phase::Swap => {
            assert(s1.quote == s2.quote);
        },
        Phase::Done(_) => {},
    }
}

proof fn lemma_run_agrees(s1: Simulation, s2: Simulation, events: Seq<CallOutcome>)
    requires
        agree(s1, s2),
    ensures
        agree(run(s1, events), run(s2, events)),
    decreases events.len(),
{
    if events.len() > 0 {
        lemma_next_agrees(s1, s2, events[0]);
        lemma_run_agrees(next(s1, events[0]), next(s2, events[0]), events.drop_first());
    }
}

/// A run depends on nothing but its configuration and the outcomes it is fed:
/// two runs of one configuration that have not started, fed the same
/// outcomes, reach the same phase, so the same verdict with the same leg
/// amounts, and agree on everything a further step would read.
pub proof fn lemma_rerun_same_result(s1: Simulation, s2: Simulation, events: Seq<CallOutcome>)
    requires
        s1.wf(),
        s2.wf(),
        s1.config == s2.config,
        s1.phase is ResolvePair,
        s2.phase is ResolvePair,
        s1.leg == 0,
        s2.leg == 0,
    ensures
        run(s1, events).phase == run(s2, events).phase,
        agree(run(s1, events), run(s2, events)),
{
    lemma_word_for(s1.funding);
    lemma_word_for(s2.funding);
    lemma_word_for(s1.slot);
    lemma_word_for(s2.slot);
    lemma_word_for(s1.trade);
    lemma_word_for(s2.trade);
    lemma_run_agrees(s1, s2, events);
}

} // verus!
