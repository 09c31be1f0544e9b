use alloy_primitives::U256 as Big;
use honeypot::address::Address;
use honeypot::call::{CallOutcome, EvmCall, Failure};
use honeypot::simulation::{Action, Phase, SimConfig, Simulation};
use honeypot::verdict::{classify, Verdict};
use honeypot::word::U256;

const WETH: [u8; 20] = [
    0xc0, 0x2a, 0xaa, 0x39, 0xb2, 0x23, 0xfe, 0x8d, 0x0a, 0x0e, 0x5c, 0x4f, 0x27, 0xea, 0xd9,
    0x08, 0x3c, 0x75, 0x6c, 0xc2,
];

fn addr(first: u8, last: u8) -> Address {
    let mut bytes = [0x11u8; 20];
    bytes[0] = first;
    bytes[19] = last;
    Address { bytes }
}

fn big(w: &U256) -> Big {
    Big::from_be_bytes(w.bytes)
}

fn big_at(data: &[u8], at: usize) -> Big {
    let mut b = [0u8; 32];
    b.copy_from_slice(&data[at..at + 32]);
    Big::from_be_bytes(b)
}

fn word(b: Big) -> Vec<u8> {
    b.to_be_bytes::<32>().to_vec()
}

fn e18(n: u64) -> Big {
    Big::from(n) * Big::from(10u64).pow(Big::from(18u64))
}

/// The pool's own formula: 0.3% fee, rounded down.
fn quote(amount_in: Big, reserve_in: Big, reserve_out: Big) -> Big {
    let with_fee = amount_in * Big::from(997u64);
    with_fee * reserve_out / (reserve_in * Big::from(1000u64) + with_fee)
}

/// A scripted chain: one pool, one router, and tokens that may refuse.
struct Chain {
    base: Address,
    subject: Address,
    pool: Address,
    router: Address,
    sender: Address,
    reserve_base: Big,
    reserve_subject: Big,
    paid_in: Big,
    deny_subject_from_sender: bool,
    transfer_answer: Vec<u8>,
    pool_exists: bool,
}

impl Chain {
    fn new(subject: Address, reserve_base: Big, reserve_subject: Big) -> Chain {
        Chain {
            base: Address { bytes: WETH },
            subject,
            pool: addr(0x50, 0x01),
            router: addr(0x7a, 0x02),
            sender: addr(0xe4, 0x14),
            reserve_base,
            reserve_subject,
            paid_in: Big::ZERO,
            deny_subject_from_sender: false,
            transfer_answer: word(Big::from(1u64)),
            pool_exists: true,
        }
    }

    fn config(&self) -> SimConfig {
        SimConfig {
            base_token: self.base,
            subject_token: self.subject,
            sender: self.sender,
            factory: addr(0x5c, 0x03),
            router: self.router,
            balance_slot: 3,
            fund_amount: 1_000_000_000_000_000_000,
            trade_divisor: 10,
        }
    }

    fn token0_is_base(&self) -> bool {
        self.base.bytes < self.subject.bytes
    }

    fn reserves(&self) -> (Big, Big) {
        if self.token0_is_base() {
            (self.reserve_base, self.reserve_subject)
        } else {
            (self.reserve_subject, self.reserve_base)
        }
    }

    fn execute(&mut self, c: &EvmCall) -> CallOutcome {
        match &c.data[..4] {
            [0xa9, 0x05, 0x9c, 0xbb] => {
                if self.deny_subject_from_sender && c.to == self.subject && c.caller == self.sender {
                    return CallOutcome::Revert(vec![]);
                }
                self.paid_in = big_at(&c.data, 36);
                CallOutcome::Success(self.transfer_answer.clone())
            },
            [0x02, 0x2c, 0x0d, 0x9f] => {
                let out0 = big_at(&c.data, 4);
                let out1 = big_at(&c.data, 36);
                let (mut r0, mut r1) = self.reserves();
                if out0 == Big::ZERO {
                    r0 += self.paid_in;
                    r1 -= out1;
                } else {
                    r1 += self.paid_in;
                    r0 -= out0;
                }
                if self.token0_is_base() {
                    self.reserve_base = r0;
                    self.reserve_subject = r1;
                } else {
                    self.reserve_subject = r0;
                    self.reserve_base = r1;
                }
                CallOutcome::Success(vec![])
            },
            _ => CallOutcome::Halt,
        }
    }

    fn answer(&mut self, action: &Action) -> CallOutcome {
        match action {
            Action::Lookup(_) => {
                let mut out = vec![0u8; 12];
                if self.pool_exists {
                    out.extend_from_slice(&self.pool.bytes);
                } else {
                    out.extend_from_slice(&[0u8; 20]);
                }
                CallOutcome::Success(out)
            },
            Action::Fund(_) => CallOutcome::Success(vec![]),
            Action::Query(c) if c.to == self.pool => {
                let (r0, r1) = self.reserves();
                let mut out = word(r0);
                out.extend(word(r1));
                out.extend(word(Big::from(1_700_000_000u64)));
                CallOutcome::Success(out)
            },
            Action::Query(c) if c.to == self.router => {
                let q = quote(big_at(&c.data, 4), big_at(&c.data, 36), big_at(&c.data, 68));
                CallOutcome::Success(word(q))
            },
            Action::Query(_) => CallOutcome::Halt,
            Action::Execute(c) => self.execute(c),
            Action::Finish(_) => panic!("a finished run asks for nothing"),
        }
    }
}

fn drive(chain: &mut Chain) -> (Verdict, Vec<CallOutcome>) {
    let mut sim = Simulation::new(chain.config());
    let mut outcomes = Vec::new();
    loop {
        let action = sim.next_action();
        if let Action::Finish(v) = action {
            assert_eq!(sim.verdict(), Some(v));
            return (v, outcomes);
        }
        let outcome = chain.answer(&action);
        sim.advance(&outcome);
        outcomes.push(outcome);
    }
}

fn subject_below_base() -> Address {
    addr(0x01, 0x99)
}

fn subject_above_base() -> Address {
    addr(0xf0, 0x99)
}

#[test]
fn round_trip_of_a_tenth_of_a_unit() {
    let mut chain = Chain::new(subject_above_base(), e18(1000), e18(2_000_000));
    let (verdict, _) = drive(&mut chain);
    let amount_in = Big::from(100_000_000_000_000_000u64);
    let leg1 = quote(amount_in, e18(1000), e18(2_000_000));
    let leg2 = quote(leg1, e18(2_000_000) - leg1, e18(1000) + amount_in);
    match verdict {
        Verdict::Success { leg1_out, leg2_out } => {
            assert_eq!(big(&leg1_out), leg1);
            assert_eq!(big(&leg2_out), leg2);
            assert!(big(&leg2_out) < amount_in);
        },
        other => panic!("unexpected verdict {:?}", other),
    }
}

#[test]
fn round_trip_with_subject_as_token0() {
    let mut chain = Chain::new(subject_below_base(), e18(1000), e18(2_000_000));
    assert!(!chain.token0_is_base());
    let (verdict, _) = drive(&mut chain);
    let amount_in = Big::from(100_000_000_000_000_000u64);
    let leg1 = quote(amount_in, e18(1000), e18(2_000_000));
    match verdict {
        Verdict::Success { leg1_out, leg2_out } => {
            assert_eq!(big(&leg1_out), leg1);
            assert!(big(&leg2_out) < amount_in);
        },
        other => panic!("unexpected verdict {:?}", other),
    }
}

#[test]
fn denylisted_sender_is_a_honeypot() {
    let mut chain = Chain::new(subject_above_base(), e18(1000), e18(2_000_000));
    chain.deny_subject_from_sender = true;
    let (verdict, _) = drive(&mut chain);
    assert_eq!(
        verdict,
        Verdict::LikelyHoneypot { failing_leg: 2, reason: Failure::Reverted }
    );
}

#[test]
fn transfer_returning_false_in_the_sell_leg_is_a_honeypot() {
    let mut chain = Chain::new(subject_above_base(), e18(1000), e18(2_000_000));
    let mut sim = Simulation::new(chain.config());
    loop {
        let action = sim.next_action();
        if sim.leg == 2 && sim.phase == Phase::Transfer {
            chain.transfer_answer = word(Big::ZERO);
        }
        if let Action::Finish(v) = action {
            assert_eq!(
                v,
                Verdict::LikelyHoneypot { failing_leg: 2, reason: Failure::TransferRefused }
            );
            break;
        }
        let outcome = chain.answer(&action);
        sim.advance(&outcome);
    }
}

#[test]
fn empty_transfer_answer_counts_as_success() {
    let mut chain = Chain::new(subject_above_base(), e18(1000), e18(2_000_000));
    chain.transfer_answer = vec![];
    let (verdict, _) = drive(&mut chain);
    assert!(matches!(verdict, Verdict::Success { .. }));
}

#[test]
fn zero_liquidity_is_inconclusive() {
    let mut chain = Chain::new(subject_above_base(), Big::ZERO, Big::ZERO);
    let (verdict, outcomes) = drive(&mut chain);
    assert_eq!(verdict, Verdict::InconclusiveError { reason: Failure::NoLiquidity });
    // lookup, funding, reserves: no quote was asked for
    assert_eq!(outcomes.len(), 3);
}

#[test]
fn missing_pool_is_inconclusive() {
    let mut chain = Chain::new(subject_above_base(), e18(1000), e18(2_000_000));
    chain.pool_exists = false;
    let (verdict, outcomes) = drive(&mut chain);
    assert_eq!(verdict, Verdict::InconclusiveError { reason: Failure::NoPool });
    assert_eq!(outcomes.len(), 1);
}

#[test]
fn failing_buy_leg_is_inconclusive() {
    let chain = Chain::new(subject_above_base(), e18(1000), e18(2_000_000));
    let outcomes = vec![
        CallOutcome::Success({
            let mut out = vec![0u8; 12];
            out.extend_from_slice(&chain.pool.bytes);
            out
        }),
        CallOutcome::Success(vec![]),
        CallOutcome::Revert(vec![1, 2]),
    ];
    let sim = Simulation::replay(chain.config(), &outcomes);
    assert_eq!(
        sim.verdict(),
        Some(Verdict::InconclusiveError { reason: Failure::Reverted })
    );
}

#[test]
fn unavailable_state_in_the_sell_leg_is_inconclusive() {
    assert_eq!(
        classify(2, Failure::Unavailable),
        Verdict::InconclusiveError { reason: Failure::Unavailable }
    );
    assert_eq!(
        classify(2, Failure::Malformed),
        Verdict::LikelyHoneypot { failing_leg: 2, reason: Failure::Malformed }
    );
    assert_eq!(
        classify(1, Failure::Halted),
        Verdict::InconclusiveError { reason: Failure::Halted }
    );
}

#[test]
fn rerunning_gives_the_same_result() {
    let mut chain = Chain::new(subject_above_base(), e18(1000), e18(2_000_000));
    let (verdict, outcomes) = drive(&mut chain);
    let first = Simulation::replay(chain.config(), &outcomes);
    let second = Simulation::replay(chain.config(), &outcomes);
    assert_eq!(first, second);
    assert_eq!(first.verdict(), Some(verdict));
    let mut again = Chain::new(subject_above_base(), e18(1000), e18(2_000_000));
    let (verdict_again, outcomes_again) = drive(&mut again);
    assert_eq!(verdict, verdict_again);
    assert_eq!(outcomes.len(), outcomes_again.len());
}

#[test]
fn funding_writes_the_configured_amount() {
    let chain = Chain::new(subject_above_base(), e18(1000), e18(2_000_000));
    let mut sim = Simulation::new(chain.config());
    let mut lookup = vec![0u8; 12];
    lookup.extend_from_slice(&chain.pool.bytes);
    sim.advance(&CallOutcome::Success(lookup));
    match sim.next_action() {
        Action::Fund(f) => {
            assert_eq!(f.account, chain.sender);
            assert_eq!(f.token, chain.base);
            assert_eq!(f.balance, U256::from_u128(1_000_000_000_000_000_000));
            assert_eq!(f.value, U256::from_u128(1_000_000_000_000_000_000));
            let mut preimage = vec![0u8; 12];
            preimage.extend_from_slice(&chain.sender.bytes);
            preimage.extend_from_slice(&U256::from_u128(3).bytes);
            assert_eq!(f.slot.bytes, alloy_primitives::keccak256(&preimage).0);
        },
        other => panic!("unexpected action {:?}", other),
    }
}

#[test]
fn first_leg_trades_a_tenth_rounded_up() {
    let mut chain = Chain::new(subject_above_base(), e18(1000), e18(2_000_000));
    let mut config = chain.config();
    config.fund_amount = 1001;
    let mut sim = Simulation::new(config);
    for _ in 0..3 {
        let a = sim.next_action();
        let o = chain.answer(&a);
        sim.advance(&o);
    }
    assert_eq!(sim.phase, Phase::Transfer);
    assert_eq!(sim.amount_in, U256::from_u128(101));
    match sim.next_action() {
        Action::Execute(c) => {
            assert_eq!(c.to, chain.base);
            assert_eq!(c.caller, chain.sender);
            assert_eq!(&c.data[16..36], &chain.pool.bytes);
            assert_eq!(big_at(&c.data, 36), Big::from(101u64));
        },
        other => panic!("unexpected action {:?}", other),
    }
}

#[test]
fn finished_run_ignores_further_outcomes() {
    let chain = Chain::new(subject_above_base(), e18(1000), e18(2_000_000));
    let mut sim = Simulation::new(chain.config());
    sim.advance(&CallOutcome::Unavailable);
    let done = sim;
    sim.advance(&CallOutcome::Success(vec![]));
    assert_eq!(sim, done);
    assert_eq!(
        sim.verdict(),
        Some(Verdict::InconclusiveError { reason: Failure::Unavailable })
    );
}
