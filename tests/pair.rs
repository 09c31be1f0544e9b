use honeypot::address::Address;
use honeypot::call::{CallOutcome, Failure};
use honeypot::uniswapv2::{get_pair, orient_reserves, univ2_swap, UniV2Pair};
use honeypot::word::U256;

fn addr(first: u8, last: u8) -> Address {
    let mut bytes = [0x22u8; 20];
    bytes[0] = first;
    bytes[19] = last;
    Address { bytes }
}

fn pool_answer(pool: &Address) -> CallOutcome {
    let mut out = vec![0u8; 12];
    out.extend_from_slice(&pool.bytes);
    CallOutcome::Success(out)
}

#[test]
fn pair_tokens_come_in_canonical_order() {
    let low = addr(0x10, 0xff);
    let high = addr(0x30, 0x00);
    let pool = addr(0x99, 0x01);
    let ab = get_pair(&low, &high, &pool_answer(&pool)).unwrap();
    let ba = get_pair(&high, &low, &pool_answer(&pool)).unwrap();
    assert_eq!(ab, ba);
    assert_eq!(ab.token0, low);
    assert_eq!(ab.token1, high);
    assert_eq!(ab.address, pool);
    assert!(ab.token0.precedes(&ab.token1));
    assert!(!ab.token1.precedes(&ab.token0));
}

#[test]
fn zero_pool_means_no_pair() {
    let r = get_pair(&addr(1, 1), &addr(2, 2), &pool_answer(&Address::zero()));
    assert_eq!(r, Err(Failure::NoPool));
}

#[test]
fn pair_lookup_failures() {
    assert_eq!(
        get_pair(&addr(1, 1), &addr(2, 2), &CallOutcome::Unavailable),
        Err(Failure::Unavailable)
    );
    assert_eq!(
        get_pair(&addr(1, 1), &addr(2, 2), &CallOutcome::Success(vec![0u8; 31])),
        Err(Failure::Malformed)
    );
    assert_eq!(
        get_pair(&addr(1, 1), &addr(2, 2), &CallOutcome::Revert(vec![])),
        Err(Failure::Reverted)
    );
}

#[test]
fn reserves_and_swap_follow_the_input_token() {
    let pair = UniV2Pair { address: addr(0x99, 0), token0: addr(1, 0), token1: addr(2, 0) };
    let r0 = U256::from_u128(10);
    let r1 = U256::from_u128(20);
    assert_eq!(orient_reserves(&pair, &pair.token0, (r0, r1)), (r0, r1));
    assert_eq!(orient_reserves(&pair, &pair.token1, (r0, r1)), (r1, r0));
    let sender = addr(0xe4, 0x14);
    let out = U256::from_u128(5);
    let buy0 = univ2_swap(&sender, &pair, &pair.token0, &out);
    assert_eq!(buy0.to, pair.address);
    assert_eq!(&buy0.data[4..36], &[0u8; 32]);
    assert_eq!(&buy0.data[36..68], &out.bytes);
    let buy1 = univ2_swap(&sender, &pair, &pair.token1, &out);
    assert_eq!(&buy1.data[4..36], &out.bytes);
    assert_eq!(&buy1.data[36..68], &[0u8; 32]);
}
