use honeypot::abi::{
    decode_address_strict, decode_bool, decode_reserves, decode_string, decode_uint, decode_uint8,
    encode_balance_of, encode_get_amount_out, encode_get_pair, encode_get_reserves, encode_swap,
    encode_transfer, mapping_slot, selector,
};
use honeypot::address::Address;
use honeypot::word::U256;

fn addr(last: u8) -> Address {
    let mut bytes = [0u8; 20];
    bytes[0] = 0xaa;
    bytes[19] = last;
    Address { bytes }
}

fn word(n: u128) -> Vec<u8> {
    U256::from_u128(n).bytes.to_vec()
}

#[test]
fn selectors_match_the_known_values() {
    assert_eq!(selector("balanceOf(address)"), vec![0x70, 0xa0, 0x82, 0x31]);
    assert_eq!(selector("transfer(address,uint256)"), vec![0xa9, 0x05, 0x9c, 0xbb]);
    assert_eq!(selector("getPair(address,address)"), vec![0xe6, 0xa4, 0x39, 0x05]);
    assert_eq!(selector("getReserves()"), vec![0x09, 0x02, 0xf1, 0xac]);
    assert_eq!(selector("getAmountOut(uint256,uint256,uint256)"), vec![0x05, 0x4d, 0x50, 0xd4]);
    assert_eq!(selector("swap(uint256,uint256,address,bytes)"), vec![0x02, 0x2c, 0x0d, 0x9f]);
    assert_eq!(selector("name()"), vec![0x06, 0xfd, 0xde, 0x03]);
    assert_eq!(selector("symbol()"), vec![0x95, 0xd8, 0x9b, 0x41]);
    assert_eq!(selector("decimals()"), vec![0x31, 0x3c, 0xe5, 0x67]);
}

#[test]
fn from_u128_is_big_endian() {
    let w = U256::from_u128(0x0102);
    let mut expected = [0u8; 32];
    expected[30] = 1;
    expected[31] = 2;
    assert_eq!(w.bytes, expected);
    assert!(U256::zero().is_zero());
    assert!(!w.is_zero());
    let max = U256::from_u128(u128::MAX);
    assert_eq!(&max.bytes[..16], &[0u8; 16]);
    assert_eq!(&max.bytes[16..], &[0xffu8; 16]);
}

#[test]
fn balance_of_call_layout() {
    let data = encode_balance_of(&addr(7));
    assert_eq!(data.len(), 36);
    assert_eq!(&data[..4], &[0x70, 0xa0, 0x82, 0x31]);
    assert_eq!(&data[4..16], &[0u8; 12]);
    assert_eq!(&data[16..36], &addr(7).bytes);
}

#[test]
fn transfer_call_layout() {
    let data = encode_transfer(&addr(9), &U256::from_u128(1000));
    assert_eq!(data.len(), 4 + 64);
    assert_eq!(&data[16..36], &addr(9).bytes);
    assert_eq!(&data[36..68], &word(1000)[..]);
}

#[test]
fn get_pair_and_reserves_calls() {
    let data = encode_get_pair(&addr(1), &addr(2));
    assert_eq!(data.len(), 4 + 64);
    assert_eq!(&data[16..36], &addr(1).bytes);
    assert_eq!(&data[48..68], &addr(2).bytes);
    assert_eq!(encode_get_reserves(), vec![0x09, 0x02, 0xf1, 0xac]);
}

#[test]
fn get_amount_out_call_layout() {
    let data = encode_get_amount_out(
        &U256::from_u128(5),
        &U256::from_u128(6),
        &U256::from_u128(7),
    );
    assert_eq!(data.len(), 4 + 96);
    assert_eq!(&data[4..36], &word(5)[..]);
    assert_eq!(&data[36..68], &word(6)[..]);
    assert_eq!(&data[68..100], &word(7)[..]);
}

#[test]
fn swap_call_carries_empty_bytes() {
    let data = encode_swap(&U256::zero(), &U256::from_u128(42), &addr(3));
    assert_eq!(data.len(), 4 + 5 * 32);
    assert_eq!(&data[..4], &[0x02, 0x2c, 0x0d, 0x9f]);
    assert_eq!(&data[4..36], &[0u8; 32]);
    assert_eq!(&data[36..68], &word(42)[..]);
    assert_eq!(&data[80..100], &addr(3).bytes);
    assert_eq!(&data[100..132], &word(128)[..]);
    assert_eq!(&data[132..164], &[0u8; 32]);
}

#[test]
fn mapping_slot_hashes_owner_and_slot() {
    let owner = addr(0x14);
    let slot = U256::from_u128(3);
    let mut preimage = vec![0u8; 12];
    preimage.extend_from_slice(&owner.bytes);
    preimage.extend_from_slice(&slot.bytes);
    let expected = alloy_primitives::keccak256(&preimage);
    let key = mapping_slot(&owner, &slot);
    assert_eq!(key.bytes, expected.0);
    assert_ne!(&key.bytes[..], &preimage[..32]);
}

#[test]
fn uint_decoding_needs_a_full_word() {
    assert_eq!(decode_uint(&vec![0u8; 31]), None);
    let mut out = word(77);
    out.extend_from_slice(&[1, 2, 3]);
    assert_eq!(decode_uint(&out), Some(U256::from_u128(77)));
}

#[test]
fn bool_decoding_reads_any_nonzero_word_as_true() {
    assert_eq!(decode_bool(&word(1)), Some(true));
    assert_eq!(decode_bool(&word(0)), Some(false));
    assert_eq!(decode_bool(&word(256)), Some(true));
    assert_eq!(decode_bool(&vec![1u8]), None);
}

#[test]
fn reserves_decoding_takes_the_first_two_words() {
    let mut out = word(10);
    out.extend(word(20));
    assert_eq!(decode_reserves(&out), None);
    out.extend(word(123));
    assert_eq!(
        decode_reserves(&out),
        Some((U256::from_u128(10), U256::from_u128(20)))
    );
}

#[test]
fn address_decoding_is_strict() {
    let mut out = vec![0u8; 12];
    out.extend_from_slice(&addr(5).bytes);
    assert_eq!(decode_address_strict(&out), Some(addr(5)));
    let mut longer = out.clone();
    longer.push(0);
    assert_eq!(decode_address_strict(&longer), None);
    let mut dirty = out.clone();
    dirty[0] = 1;
    assert_eq!(decode_address_strict(&dirty), None);
    assert_eq!(decode_address_strict(&out[..31].to_vec()), None);
}

#[test]
fn string_and_uint8_decoding() {
    let mut out = word(32);
    out.extend(word(13));
    let mut text = b"Wrapped Ether".to_vec();
    text.resize(32, 0);
    out.extend(text);
    assert_eq!(decode_string(&out), Some("Wrapped Ether".to_string()));
    assert_eq!(decode_string(&word(32)), None);
    let mut bad = word(32);
    bad.extend(word(40));
    bad.extend(vec![0x41u8; 32]);
    assert_eq!(decode_string(&bad), None);
    let mut lossy = word(32);
    lossy.extend(word(2));
    let mut invalid = vec![0x41u8, 0xff];
    invalid.resize(32, 0);
    lossy.extend(invalid);
    assert_eq!(decode_string(&lossy), Some("A\u{fffd}".to_string()));
    assert_eq!(decode_uint8(&word(18)), Some(18));
    assert_eq!(decode_uint8(&word(0x1ff)), Some(0xff));
    assert_eq!(decode_uint8(&vec![0u8; 8]), None);
}
