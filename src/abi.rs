use vstd::prelude::*;
use vstd::utf8::{decode_utf8, encode_utf8, valid_utf8};

use crate::address::{address_of, lemma_address_of, zero_bytes, Address, ADDRESS_LEN};
use crate::hash::{keccak256, keccak_of};
use crate::word::{be_value, lemma_pow256_mono, lemma_word_of, pow256, word_of, U256, WORD_LEN};

verus! {

/// The 4-byte function selector of a canonical signature such as
/// `transfer(address,uint256)`: the first bytes of its Keccak-256 digest.
pub open spec fn selector_of(signature: Seq<char>) -> Seq<u8> {
    keccak_of(encode_utf8(signature)).subrange(0, 4)
}

/// An address as one ABI word: twelve zero bytes, then the address.
pub open spec fn address_word(a: Seq<u8>) -> Seq<u8> {
    zero_bytes(12) + a
}

/// Call data of `balanceOf(address)`.
pub open spec fn balance_of_data(owner: Address) -> Seq<u8> {
    selector_of("balanceOf(address)"@) + address_word(owner@)
}

/// Call data of `transfer(address,uint256)`.
pub open spec fn transfer_data(to: Address, amount: U256) -> Seq<u8> {
    selector_of("transfer(address,uint256)"@) + address_word(to@) + amount@
}

/// Call data of `getPair(address,address)`.
pub open spec fn get_pair_data(a: Address, b: Address) -> Seq<u8> {
    selector_of("getPair(address,address)"@) + address_word(a@) + address_word(b@)
}

/// Call data of `getReserves()`.
pub open spec fn get_reserves_data() -> Seq<u8> {
    selector_of("getReserves()"@)
}

/// Call data of `getAmountOut(uint256,uint256,uint256)`.
pub open spec fn get_amount_out_data(amount_in: U256, reserve_in: U256, reserve_out: U256) -> Seq<
    u8,
> {
    selector_of("getAmountOut(uint256,uint256,uint256)"@) + amount_in@ + reserve_in@
        + reserve_out@
}

/// The word that denotes `n`, for small `n`.
pub open spec fn small_word(n: u8) -> Seq<u8> {
    zero_bytes(31).push(n)
}

/// Call data of `swap(uint256,uint256,address,bytes)` with an empty `bytes`
/// argument: its head holds the offset of the tail (four words), and the tail
/// holds the length zero.
pub open spec fn swap_data(amount0_out: Seq<u8>, amount1_out: Seq<u8>, to: Address) -> Seq<u8> {
    selector_of("swap(uint256,uint256,address,bytes)"@) + amount0_out + amount1_out
        + address_word(to@) + small_word(128) + small_word(0)
}

/// The storage key of `owner`'s entry in a `mapping(address => uint256)`
/// declared at storage slot `slot`.
pub open spec fn mapping_key(owner: Address, slot: U256) -> U256 {
    word_of(keccak_of(address_word(owner@) + slot@))
}

/// The first word of a return payload; a shorter payload does not decode.
pub open spec fn first_word(out: Seq<u8>) -> Option<U256> {
    if out.len() >= 32 {
        Some(word_of(out.subrange(0, 32)))
    } else {
        None
    }
}

/// A `bool` return value: any nonzero word reads as true.
pub open spec fn bool_of(out: Seq<u8>) -> Option<bool> {
    match first_word(out) {
        Some(w) => Some(w.value() != 0),
        None => None,
    }
}

/// The two reserves of a `(uint112,uint112,uint32)` return payload.
pub open spec fn reserves_of(out: Seq<u8>) -> Option<(U256, U256)> {
    if out.len() >= 96 {
        Some((word_of(out.subrange(0, 32)), word_of(out.subrange(32, 64))))
    } else {
        None
    }
}

/// A strictly decoded `address` return value: exactly one word, whose upper
/// twelve bytes are zero.
pub open spec fn strict_address_of(out: Seq<u8>) -> Option<Address> {
    if out.len() == 32 && out.subrange(0, 12) == zero_bytes(12) {
        Some(address_of(out.subrange(12, 32)))
    } else {
        None
    }
}

/// Text from bytes, with every ill-formed UTF-8 sequence replaced by U+FFFD.
pub uninterp spec fn utf8_lossy(bytes: Seq<u8>) -> Seq<char>;

/// Relies on `String::from_utf8_lossy`: the text the bytes encode, with each
/// ill-formed sequence replaced; well-formed UTF-8 comes back as it is.
#[verifier::external_body]
fn text_from_utf8_lossy(bytes: &[u8]) -> (r: String)
    ensures
        r@ == utf8_lossy(bytes@),
        valid_utf8(bytes@) ==> r@ == decode_utf8(bytes@),
{
    String::from_utf8_lossy(bytes).into_owned()
}

/// An offset or a length word, read the lenient way: its last eight bytes.
pub open spec fn offset_in(word: Seq<u8>) -> nat {
    be_value(word.subrange(24, 32))
}

/// The bytes of a `string` return value: the first word points at a length
/// word, which the string's bytes follow.
pub open spec fn string_bytes_of(out: Seq<u8>) -> Option<Seq<u8>> {
    if out.len() < 32 {
        None
    } else {
        let at = offset_in(out.subrange(0, 32));
        if at + 32 > out.len() {
            None
        } else {
            let len = offset_in(out.subrange(at as int, at + 32int));
            if at + 32 + len > out.len() {
                None
            } else {
                Some(out.subrange(at + 32int, at + 32int + len))
            }
        }
    }
}

/// A `string` return value.
pub open spec fn string_of(out: Seq<u8>) -> Option<Seq<char>> {
    match string_bytes_of(out) {
        Some(b) => Some(utf8_lossy(b)),
        None => None,
    }
}

/// A `uint8` return value, read the lenient way: the last byte of the first word.
pub open spec fn uint8_of(out: Seq<u8>) -> Option<u8> {
    if out.len() >= 32 {
        Some(out[31])
    } else {
        None
    }
}

/// Call data of `name()`.
pub open spec fn name_data() -> Seq<u8> {
    selector_of("name()"@)
}

/// Call data of `symbol()`.
pub open spec fn symbol_data() -> Seq<u8> {
    selector_of("symbol()"@)
}

/// Call data of `decimals()`.
pub open spec fn decimals_data() -> Seq<u8> {
    selector_of("decimals()"@)
}

proof fn lemma_be_value_bound(s: Seq<u8>)
    ensures
        be_value(s) < pow256(s.len()),
    decreases s.len(),
{
    if s.len() > 0 {
        lemma_be_value_bound(s.drop_last());
        let x = be_value(s.drop_last());
        let p = pow256((s.len() - 1) as nat);
        assert(x * 256 + (s.last() as nat) < 256 * p) by (nonlinear_arith)
            requires
                x < p,
                s.last() < 256,
        ;
    }
}

/// Reads bytes `start + 24 .. start + 32` of `out` as a number.
fn read_offset(out: &Vec<u8>, start: usize) -> (r: u64)
    requires
        start + 32 <= out@.len(),
    ensures
        r as nat == offset_in(out@.subrange(start as int, start + 32)),
{
    let n: usize = out.len();
    let ghost word = out@.subrange(start as int, start + 32);
    let mut acc: u64 = 0;
    let mut k: usize = 24;
    assert(word.subrange(24, 24) =~= Seq::<u8>::empty());
    assert(pow256(0) == 1);
    while k < 32
        invariant
            24 <= k <= 32,
            n == out@.len(),
            start + 32 <= n,
            word == out@.subrange(start as int, start + 32),
            acc as nat == be_value(word.subrange(24, k as int)),
        decreases 32 - k,
    {
        proof {
            lemma_be_value_bound(word.subrange(24, k as int));
            reveal_with_fuel(pow256, 9);
            assert(pow256((k - 24) as nat) <= pow256(7)) by {
                lemma_pow256_mono((k - 24) as nat, 7);
            }
            assert(pow256(7) == 0x100_0000_0000_0000);
        }
        let b = out[start + k];
        assert(b == word[k as int]);
        let ghost prev = word.subrange(24, k as int);
        acc = acc * 256 + b as u64;
        k = k + 1;
        assert(word.subrange(24, k as int).drop_last() =~= prev);
    }
    acc
}

fn copy_range(out: &Vec<u8>, from: usize, to: usize) -> (r: Vec<u8>)
    requires
        from <= to <= out@.len(),
    ensures
        r@ == out@.subrange(from as int, to as int),
{
    let mut r: Vec<u8> = Vec::new();
    let mut i: usize = from;
    while i < to
        invariant
            from <= i <= to,
            to <= out@.len(),
            r@ == out@.subrange(from as int, i as int),
        decreases to - i,
    {
        r.push(out[i]);
        i = i + 1;
        assert(r@ =~= out@.subrange(from as int, i as int));
    }
    r
}

/// Decodes a `string` return value.
pub fn decode_string(out: &Vec<u8>) -> (r: Option<String>)
    ensures
        r matches Some(t) ==> string_of(out@) == Some(t@),
        r is None ==> string_of(out@) is None,
{
    let n: usize = out.len();
    if n < WORD_LEN {
        return None;
    }
    let at = read_offset(out, 0);
    if at > (n as u64) || (n as u64) - at < 32 {
        return None;
    }
    let at = at as usize;
    let len = read_offset(out, at);
    if (n as u64) - (at as u64) - 32 < len {
        return None;
    }
    let len = len as usize;
    let bytes = copy_range(out, at + 32, at + 32 + len);
    Some(text_from_utf8_lossy(bytes.as_slice()))
}

/// Decodes a `uint8` return value.
pub fn decode_uint8(out: &Vec<u8>) -> (r: Option<u8>)
    ensures
        r == uint8_of(out@),
{
    if out.len() >= WORD_LEN {
        Some(out[31])
    } else {
        None
    }
}

fn append_address(out: &mut Vec<u8>, a: &Address)
    ensures
        final(out)@ == old(out)@ + address_word(a@),
{
    let ghost start = out@;
    let mut i: usize = 0;
    while i < 12
        invariant
            0 <= i <= 12,
            out@ == start + zero_bytes(i as nat),
        decreases 12 - i,
    {
        out.push(0u8);
        i = i + 1;
        assert(out@ =~= start + zero_bytes(i as nat));
    }
    let mut j: usize = 0;
    while j < ADDRESS_LEN
        invariant
            0 <= j <= 20,
            out@ == start + zero_bytes(12) + a@.subrange(0, j as int),
        decreases 20 - j,
    {
        out.push(a.bytes[j]);
        j = j + 1;
        assert(out@ =~= start + zero_bytes(12) + a@.subrange(0, j as int));
    }
    assert(a@.subrange(0, 20) =~= a@);
    assert(out@ =~= start + address_word(a@));
}

fn append_word(out: &mut Vec<u8>, w: &U256)
    ensures
        final(out)@ == old(out)@ + w@,
{
    let ghost start = out@;
    let mut j: usize = 0;
    while j < WORD_LEN
        invariant
            0 <= j <= 32,
            out@ == start + w@.subrange(0, j as int),
        decreases 32 - j,
    {
        out.push(w.bytes[j]);
        j = j + 1;
        assert(out@ =~= start + w@.subrange(0, j as int));
    }
    assert(w@.subrange(0, 32) =~= w@);
}

fn append_small(out: &mut Vec<u8>, n: u8)
    ensures
        final(out)@ == old(out)@ + small_word(n),
{
    let ghost start = out@;
    let mut i: usize = 0;
    while i < 31
        invariant
            0 <= i <= 31,
            out@ == start + zero_bytes(i as nat),
        decreases 31 - i,
    {
        out.push(0u8);
        i = i + 1;
        assert(out@ =~= start + zero_bytes(i as nat));
    }
    out.push(n);
    assert(out@ =~= start + small_word(n));
}

/// The selector of a canonical function signature.
pub fn selector(signature: &str) -> (r: Vec<u8>)
    ensures
        r@ == selector_of(signature@),
{
    let digest = keccak256(signature.as_bytes());
    let mut r: Vec<u8> = Vec::new();
    let mut i: usize = 0;
    while i < 4
        invariant
            0 <= i <= 4,
            digest@.len() == 32,
            r@ == digest@.subrange(0, i as int),
        decreases 4 - i,
    {
        r.push(digest[i]);
        i = i + 1;
        assert(r@ =~= digest@.subrange(0, i as int));
    }
    r
}

/// Encodes a call of `balanceOf(owner)`.
pub fn encode_balance_of(owner: &Address) -> (r: Vec<u8>)
    ensures
        r@ == balance_of_data(*owner),
{
    let mut r = selector("balanceOf(address)");
    append_address(&mut r, owner);
    r
}

/// Encodes a call of `transfer(to, amount)`.
pub fn encode_transfer(to: &Address, amount: &U256) -> (r: Vec<u8>)
    ensures
        r@ == transfer_data(*to, *amount),
{
    let mut r = selector("transfer(address,uint256)");
    append_address(&mut r, to);
    append_word(&mut r, amount);
    r
}

/// Encodes a call of `getPair(a, b)`.
pub fn encode_get_pair(a: &Address, b: &Address) -> (r: Vec<u8>)
    ensures
        r@ == get_pair_data(*a, *b),
{
    let mut r = selector("getPair(address,address)");
    append_address(&mut r, a);
    append_address(&mut r, b);
    r
}

/// Encodes a call of `getReserves()`.
pub fn encode_get_reserves() -> (r: Vec<u8>)
    ensures
        r@ == get_reserves_data(),
{
    selector("getReserves()")
}

/// Encodes a call of `getAmountOut(amount_in, reserve_in, reserve_out)`.
pub fn encode_get_amount_out(amount_in: &U256, reserve_in: &U256, reserve_out: &U256) -> (r: Vec<
    u8,
>)
    ensures
        r@ == get_amount_out_data(*amount_in, *reserve_in, *reserve_out),
{
    let mut r = selector("getAmountOut(uint256,uint256,uint256)");
    append_word(&mut r, amount_in);
    append_word(&mut r, reserve_in);
    append_word(&mut r, reserve_out);
    r
}

/// Encodes a call of `swap(amount0_out, amount1_out, to, "")`.
pub fn encode_swap(amount0_out: &U256, amount1_out: &U256, to: &Address) -> (r: Vec<u8>)
    ensures
        r@ == swap_data(amount0_out@, amount1_out@, *to),
{
    let mut r = selector("swap(uint256,uint256,address,bytes)");
    append_word(&mut r, amount0_out);
    append_word(&mut r, amount1_out);
    append_address(&mut r, to);
    append_small(&mut r, 128);
    append_small(&mut r, 0);
    r
}

/// The storage key under which a `mapping(address => uint256)` at storage
/// slot `slot` keeps the entry of `owner`.
pub fn mapping_slot(owner: &Address, slot: &U256) -> (r: U256)
    ensures
        r == mapping_key(*owner, *slot),
{
    let mut preimage: Vec<u8> = Vec::new();
    append_address(&mut preimage, owner);
    append_word(&mut preimage, slot);
    let digest = keccak256(preimage.as_slice());
    let r = U256 { bytes: digest };
    proof {
        lemma_word_of(r);
    }
    r
}

fn read_word(out: &Vec<u8>, start: usize) -> (r: U256)
    requires
        start + 32 <= out@.len(),
    ensures
        r == word_of(out@.subrange(start as int, start + 32)),
{
    let n: usize = out.len();
    let mut b: [u8; 32] = [0u8; 32];
    let mut i: usize = 0;
    while i < WORD_LEN
        invariant
            0 <= i <= 32,
            n == out@.len(),
            start + 32 <= n,
            forall|j: int| 0 <= j < i ==> b@[j] == out@[start + j],
        decreases 32 - i,
    {
        b[i] = out[start + i];
        i = i + 1;
    }
    let r = U256 { bytes: b };
    assert(r@ =~= out@.subrange(start as int, start + 32));
    proof {
        lemma_word_of(r);
    }
    r
}

/// Decodes a `uint256` return value.
pub fn decode_uint(out: &Vec<u8>) -> (r: Option<U256>)
    ensures
        r == first_word(out@),
{
    if out.len() >= WORD_LEN {
        Some(read_word(out, 0))
    } else {
        None
    }
}

/// Decodes a `bool` return value.
pub fn decode_bool(out: &Vec<u8>) -> (r: Option<bool>)
    ensures
        r == bool_of(out@),
{
    match decode_uint(out) {
        Some(w) => Some(!w.is_zero()),
        None => None,
    }
}

/// Decodes the two reserves of a `getReserves()` return value.
pub fn decode_reserves(out: &Vec<u8>) -> (r: Option<(U256, U256)>)
    ensures
        r == reserves_of(out@),
{
    if out.len() >= 3 * WORD_LEN {
        Some((read_word(out, 0), read_word(out, WORD_LEN)))
    } else {
        None
    }
}

/// Decodes an `address` return value strictly.
pub fn decode_address_strict(out: &Vec<u8>) -> (r: Option<Address>)
    ensures
        r == strict_address_of(out@),
{
    if out.len() != WORD_LEN {
        return None;
    }
    let mut i: usize = 0;
    while i < 12
        invariant
            0 <= i <= 12,
            out@.len() == 32,
            forall|j: int| 0 <= j < i ==> out@[j] == 0u8,
        decreases 12 - i,
    {
        if out[i] != 0 {
            assert(out@.subrange(0, 12)[i as int] != zero_bytes(12)[i as int]);
            return None;
        }
        i = i + 1;
    }
    assert(out@.subrange(0, 12) =~= zero_bytes(12));
    let mut b: [u8; 20] = [0u8; 20];
    let mut k: usize = 0;
    while k < ADDRESS_LEN
        invariant
            0 <= k <= 20,
            out@.len() == 32,
            forall|j: int| 0 <= j < k ==> b@[j] == out@[12 + j],
        decreases 20 - k,
    {
        b[k] = out[12 + k];
        k = k + 1;
    }
    let a = Address { bytes: b };
    assert(a@ =~= out@.subrange(12, 32));
    proof {
        lemma_address_of(a);
    }
    Some(a)
}

} // verus!
