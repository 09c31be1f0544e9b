use vstd::prelude::*;

verus! {

/// Number of bytes in an ABI word.
pub const WORD_LEN: usize = 32;

/// An unsigned 256-bit integer, held as its 32 big-endian bytes (one ABI word).
#[derive(Clone, Copy, Debug, PartialEq, Eq)]
pub struct U256 {
    pub bytes: [u8; 32],
}

impl View for U256 {
    type V = Seq<u8>;

    open spec fn view(&self) -> Seq<u8> {
        self.bytes@
    }
}

/// The number that a big-endian byte string denotes.
pub open spec fn be_value(s: Seq<u8>) -> nat
    decreases s.len(),
{
    if s.len() == 0 {
        0
    } else {
        be_value(s.drop_last()) * 256 + s.last() as nat
    }
}

pub open spec fn pow256(n: nat) -> nat
    decreases n,
{
    if n == 0 {
        1
    } else {
        256 * pow256((n - 1) as nat)
    }
}

/// The word whose bytes are `s` (for a sequence of 32 bytes).
pub open spec fn word_of(s: Seq<u8>) -> U256 {
    choose|w: U256| w@ == s
}

pub proof fn lemma_word_of(w: U256)
    ensures
        word_of(w@) == w,
{
    let v = word_of(w@);
    assert(v@ == w@);
    assert(v.bytes =~= w.bytes);
}

/// The word that denotes `x` (for `x` below 2^256).
pub open spec fn word_for(x: nat) -> U256 {
    choose|w: U256| w.value() == x
}

proof fn lemma_be_value_injective(s: Seq<u8>, t: Seq<u8>)
    requires
        s.len() == t.len(),
        be_value(s) == be_value(t),
    ensures
        s == t,
    decreases s.len(),
{
    if s.len() > 0 {
        let a = be_value(s.drop_last());
        let b = be_value(t.drop_last());
        let x = s.last() as nat;
        let y = t.last() as nat;
        assert(a * 256 + x == b * 256 + y);
        assert(a == b && x == y) by (nonlinear_arith)
            requires
                a * 256 + x == b * 256 + y,
                x < 256,
                y < 256,
        ;
        lemma_be_value_injective(s.drop_last(), t.drop_last());
        assert(s =~= t.drop_last().push(t.last()));
        assert(t =~= t.drop_last().push(t.last()));
    } else {
        assert(s =~= t);
    }
}

/// A word is the one word that denotes its value.
pub proof fn lemma_word_for(w: U256)
    ensures
        word_for(w.value()) == w,
{
    let v = word_for(w.value());
    assert(v.value() == w.value());
    lemma_be_value_injective(v@, w@);
    assert(v.bytes =~= w.bytes);
}

proof fn lemma_be_value_prepend(c: u8, s: Seq<u8>)
    ensures
        be_value(seq![c] + s) == c as nat * pow256(s.len()) + be_value(s),
    decreases s.len(),
{
    let t = seq![c] + s;
    if s.len() == 0 {
        assert(t.drop_last() =~= Seq::<u8>::empty());
        assert(t.last() == c);
        assert(be_value(t) == be_value(t.drop_last()) * 256 + c as nat);
        assert(be_value(Seq::<u8>::empty()) == 0);
        assert(pow256(0) == 1);
    } else {
        assert(t.drop_last() =~= seq![c] + s.drop_last());
        assert(t.last() == s.last());
        lemma_be_value_prepend(c, s.drop_last());
        let p = pow256((s.len() - 1) as nat);
        let x = be_value(s.drop_last());
        assert(be_value(t) == be_value(t.drop_last()) * 256 + s.last() as nat);
        assert(be_value(t.drop_last()) == c as nat * p + x);
        assert(be_value(s) == x * 256 + s.last() as nat);
        assert(pow256(s.len()) == 256 * p);
        assert((c as nat * p + x) * 256 + s.last() as nat == c as nat * (256 * p) + (x * 256
            + s.last() as nat)) by (nonlinear_arith);
    }
}

proof fn lemma_be_value_zero(s: Seq<u8>)
    ensures
        (be_value(s) == 0) <==> (forall|i: int| 0 <= i < s.len() ==> s[i] == 0u8),
    decreases s.len(),
{
    if s.len() > 0 {
        lemma_be_value_zero(s.drop_last());
        if be_value(s) == 0 {
            assert forall|i: int| 0 <= i < s.len() implies s[i] == 0u8 by {
                if i < s.len() - 1 {
                    assert(s.drop_last()[i] == s[i]);
                }
            }
        }
        if forall|i: int| 0 <= i < s.len() ==> s[i] == 0u8 {
            assert forall|i: int| 0 <= i < s.drop_last().len() implies s.drop_last()[i] == 0u8 by {
                assert(s[i] == 0u8);
            }
            assert(s[s.len() - 1] == 0u8);
        }
    }
}

proof fn lemma_pow256_bounds()
    ensures
        pow256(16) == 0x1_0000_0000_0000_0000_0000_0000_0000_0000,
        pow256(16) <= pow256(32),
{
    reveal_with_fuel(pow256, 17);
    lemma_pow256_mono(16, 32);
}

pub(crate) proof fn lemma_pow256_mono(m: nat, n: nat)
    requires
        m <= n,
    ensures
        1 <= pow256(m) <= pow256(n),
    decreases n,
{
    if n > 0 {
        if m < n {
            lemma_pow256_mono(m, (n - 1) as nat);
        } else {
            lemma_pow256_mono((m - 1) as nat, (n - 1) as nat);
        }
    }
}

impl U256 {
    /// The number this word denotes.
    pub open spec fn value(&self) -> nat {
        be_value(self.bytes@)
    }

    /// The word zero.
    pub fn zero() -> (r: U256)
        ensures
            r.value() == 0,
            r@ == Seq::new(32, |i: int| 0u8),
            r == word_for(0),
    {
        let r = U256 { bytes: [0u8; 32] };
        assert(r@ =~= Seq::new(32, |i: int| 0u8));
        proof {
            lemma_be_value_zero(r@);
            lemma_word_for(r);
        }
        r
    }

    /// The word that denotes `x`.
    pub fn from_u128(x: u128) -> (r: U256)
        ensures
            r.value() == x as nat,
            r == word_for(x as nat),
    {
        let mut b: [u8; 32] = [0u8; 32];
        let mut v: u128 = x;
        let mut i: usize = 32;
        proof {
            lemma_pow256_bounds();
            assert(b@.subrange(32, 32) =~= Seq::<u8>::empty());
            assert(be_value(b@.subrange(32, 32)) == 0);
            assert(pow256(0) == 1);
            assert(pow256((32 - i) as nat) == 1);
            assert(be_value(b@.subrange(i as int, 32)) == 0);
            assert(v as nat * 1 == v as nat);
            assert((v as nat) < pow256(i as nat));
        }
        while i > 0
            invariant
                0 <= i <= 32,
                x as nat == v as nat * pow256((32 - i) as nat) + be_value(b@.subrange(i as int, 32)),
                (v as nat) < pow256(i as nat),
            decreases i,
        {
            let byte: u8 = (v % 256) as u8;
            let ghost old_b = b@;
            let ghost old_v = v as nat;
            let ghost p = pow256((32 - i) as nat);
            b[i - 1] = byte;
            v = v / 256;
            i = i - 1;
            proof {
                assert(b@.subrange(i as int, 32) =~= seq![byte] + old_b.subrange(i + 1, 32));
                lemma_be_value_prepend(byte, old_b.subrange(i + 1, 32));
                assert(pow256((32 - i) as nat) == 256 * p);
                assert(pow256((i + 1) as nat) == 256 * pow256(i as nat));
                let e = be_value(old_b.subrange(i + 1, 32));
                assert(old_v == 256 * (v as nat) + byte as nat);
                assert(x as nat == old_v * p + e);
                assert(x as nat == (v as nat) * (256 * p) + (byte as nat * p + e))
                    by (nonlinear_arith)
                    requires
                        x as nat == old_v * p + e,
                        old_v == 256 * (v as nat) + byte as nat,
                ;
                assert((v as nat) < pow256(i as nat)) by (nonlinear_arith)
                    requires
                        old_v < 256 * pow256(i as nat),
                        old_v == 256 * (v as nat) + byte as nat,
                ;
            }
        }
        assert(b@.subrange(0, 32) =~= b@);
        let r = U256 { bytes: b };
        proof {
            lemma_word_for(r);
        }
        r
    }

    /// True when the word denotes zero.
    pub fn is_zero(&self) -> (r: bool)
        ensures
            r == (self.value() == 0),
    {
        proof {
            lemma_be_value_zero(self@);
        }
        let mut i: usize = 0;
        while i < WORD_LEN
            invariant
                0 <= i <= 32,
                forall|j: int| 0 <= j < i ==> self@[j] == 0u8,
            decreases 32 - i,
        {
            if self.bytes[i] != 0 {
                proof {
                    lemma_be_value_zero(self@);
                }
                assert(self@[i as int] != 0u8);
                return false;
            }
            i = i + 1;
        }
        true
    }
}

} // verus!
