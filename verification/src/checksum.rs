//! The Internet checksum (RFC 1071): the one's-complement sum of a sequence
//! of 16-bit words, with carries folded back into the low 16 bits, finally
//! complemented.

use vstd::prelude::*;
use vstd::arithmetic::div_mod::{
    lemma_fundamental_div_mod, lemma_fundamental_div_mod_converse,
    lemma_fundamental_div_mod_converse_mod, lemma_mod_division_less_than_divisor,
    lemma_mod_multiples_vanish, lemma_add_mod_noop, lemma_sub_mod_noop, lemma_small_mod,
    lemma_mod_self_0, lemma_div_pos_is_pos, lemma_div_non_zero,
};

verus! {

/// The mathematical sum of a sequence of 16-bit words.
pub open spec fn sum_words(s: Seq<u16>) -> int
    decreases s.len(),
{
    if s.len() == 0 {
        0
    } else {
        sum_words(s.drop_last()) + s.last()
    }
}

/// Folds the carry bits above the 16-bit window back into the low 16 bits,
/// repeatedly, until none remain.
pub open spec fn fold_carries(x: int) -> int
    recommends
        x >= 0,
    decreases x,
{
    if x < 0x10000 {
        x
    } else {
        fold_carries(x % 0x10000 + x / 0x10000)
    }
}

/// The Internet checksum of a word sequence: the folded one's-complement sum,
/// complemented.
pub open spec fn checksum_spec(s: Seq<u16>) -> u16 {
    (0xFFFF - fold_carries(sum_words(s))) as u16
}

proof fn lemma_sum_words_nonneg(s: Seq<u16>)
    ensures
        sum_words(s) >= 0,
    decreases s.len(),
{
    if s.len() > 0 {
        lemma_sum_words_nonneg(s.drop_last());
    }
}

proof fn lemma_fold_carries_range(x: int)
    requires
        x >= 0,
    ensures
        0 <= fold_carries(x) <= 0xFFFF,
    decreases x,
{
    if x >= 0x10000 {
        lemma_mod_division_less_than_divisor(x, 0x10000);
        lemma_div_pos_is_pos(x, 0x10000);
        lemma_fold_carries_range(x % 0x10000 + x / 0x10000);
    }
}

proof fn lemma_fold_carries_congruent(x: int)
    requires
        x >= 0,
    ensures
        fold_carries(x) % 0xFFFF == x % 0xFFFF,
    decreases x,
{
    if x >= 0x10000 {
        let q = x / 0x10000;
        let r = x % 0x10000;
        lemma_fundamental_div_mod(x, 0x10000);
        lemma_mod_division_less_than_divisor(x, 0x10000);
        lemma_div_pos_is_pos(x, 0x10000);
        lemma_fold_carries_congruent(r + q);
        assert(x == 0xFFFF * q + (q + r));
        lemma_mod_multiples_vanish(q, q + r, 0xFFFF);
    }
}

proof fn lemma_fold_carries_zero(x: int)
    requires
        x >= 0,
    ensures
        (fold_carries(x) == 0) <==> (x == 0),
    decreases x,
{
    if x >= 0x10000 {
        let q = x / 0x10000;
        let r = x % 0x10000;
        lemma_mod_division_less_than_divisor(x, 0x10000);
        lemma_div_non_zero(x, 0x10000);
        lemma_fold_carries_zero(r + q);
    }
}

proof fn lemma_canonical_unique(u: int, v: int)
    requires
        0 <= u <= 0xFFFF,
        0 <= v <= 0xFFFF,
        u % 0xFFFF == v % 0xFFFF,
        (u == 0) <==> (v == 0),
    ensures
        u == v,
{
    if u < 0xFFFF {
        lemma_small_mod(u as nat, 0xFFFF as nat);
    } else {
        lemma_mod_self_0(0xFFFF);
    }
    if v < 0xFFFF {
        lemma_small_mod(v as nat, 0xFFFF as nat);
    } else {
        lemma_mod_self_0(0xFFFF);
    }
}

/// Folding the accumulator early never changes the final folded sum: the
/// partial sum may be collapsed to 16 bits before further words arrive.
proof fn lemma_fold_carries_add(a: int, w: int)
    requires
        a >= 0,
        w >= 0,
    ensures
        fold_carries(fold_carries(a) + w) == fold_carries(a + w),
{
    let fa = fold_carries(a);
    lemma_fold_carries_range(a);
    lemma_fold_carries_range(fa + w);
    lemma_fold_carries_range(a + w);
    lemma_fold_carries_congruent(a);
    lemma_fold_carries_congruent(fa + w);
    lemma_fold_carries_congruent(a + w);
    lemma_add_mod_noop(fa, w, 0xFFFF);
    lemma_add_mod_noop(a, w, 0xFFFF);
    lemma_fold_carries_zero(a);
    lemma_fold_carries_zero(fa + w);
    lemma_fold_carries_zero(a + w);
    lemma_canonical_unique(fold_carries(fa + w), fold_carries(a + w));
}

/// The sum of a concatenation is the sum of the parts.
pub proof fn lemma_sum_words_append(a: Seq<u16>, b: Seq<u16>)
    ensures
        sum_words(a + b) == sum_words(a) + sum_words(b),
    decreases b.len(),
{
    if b.len() == 0 {
        assert(a + b =~= a);
    } else {
        assert((a + b).drop_last() =~= a + b.drop_last());
        lemma_sum_words_append(a, b.drop_last());
    }
}

/// The checksum of an empty word sequence is `0xFFFF`: nothing to sum, so the
/// complement of zero.
pub proof fn lemma_checksum_empty()
    ensures
        checksum_spec(Seq::<u16>::empty()) == 0xFFFF,
{
}

/// Chunking invariance: collapsing the one's-complement sum of a first batch
/// of words to 16 bits and then adding a second batch folds to the same value
/// as summing the whole sequence in one pass. Hence the checksum of `a + b`
/// can be computed by streaming `a` and `b` separately.
pub proof fn lemma_checksum_streaming(a: Seq<u16>, b: Seq<u16>)
    ensures
        fold_carries(fold_carries(sum_words(a)) + sum_words(b)) == fold_carries(sum_words(a + b)),
{
    lemma_sum_words_nonneg(a);
    lemma_sum_words_nonneg(b);
    lemma_sum_words_append(a, b);
    lemma_fold_carries_add(sum_words(a), sum_words(b));
}

/// Word sequences whose sums differ, but by less than `0xFFFF` in either
/// direction, have different checksums: a small disturbance of the sum is
/// never absorbed by the carry folding.
pub proof fn lemma_checksum_sensitive(a: Seq<u16>, b: Seq<u16>)
    requires
        sum_words(a) != sum_words(b),
        -0xFFFF < sum_words(a) - sum_words(b) < 0xFFFF,
    ensures
        checksum_spec(a) != checksum_spec(b),
{
    let sa = sum_words(a);
    let sb = sum_words(b);
    lemma_sum_words_nonneg(a);
    lemma_sum_words_nonneg(b);
    lemma_fold_carries_range(sa);
    lemma_fold_carries_range(sb);
    lemma_fold_carries_congruent(sa);
    lemma_fold_carries_congruent(sb);
    if fold_carries(sa) == fold_carries(sb) {
        // Then the two sums agree modulo 0xFFFF, yet differ by less than
        // 0xFFFF: impossible unless they are equal.
        let d = sa - sb;
        lemma_sub_mod_noop(sa, sb, 0xFFFF);
        lemma_mod_self_0(0xFFFF);
        if d > 0 {
            lemma_small_mod(d as nat, 0xFFFF as nat);
        } else {
            lemma_fundamental_div_mod_converse_mod(d, 0xFFFF, -1, d + 0xFFFF);
        }
        assert(false);
    }
}

/// A streaming accumulator for the Internet checksum: words may arrive in any
/// number of batches, and the digest depends only on the concatenation of all
/// words pushed, in order.
pub struct Checksum {
    sum: u16,
    words: Ghost<Seq<u16>>,
}

impl View for Checksum {
    type V = Seq<u16>;

    /// The words pushed so far, in order.
    closed spec fn view(&self) -> Seq<u16> {
        self.words@
    }
}

impl Checksum {
    /// The accumulator holds the folded one's-complement sum of the words
    /// pushed so far.
    pub closed spec fn wf(&self) -> bool {
        self.sum == fold_carries(sum_words(self.words@))
    }

    /// An accumulator over no words yet.
    pub fn new() -> (r: Checksum)
        ensures
            r.wf(),
            r@ == Seq::<u16>::empty(),
    {
        Checksum { sum: 0, words: Ghost(Seq::empty()) }
    }

    /// Adds one word to the running sum, folding any carry at once.
    pub fn push(&mut self, w: u16)
        requires
            old(self).wf(),
        ensures
            final(self).wf(),
            final(self)@ == old(self)@.push(w),
    {
        proof {
            let s_old = sum_words(self.words@);
            lemma_sum_words_nonneg(self.words@);
            lemma_fold_carries_range(s_old);
            lemma_fold_carries_add(s_old, w as int);
            assert(self.words@.push(w).drop_last() =~= self.words@);
            assert(sum_words(self.words@.push(w)) == s_old + w);
            let t = fold_carries(s_old) + w;
            if t > 0xFFFF {
                // One fold step: the single carry bit comes back in as +1.
                lemma_fundamental_div_mod_converse(t, 0x10000, 1, t - 0x10000);
                assert(fold_carries(t) == fold_carries(t % 0x10000 + t / 0x10000));
                assert(t % 0x10000 + t / 0x10000 == t - 0xFFFF);
            }
        }
        let s: u32 = self.sum as u32 + w as u32;
        if s > 0xFFFF {
            self.sum = (s - 0xFFFF) as u16;
        } else {
            self.sum = s as u16;
        }
        self.words = Ghost(self.words@.push(w));
    }

    /// Adds a batch of words to the running sum, in order.
    pub fn push_words(&mut self, data: &Vec<u16>)
        requires
            old(self).wf(),
        ensures
            final(self).wf(),
            final(self)@ == old(self)@ + data@,
    {
        let n = data.len();
        let mut i: usize = 0;
        while i < n
            invariant
                self.wf(),
                i <= n,
                n == data@.len(),
                self@ == old(self)@ + data@.take(i as int),
            decreases n - i,
        {
            proof {
                assert((old(self)@ + data@.take(i as int)).push(data@[i as int]) =~= old(self)@
                    + data@.take(i as int + 1));
            }
            self.push(data[i]);
            i = i + 1;
        }
        proof {
            assert(old(self)@ + data@.take(n as int) =~= old(self)@ + data@);
        }
    }

    /// The digest of everything pushed so far: the complement of the folded
    /// sum. Reading the digest does not disturb the accumulator, so more
    /// words may still follow.
    pub fn finish(&self) -> (r: u16)
        requires
            self.wf(),
        ensures
            r == checksum_spec(self@),
    {
        proof {
            lemma_sum_words_nonneg(self.words@);
            lemma_fold_carries_range(sum_words(self.words@));
            let x = self.sum;
            assert(!x == (0xFFFFu16 - x) as u16) by (bit_vector);
        }
        !self.sum
    }
}

/// The Internet checksum of a word sequence, in one pass.
pub fn checksum_words(data: &Vec<u16>) -> (r: u16)
    ensures
        r == checksum_spec(data@),
{
    let mut c = Checksum::new();
    c.push_words(data);
    proof {
        assert(Seq::<u16>::empty() + data@ =~= data@);
    }
    c.finish()
}

} // verus!
