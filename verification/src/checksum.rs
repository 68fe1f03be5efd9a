//! The internet checksum: one's-complement sum of 16-bit big-endian words,
//! folded end-around and complemented.
//!
//! The central result is [`lemma_checksum_completion`]: writing the checksum
//! of a message (computed with its checksum field zeroed) into that field
//! yields a message whose word sum folds to `0xFFFF`, so a receiver that
//! recomputes the complemented sum over the whole message obtains zero.

use vstd::prelude::*;
use vstd::arithmetic::div_mod::{
    lemma_fundamental_div_mod, lemma_mod_division_less_than_divisor, lemma_mod_multiples_vanish,
    lemma_small_mod, lemma_sub_mod_noop,
};

verus! {

/// The 16-bit word starting at byte `2*k` of `s`, read big-endian.
pub open spec fn word_at(s: Seq<u8>, k: int) -> int {
    s[2 * k] * 0x100 + s[2 * k + 1]
}

/// Sum of the first `n` 16-bit big-endian words of `s`.
pub open spec fn sum_words_upto(s: Seq<u8>, n: int) -> int
    decreases n,
{
    if n <= 0 {
        0
    } else {
        sum_words_upto(s, n - 1) + word_at(s, n - 1)
    }
}

/// Sum of all 16-bit big-endian words of `s`; an odd trailing byte is padded
/// on the right with a zero byte, as the internet checksum prescribes.
pub open spec fn sum_words(s: Seq<u8>) -> int {
    if s.len() % 2 == 0 {
        sum_words_upto(s, s.len() as int / 2)
    } else {
        sum_words_upto(s, (s.len() - 1) as int / 2) + s[s.len() - 1] * 0x100
    }
}

/// End-around-carry folding of a word sum into 16 bits: while the value is
/// wider than 16 bits, the upper bits are added back onto the lower 16.
pub open spec fn fold_carries(x: int) -> int
    decreases x,
{
    if x <= 0xFFFF {
        x
    } else {
        fold_carries(x % 0x10000 + x / 0x10000)
    }
}

/// The internet checksum of a byte sequence: the one's complement of the
/// folded word sum.
pub open spec fn internet_checksum(s: Seq<u8>) -> int {
    0xFFFF - fold_carries(sum_words(s))
}

/// A message whose checksum validates: the folded sum over all of its words,
/// checksum field included, is `0xFFFF`, so the recomputed complement is zero.
pub open spec fn checksum_valid(s: Seq<u8>) -> bool {
    fold_carries(sum_words(s)) == 0xFFFF
}

/// Word sums of prefixes are non-negative and bounded by `0xFFFF` per word.
pub proof fn lemma_sum_words_upto_bounds(s: Seq<u8>, n: int)
    requires
        0 <= n,
        2 * n <= s.len(),
    ensures
        0 <= sum_words_upto(s, n) <= n * 0xFFFF,
    decreases n,
{
    if n > 0 {
        lemma_sum_words_upto_bounds(s, n - 1);
    }
}

/// The whole word sum is non-negative.
pub proof fn lemma_sum_words_bounds(s: Seq<u8>)
    ensures
        0 <= sum_words(s) <= (s.len() + 1) * 0x8000 * 0xFFFF,
{
    if s.len() % 2 == 0 {
        lemma_sum_words_upto_bounds(s, s.len() as int / 2);
        assert(s.len() as int / 2 * 0xFFFF <= (s.len() + 1) * 0x8000 * 0xFFFF)
            by (nonlinear_arith);
    } else {
        lemma_sum_words_upto_bounds(s, (s.len() - 1) as int / 2);
        assert((s.len() - 1) as int / 2 * 0xFFFF + 0xFF * 0x100 <= (s.len() + 1) * 0x8000
            * 0xFFFF) by (nonlinear_arith);
    }
}

/// Prefix word sums only look at the first `2*n` bytes.
proof fn lemma_sum_words_upto_agree(s: Seq<u8>, t: Seq<u8>, n: int)
    requires
        0 <= n,
        2 * n <= s.len(),
        2 * n <= t.len(),
        forall|i: int| 0 <= i < 2 * n ==> s[i] == t[i],
    ensures
        sum_words_upto(s, n) == sum_words_upto(t, n),
    decreases n,
{
    if n > 0 {
        lemma_sum_words_upto_agree(s, t, n - 1);
    }
}

/// Word sums of `a + b` over the words of `b`, shifted past an even-length `a`.
proof fn lemma_sum_words_upto_concat_right(a: Seq<u8>, b: Seq<u8>, j: int)
    requires
        a.len() % 2 == 0,
        0 <= j,
        2 * j <= b.len(),
    ensures
        sum_words_upto(a + b, a.len() as int / 2 + j)
            == sum_words_upto(a + b, a.len() as int / 2) + sum_words_upto(b, j),
    decreases j,
{
    if j > 0 {
        lemma_sum_words_upto_concat_right(a, b, j - 1);
        let h = a.len() as int / 2;
        assert(a.len() == 2 * h);
        assert(word_at(a + b, h + (j - 1)) == word_at(b, j - 1));
    }
}

/// The word sum distributes over concatenation when the left part has even
/// length.
pub proof fn lemma_sum_words_concat(a: Seq<u8>, b: Seq<u8>)
    requires
        a.len() % 2 == 0,
    ensures
        sum_words(a + b) == sum_words(a) + sum_words(b),
{
    let h = a.len() as int / 2;
    assert(a.len() == 2 * h);
    lemma_sum_words_upto_agree(a + b, a, h);
    if b.len() % 2 == 0 {
        let k = b.len() as int / 2;
        assert(b.len() == 2 * k);
        assert((a + b).len() == 2 * (h + k));
        assert((a + b).len() % 2 == 0);
        assert((a + b).len() as int / 2 == h + k);
        lemma_sum_words_upto_concat_right(a, b, k);
    } else {
        let k = (b.len() - 1) as int / 2;
        assert(b.len() == 2 * k + 1);
        assert((a + b).len() == 2 * (h + k) + 1);
        assert((a + b).len() % 2 == 1);
        assert(((a + b).len() - 1) as int / 2 == h + k);
        lemma_sum_words_upto_concat_right(a, b, k);
        assert((a + b)[(a + b).len() - 1] == b[b.len() - 1]);
    }
}

/// Changing only the two bytes of word `k` shifts prefix word sums by the
/// difference in that word, once the prefix covers it.
proof fn lemma_sum_words_upto_two_byte_update(s: Seq<u8>, t: Seq<u8>, k: int, n: int)
    requires
        s.len() == t.len(),
        0 <= k,
        2 * k + 1 < s.len(),
        forall|i: int| 0 <= i < s.len() && i != 2 * k && i != 2 * k + 1 ==> s[i] == t[i],
        0 <= n,
        2 * n <= s.len(),
    ensures
        k < n ==> sum_words_upto(t, n) == sum_words_upto(s, n) - word_at(s, k) + word_at(t, k),
        n <= k ==> sum_words_upto(t, n) == sum_words_upto(s, n),
    decreases n,
{
    if n > 0 {
        lemma_sum_words_upto_two_byte_update(s, t, k, n - 1);
        if n - 1 != k {
            assert(word_at(s, n - 1) == word_at(t, n - 1));
        }
    }
}

/// Changing only the two bytes of word `k` shifts the whole word sum by the
/// difference in that word.
pub proof fn lemma_sum_words_two_byte_update(s: Seq<u8>, t: Seq<u8>, k: int)
    requires
        s.len() == t.len(),
        0 <= k,
        2 * k + 1 < s.len(),
        forall|i: int| 0 <= i < s.len() && i != 2 * k && i != 2 * k + 1 ==> s[i] == t[i],
    ensures
        sum_words(t) == sum_words(s) - word_at(s, k) + word_at(t, k),
{
    if s.len() % 2 == 0 {
        let n = s.len() as int / 2;
        assert(s.len() == 2 * n);
        lemma_sum_words_upto_two_byte_update(s, t, k, n);
    } else {
        let n = (s.len() - 1) as int / 2;
        assert(s.len() == 2 * n + 1);
        lemma_sum_words_upto_two_byte_update(s, t, k, n);
        assert(s[s.len() - 1] == t[t.len() - 1]);
    }
}

/// Folding keeps the value congruent modulo `0xFFFF`, lands it in
/// `[0, 0xFFFF]`, and reaches zero only from zero.
pub proof fn lemma_fold_carries_props(x: int)
    requires
        0 <= x,
    ensures
        0 <= fold_carries(x) <= 0xFFFF,
        fold_carries(x) % 0xFFFF == x % 0xFFFF,
        (fold_carries(x) == 0) <==> (x == 0),
    decreases x,
{
    if x > 0xFFFF {
        lemma_fundamental_div_mod(x, 0x10000);
        lemma_mod_division_less_than_divisor(x, 0x10000);
        let q = x / 0x10000;
        let r = x % 0x10000;
        let y = r + q;
        assert(x == 0x10000 * q + r);
        assert(q >= 1) by (nonlinear_arith)
            requires
                x > 0xFFFF,
                x == 0x10000 * q + r,
                0 <= r < 0x10000,
        ;
        assert(0xFFFF * q + y == x);
        lemma_mod_multiples_vanish(q, y, 0xFFFF);
        assert(y < x);
        lemma_fold_carries_props(y);
    }
}

/// Completing a message with its own internet checksum makes it validate.
///
/// `s` is the message with the checksum field (word `k`) zeroed; `t` is the
/// same message with that word set to `internet_checksum(s)`. Then the folded
/// word sum of `t` is `0xFFFF`, i.e. `t` validates.
pub proof fn lemma_checksum_completion(s: Seq<u8>, t: Seq<u8>, k: int)
    requires
        s.len() == t.len(),
        0 <= k,
        2 * k + 1 < s.len(),
        forall|i: int| 0 <= i < s.len() && i != 2 * k && i != 2 * k + 1 ==> s[i] == t[i],
        word_at(s, k) == 0,
        word_at(t, k) == internet_checksum(s),
    ensures
        checksum_valid(t),
{
    lemma_sum_words_bounds(s);
    let total = sum_words(s);
    lemma_fold_carries_props(total);
    let f = fold_carries(total);
    let c = 0xFFFF - f;
    lemma_sum_words_two_byte_update(s, t, k);
    assert(sum_words(t) == total + c);
    if total == 0 {
        assert(f == 0);
        assert(sum_words(t) == 0xFFFF);
        assert(fold_carries(0xFFFF) == 0xFFFF);
    } else {
        lemma_sub_mod_noop(total, f, 0xFFFF);
        assert((total - f) % 0xFFFF == 0) by {
            assert((total % 0xFFFF - f % 0xFFFF) % 0xFFFF == (total - f) % 0xFFFF);
            assert(total % 0xFFFF == f % 0xFFFF);
            lemma_small_mod(0, 0xFFFF);
        }
        lemma_mod_multiples_vanish(1, total - f, 0xFFFF);
        assert((total + c) % 0xFFFF == 0);
        lemma_fold_carries_props(total + c);
        let g = fold_carries(total + c);
        assert(g % 0xFFFF == 0);
        assert(g != 0);
        if g < 0xFFFF {
            lemma_small_mod(g as nat, 0xFFFF);
        }
        assert(g == 0xFFFF);
    }
}

/// Sum of the 16-bit big-endian words of `buf[start..end]`, computed exactly.
pub fn sum_block(buf: &Vec<u8>, start: usize, end: usize) -> (r: u64)
    requires
        start <= end <= buf.len(),
        end - start <= 0x10000,
    ensures
        r == sum_words(buf@.subrange(start as int, end as int)),
{
    let sub = Ghost(buf@.subrange(start as int, end as int));
    let n: usize = (end - start) / 2;
    let mut acc: u64 = 0;
    let mut w: usize = 0;
    while w < n
        invariant
            0 <= w <= n,
            n <= 0x8000,
            start + 2 * n <= end <= buf.len(),
            sub@ == buf@.subrange(start as int, end as int),
            2 * n <= sub@.len() <= 2 * n + 1,
            acc == sum_words_upto(sub@, w as int),
            acc <= w * 0xFFFF,
        decreases n - w,
    {
        proof {
            lemma_sum_words_upto_bounds(sub@, w as int + 1);
        }
        let hi = buf[start + 2 * w];
        let lo = buf[start + 2 * w + 1];
        assert(hi == sub@[2 * (w as int)]);
        assert(lo == sub@[2 * (w as int) + 1]);
        acc = acc + (hi as u64) * 0x100 + (lo as u64);
        w = w + 1;
    }
    if (end - start) % 2 == 1 {
        let last = buf[end - 1];
        assert(last == sub@[sub@.len() - 1]);
        assert(sum_words(sub@) == sum_words_upto(sub@, n as int) + sub@[sub@.len() - 1] * 0x100);
        acc = acc + (last as u64) * 0x100;
    } else {
        assert(sum_words(sub@) == sum_words_upto(sub@, n as int));
    }
    acc
}

/// End-around-carry folding of an accumulated sum into 16 bits.
pub fn fold_block(sum: u64) -> (r: u16)
    ensures
        r == fold_carries(sum as int),
{
    let mut s: u64 = sum;
    while s > 0xFFFF
        invariant
            fold_carries(s as int) == fold_carries(sum as int),
        decreases s,
    {
        s = s % 0x10000 + s / 0x10000;
    }
    s as u16
}

/// The internet checksum over `buf[start..end]`.
pub fn checksum_block(buf: &Vec<u8>, start: usize, end: usize) -> (r: u16)
    requires
        start <= end <= buf.len(),
        end - start <= 0x10000,
    ensures
        r == internet_checksum(buf@.subrange(start as int, end as int)),
{
    let s = sum_block(buf, start, end);
    let f = fold_block(s);
    proof {
        lemma_sum_words_bounds(buf@.subrange(start as int, end as int));
        lemma_fold_carries_props(s as int);
    }
    0xFFFF - f
}

/// The internet checksum over the concatenation of `head` (even length) and
/// `buf[start..end]`, without materializing the concatenation.
pub fn checksum_with_head(head: &Vec<u8>, buf: &Vec<u8>, start: usize, end: usize) -> (r: u16)
    requires
        head.len() % 2 == 0,
        head.len() <= 0x10000,
        start <= end <= buf.len(),
        end - start <= 0x10000,
    ensures
        r == internet_checksum(head@ + buf@.subrange(start as int, end as int)),
{
    let a = sum_block(head, 0, head.len());
    let b = sum_block(buf, start, end);
    proof {
        assert(head@.subrange(0, head.len() as int) == head@);
        lemma_sum_words_concat(head@, buf@.subrange(start as int, end as int));
        lemma_sum_words_bounds(head@);
        lemma_sum_words_bounds(buf@.subrange(start as int, end as int));
        lemma_sum_words_bounds(head@ + buf@.subrange(start as int, end as int));
        lemma_fold_carries_props((a + b) as int);
    }
    let f = fold_block(a + b);
    0xFFFF - f
}

} // verus!
