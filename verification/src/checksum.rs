use crate::buffer::Buffer;
use vstd::arithmetic::div_mod::{
    lemma_mod_multiples_vanish, lemma_mod_sub_multiples_vanish, lemma_small_mod,
};
use vstd::prelude::*;

verus! {

/// The 16-bit-word sum that the internet checksum folds: consecutive
/// byte pairs are added as big-endian integers, a trailing odd byte
/// counting as the high byte of a final word.
pub open spec fn words_sum(s: Seq<u8>) -> int
    decreases s.len(),
{
    if s.len() == 0 {
        0
    } else if s.len() == 1 {
        s[0] * 0x100
    } else {
        s[0] * 0x100 + s[1] + words_sum(s.skip(2))
    }
}

/// Appending one whole word after an even number of bytes extends the
/// sum by that word.
proof fn lemma_words_sum_append2(s: Seq<u8>, a: u8, b: u8)
    requires
        s.len() % 2 == 0,
    ensures
        words_sum(s.push(a).push(b)) == words_sum(s) + a * 0x100 + b,
    decreases s.len(),
{
    let t = s.push(a).push(b);
    if s.len() == 0 {
        assert(t.skip(2) =~= Seq::<u8>::empty());
        assert(t.len() == 2);
        assert(t[0] == a);
        assert(t[1] == b);
        assert(words_sum(t) == t[0] * 0x100 + t[1] + words_sum(t.skip(2)));
    } else {
        assert(t.skip(2) =~= s.skip(2).push(a).push(b));
        lemma_mod_sub_multiples_vanish(s.len() as int, 2);
        lemma_words_sum_append2(s.skip(2), a, b);
        assert(t[0] == s[0]);
        assert(t[1] == s[1]);
        assert(words_sum(t) == t[0] * 0x100 + t[1] + words_sum(t.skip(2)));
        assert(words_sum(s) == s[0] * 0x100 + s[1] + words_sum(s.skip(2)));
    }
}

/// Appending a final odd byte after an even number of bytes extends the
/// sum by its high-byte word.
proof fn lemma_words_sum_append1(s: Seq<u8>, a: u8)
    requires
        s.len() % 2 == 0,
    ensures
        words_sum(s.push(a)) == words_sum(s) + a * 0x100,
    decreases s.len(),
{
    let t = s.push(a);
    if s.len() == 0 {
    } else {
        assert(t.skip(2) =~= s.skip(2).push(a));
        lemma_mod_sub_multiples_vanish(s.len() as int, 2);
        lemma_words_sum_append1(s.skip(2), a);
    }
}

/// The word sum of the buffer bytes `start .. end`, accumulated without
/// end-around folding.  The bound on the range keeps the accumulator far
/// from overflow.
pub fn sum_words_range(buf: &Buffer, start: usize, end: usize) -> (r: u64)
    requires
        start <= end,
        end <= buf@.len(),
        end - start <= 0x10000000,
    ensures
        r == words_sum(buf@.subrange(start as int, end as int)),
        r <= (end - start) * 0x10000,
{
    let mut acc: u64 = 0;
    let mut i: usize = start;
    while end - i > 1
        invariant
            start <= i <= end,
            end <= buf@.len(),
            end - start <= 0x10000000,
            (i - start) % 2 == 0,
            acc == words_sum(buf@.subrange(start as int, i as int)),
            acc <= (i - start) * 0x10000,
        decreases end - i,
    {
        let w = (buf.byte(i) as u64) * 0x100 + (buf.byte(i + 1) as u64);
        proof {
            assert(buf@.subrange(start as int, i + 2) =~= buf@.subrange(
                start as int,
                i as int,
            ).push(buf@[i as int]).push(buf@[i + 1]));
            lemma_words_sum_append2(
                buf@.subrange(start as int, i as int),
                buf@[i as int],
                buf@[i + 1],
            );
        }
        acc = acc + w;
        i = i + 2;
    }
    if i < end {
        let w = (buf.byte(i) as u64) * 0x100;
        proof {
            assert(buf@.subrange(start as int, i + 1) =~= buf@.subrange(
                start as int,
                i as int,
            ).push(buf@[i as int]));
            lemma_words_sum_append1(buf@.subrange(start as int, i as int), buf@[i as int]);
        }
        acc = acc + w;
    }
    acc
}

/// Folds the end-around carries of a word sum and compares the result
/// with the all-ones word, as ones'-complement verification does.  The
/// comparison succeeds exactly when the sum is a positive multiple of
/// 0xFFFF, which is the mathematical content of "the checksum over the
/// pseudo-header and the whole message, wire checksum included, passes".
pub fn ones_complement_all_ones(sum: u64) -> (r: bool)
    ensures
        r == (sum % 0xFFFF == 0 && sum > 0),
{
    let mut acc: u64 = sum;
    while acc > 0xFFFF
        invariant
            acc as int % 0xFFFF == sum as int % 0xFFFF,
            (acc > 0) == (sum > 0),
        decreases acc,
    {
        let hi = acc >> 16u64;
        let lo = acc & 0xFFFF;
        proof {
            assert(acc == hi * 0x10000 + lo && lo <= 0xFFFF && hi >= 1) by (bit_vector)
                requires
                    hi == acc >> 16u64,
                    lo == acc & 0xFFFF,
                    acc > 0xFFFF,
            ;
            lemma_mod_multiples_vanish(hi as int, hi as int + lo as int, 0xFFFF);
            assert(acc as int == 0xFFFF * (hi as int) + (hi as int + lo as int));
        }
        acc = hi + lo;
    }
    proof {
        if acc < 0xFFFF {
            lemma_small_mod(acc as nat, 0xFFFF);
        }
    }
    acc == 0xFFFF
}

} // verus!
