//! The one's-complement checksum of an ICMPv4 header.

use vstd::prelude::*;

verus! {

/// What the byte at index `i` adds to the sum of big-endian 16-bit words: it is
/// the high byte of its word where `i` is even, the low byte where `i` is odd.
pub open spec fn byte_weight(value: u8, i: int) -> nat {
    if i % 2 == 0 {
        value as nat * 0x100
    } else {
        value as nat
    }
}

/// Sum of `bytes` read as big-endian 16-bit words (a last odd byte is a high byte).
pub open spec fn word_sum(bytes: Seq<u8>) -> nat
    decreases bytes.len(),
{
    if bytes.len() == 0 {
        0
    } else {
        word_sum(bytes.drop_last()) + byte_weight(bytes.last(), bytes.len() - 1)
    }
}

/// Folds every carry past bit 16 back into the low 16 bits, until none is left.
pub open spec fn fold16(sum: nat) -> nat
    decreases sum,
{
    if sum < 0x1_0000 {
        sum
    } else {
        fold16(sum / 0x1_0000 + sum % 0x1_0000)
    }
}

/// The 16-bit one's-complement sum of `bytes`.
pub open spec fn spec_ones_complement_sum(bytes: Seq<u8>) -> nat {
    fold16(word_sum(bytes))
}

/// `header` with its checksum field (bytes 2 and 3) set to zero.
pub open spec fn zeroed_checksum(header: Seq<u8>) -> Seq<u8>
    recommends
        header.len() >= 4,
{
    header.update(2, 0u8).update(3, 0u8)
}

/// The checksum to transmit with `header`: the complement of the one's-complement
/// sum of the header, its checksum field taken as zero.
pub open spec fn checksum_of(header: Seq<u8>) -> u16
    recommends
        header.len() >= 4,
{
    (0xFFFF - spec_ones_complement_sum(zeroed_checksum(header))) as u16
}

/// `header` with its checksum written, big-endian, into bytes 2 and 3.
pub open spec fn with_checksum(header: Seq<u8>) -> Seq<u8>
    recommends
        header.len() >= 4,
{
    let c = checksum_of(header);
    header.update(2, (c / 0x100) as u8).update(3, (c % 0x100) as u8)
}

/// Folding leaves zero alone and takes every other sum to the one value in
/// `1..=0xFFFF` that differs from it by a multiple of `0xFFFF`.
pub proof fn lemma_fold16_closed_form(sum: nat)
    ensures
        fold16(sum) == (if sum == 0 {
            0
        } else {
            (sum - 1) % 0xFFFF + 1
        }),
        fold16(sum) <= 0xFFFF,
    decreases sum,
{
    if sum >= 0x1_0000 {
        lemma_fold16_closed_form(sum / 0x1_0000 + sum % 0x1_0000);
    }
}

/// Folding early does not change the folded sum.
pub proof fn lemma_fold16_add(sum: nat, more: nat)
    ensures
        fold16(fold16(sum) + more) == fold16(sum + more),
{
    lemma_fold16_closed_form(sum);
    lemma_fold16_closed_form(sum + more);
    lemma_fold16_closed_form(fold16(sum) + more);
    if sum > 0 {
        let folded = fold16(sum);
        assert(folded + more - 1 == more + (sum - 1) % 0xFFFF);
        vstd::arithmetic::div_mod::lemma_add_mod_noop_right(more as int, sum - 1, 0xFFFF);
        assert((folded + more - 1) % 0xFFFF == (sum + more - 1) % 0xFFFF);
    }
}

/// Replacing one byte changes the word sum by the difference of the two weights.
pub proof fn lemma_word_sum_update(bytes: Seq<u8>, i: int, value: u8)
    requires
        0 <= i < bytes.len(),
    ensures
        word_sum(bytes.update(i, value)) + byte_weight(bytes[i], i) == word_sum(bytes)
            + byte_weight(value, i),
    decreases bytes.len(),
{
    let updated = bytes.update(i, value);
    if i == bytes.len() - 1 {
        assert(updated.drop_last() =~= bytes.drop_last());
    } else {
        lemma_word_sum_update(bytes.drop_last(), i, value);
        assert(updated.drop_last() =~= bytes.drop_last().update(i, value));
    }
}

/// A header that carries its own checksum sums to `0xFFFF`.
pub proof fn lemma_checksum_validates(header: Seq<u8>)
    requires
        header.len() >= 4,
    ensures
        spec_ones_complement_sum(with_checksum(header)) == 0xFFFF,
{
    let zeroed = zeroed_checksum(header);
    let c = checksum_of(header);
    let hi = (c / 0x100) as u8;
    let lo = (c % 0x100) as u8;
    let base = word_sum(zeroed);
    lemma_fold16_closed_form(base);
    let half = zeroed.update(2, hi);
    lemma_word_sum_update(zeroed, 2, hi);
    lemma_word_sum_update(half, 3, lo);
    assert(half.update(3, lo) =~= with_checksum(header));
    assert(word_sum(with_checksum(header)) == base + c);
    lemma_fold16_closed_form(base + c as nat);
}

/// Computes the 16-bit one's-complement sum of `bytes`, read as big-endian
/// 16-bit words.
pub fn ones_complement_sum(bytes: &[u8]) -> (sum: u16)
    ensures
        sum == spec_ones_complement_sum(bytes@),
{
    let mut acc: u32 = 0;
    let mut i: usize = 0;
    while i < bytes.len()
        invariant
            i <= bytes@.len(),
            acc <= 0xFFFF,
            acc == fold16(word_sum(bytes@.take(i as int))),
        decreases bytes@.len() - i,
    {
        let byte: u32 = bytes[i] as u32;
        let weight: u32 = if i % 2 == 0 {
            byte * 0x100
        } else {
            byte
        };
        let ghost before = bytes@.take(i as int);
        let ghost after = bytes@.take(i + 1);
        let ghost unfolded = (acc + weight) as nat;
        proof {
            assert(after.drop_last() =~= before);
            assert(after.last() == bytes@[i as int]);
            assert(weight == byte_weight(bytes@[i as int], i as int));
            assert(word_sum(after) == word_sum(before) + weight);
            lemma_fold16_add(word_sum(before), weight as nat);
            assert(fold16(word_sum(after)) == fold16(unfolded));
            lemma_fold16_closed_form(unfolded);
        }
        acc = acc + weight;
        if acc > 0xFFFF {
            acc = acc / 0x1_0000 + acc % 0x1_0000;
        }
        assert(acc == fold16(unfolded));
        i = i + 1;
    }
    proof {
        assert(bytes@.take(i as int) =~= bytes@);
    }
    acc as u16
}

/// Computes the checksum of `header`, its bytes 2 and 3 taken as zero, and
/// writes it into those two bytes in network byte order.
pub fn populate_checksum(header: &mut [u8])
    requires
        old(header)@.len() >= 4,
    ensures
        final(header)@ == with_checksum(old(header)@),
        spec_ones_complement_sum(final(header)@) == 0xFFFF,
{
    header[2] = 0;
    header[3] = 0;
    let sum: u16 = ones_complement_sum(header);
    let checksum: u16 = 0xFFFF - sum;
    header[2] = (checksum / 0x100) as u8;
    header[3] = (checksum % 0x100) as u8;
    proof {
        lemma_fold16_closed_form(word_sum(zeroed_checksum(old(header)@)));
        assert(header@ =~= with_checksum(old(header)@));
        lemma_checksum_validates(old(header)@);
    }
}

} // verus!
