//! CRC-32c, the checksum a transfer may carry.

use vstd::prelude::*;

verus! {

/// The Castagnoli polynomial, lowest power in the highest bit.
pub const POLYNOMIAL: u32 = 0x82F6_3B78;

/// The register after one bit is shifted out of it.
pub open spec fn crc_bit(register: u32) -> u32 {
    if register & 1 == 1 {
        (register >> 1) ^ POLYNOMIAL
    } else {
        register >> 1
    }
}

/// The register after `count` bits are shifted out of it.
pub open spec fn crc_bits(register: u32, count: nat) -> u32
    decreases count,
{
    if count == 0 {
        register
    } else {
        crc_bit(crc_bits(register, (count - 1) as nat))
    }
}

/// The register after `bytes` are fed in, first byte first.
pub open spec fn crc_bytes(register: u32, bytes: Seq<u8>) -> u32
    decreases bytes.len(),
{
    if bytes.len() == 0 {
        register
    } else {
        crc_bits(crc_bytes(register, bytes.drop_last()) ^ (bytes.last() as u32), 8)
    }
}

/// The CRC-32c of a byte string.
pub open spec fn crc32c(bytes: Seq<u8>) -> u32 {
    !crc_bytes(0xFFFF_FFFF, bytes)
}

/// CRC-32c of `bytes`.
pub fn checksum(bytes: &[u8]) -> (crc: u32)
    ensures
        crc == crc32c(bytes@),
        forall|i: int| 0 <= i < 32 ==> #[trigger] bit(crc, i) == !remainder(dividend(bytes@))[i],
{
    let mut register: u32 = 0xFFFF_FFFF;
    let mut at: usize = 0;
    assert(bytes@.take(0).len() == 0);
    while at < bytes.len()
        invariant
            at <= bytes.len(),
            register == crc_bytes(0xFFFF_FFFF, bytes@.take(at as int)),
        decreases bytes.len() - at,
    {
        let ghost before = register;
        register = register ^ (bytes[at] as u32);
        let ghost fed = register;
        let mut bit: u8 = 0;
        while bit < 8
            invariant
                bit <= 8,
                register == crc_bits(fed, bit as nat),
            decreases 8 - bit,
        {
            register = if register & 1 == 1 {
                (register >> 1) ^ POLYNOMIAL
            } else {
                register >> 1
            };
            bit = bit + 1;
        }
        proof {
            let longer = bytes@.take(at + 1);
            assert(longer.drop_last() =~= bytes@.take(at as int));
            assert(longer.last() == bytes@[at as int]);
        }
        at = at + 1;
    }
    assert(bytes@.take(at as int) =~= bytes@);
    let crc: u32 = !register;
    proof {
        crc32c_is_the_castagnoli_remainder(bytes@);
        assert(crc == crc32c(bytes@));
    }
    crc
}

// ---------------------------------------------------------------------------
// What the checksum is
// ---------------------------------------------------------------------------

/// The powers with a coefficient in the Castagnoli polynomial.
pub open spec fn castagnoli(power: int) -> bool {
    power == 32 || power == 28 || power == 27 || power == 26 || power == 25 || power == 23 || power
        == 22 || power == 20 || power == 19 || power == 18 || power == 14 || power == 13 || power
        == 11 || power == 10 || power == 9 || power == 8 || power == 6 || power == 0
}

/// A bit of a word, the lowest being bit 0.
pub open spec fn bit(word: u32, index: int) -> bool {
    (word >> (index as u32)) & 1 == 1
}

/// A polynomial over two elements with its highest power taken out: where that power has
/// a coefficient, the Castagnoli polynomial is subtracted, lined up with it.
pub open spec fn cancel_highest(polynomial: Seq<bool>) -> Seq<bool> {
    Seq::new(
        (polynomial.len() - 1) as nat,
        |i: int| polynomial[i + 1] != (polynomial[0] && i < 32 && castagnoli(31 - i)),
    )
}

/// The remainder of a polynomial, its highest power first, by the Castagnoli polynomial.
pub open spec fn remainder(polynomial: Seq<bool>) -> Seq<bool>
    decreases polynomial.len(),
{
    if polynomial.len() <= 32 {
        polynomial
    } else {
        remainder(cancel_highest(polynomial))
    }
}

/// The polynomial that CRC-32c divides: the bits of the bytes in order, the lowest bit of
/// each byte first, then 32 zeros, with the first 32 of all these turned over.
pub open spec fn dividend(bytes: Seq<u8>) -> Seq<bool> {
    Seq::new(
        8 * bytes.len() + 32,
        |i: int| (i < 8 * bytes.len() && bit(bytes[i / 8] as u32, i % 8)) != (i < 32),
    )
}

/// The bits of a register laid over the front of a polynomial.
spec fn overlay(register: u32, rest: Seq<bool>) -> Seq<bool> {
    Seq::new(rest.len(), |i: int| rest[i] != (i < 32 && bit(register, i)))
}

/// The lowest `count` bits of a word, lowest first.
spec fn low_bits(word: u32, count: nat) -> Seq<bool> {
    Seq::new(count, |i: int| bit(word, i))
}

/// The bits of a byte string.
spec fn bits_of(bytes: Seq<u8>) -> Seq<bool> {
    Seq::new(8 * bytes.len(), |i: int| bit(bytes[i / 8] as u32, i % 8))
}

proof fn lemma_polynomial(index: u32)
    requires
        index < 32,
    ensures
        bit(POLYNOMIAL, index as int) == castagnoli(31 - index),
{
    assert((0x82F6_3B78u32 >> index) & 1 == 1 <==> (index == 3 || index == 4 || index == 5 || index
        == 6 || index == 8 || index == 9 || index == 11 || index == 12 || index == 13 || index == 17
        || index == 18 || index == 20 || index == 21 || index == 22 || index == 23 || index == 25
        || index == 31)) by (bit_vector)
        requires
            index < 32,
    ;
}

proof fn lemma_crc_bit(register: u32, index: u32)
    requires
        index < 32,
    ensures
        bit(crc_bit(register), index as int) == ((index < 31 && bit(register, index + 1)) != (bit(
            register,
            0,
        ) && castagnoli(31 - index))),
{
    lemma_polynomial(index);
    let polynomial = POLYNOMIAL;
    assert(register >> 0u32 == register) by (bit_vector);
    assert(((register >> 1u32) >> index) & 1 == 1 <==> (index < 31 && (register >> ((index + 1) as u32)) & 1
        == 1)) by (bit_vector)
        requires
            index < 32,
    ;
    assert((((register >> 1u32) ^ polynomial) >> index) & 1 == 1 <==> ((((register >> 1u32)
        >> index) & 1 == 1) != ((polynomial >> index) & 1 == 1))) by (bit_vector)
        requires
            index < 32,
    ;
}

proof fn lemma_feed_bit(register: u32, fed: bool, rest: Seq<bool>)
    requires
        rest.len() >= 32,
    ensures
        remainder(overlay(register, seq![fed] + rest)) == remainder(
            overlay(
                crc_bit(
                    register ^ if fed {
                        1u32
                    } else {
                        0u32
                    },
                ),
                rest,
            ),
        ),
{
    let low: u32 = if fed {
        1
    } else {
        0
    };
    let before = overlay(register, seq![fed] + rest);
    let after = overlay(crc_bit(register ^ low), rest);
    assert forall|i: int| 0 <= i < rest.len() implies cancel_highest(before)[i] == after[i] by {
        assert((seq![fed] + rest)[i + 1] == rest[i]);
        assert(register >> 0u32 == register) by (bit_vector);
        assert((register ^ low) >> 0u32 == (register ^ low)) by (bit_vector);
        assert((register ^ low) & 1 == 1 <==> ((register & 1 == 1) != (low == 1))) by (bit_vector)
            requires
                low == 0 || low == 1,
        ;
        assert(before[0] == bit(register ^ low, 0));
        if i < 32 {
            let index = i as u32;
            lemma_crc_bit(register ^ low, index);
            if i < 31 {
                assert(((register ^ low) >> ((index + 1) as u32)) == (register >> ((index + 1) as u32)))
                    by (bit_vector)
                    requires
                        index < 31,
                        low == 0 || low == 1,
                ;
            }
        }
    }
    assert(cancel_highest(before) =~= after);
}

proof fn lemma_crc_bits_first(register: u32, count: nat)
    requires
        count > 0,
    ensures
        crc_bits(register, count) == crc_bits(crc_bit(register), (count - 1) as nat),
    decreases count,
{
    if count > 1 {
        lemma_crc_bits_first(register, (count - 1) as nat);
    } else {
        assert(crc_bits(register, 0) == register);
        assert(crc_bits(crc_bit(register), 0) == crc_bit(register));
    }
}

proof fn lemma_crc_bit_linear(register: u32, word: u32)
    ensures
        crc_bit(register ^ word) == crc_bit(register ^ (word & 1)) ^ (word >> 1u32),
{
    let polynomial = POLYNOMIAL;
    assert(((register ^ word) & 1) == ((register ^ (word & 1)) & 1)) by (bit_vector);
    assert((register ^ word) >> 1u32 == ((register ^ (word & 1)) >> 1u32) ^ (word >> 1u32))
        by (bit_vector);
    assert(((register ^ word) >> 1u32) ^ polynomial == (((register ^ (word & 1)) >> 1u32)
        ^ polynomial) ^ (word >> 1u32)) by (bit_vector);
}

proof fn lemma_feed_bits(register: u32, word: u32, count: u32, rest: Seq<bool>)
    requires
        count <= 8,
        word >> count == 0,
        rest.len() >= 32,
    ensures
        remainder(overlay(register, low_bits(word, count as nat) + rest)) == remainder(
            overlay(crc_bits(register ^ word, count as nat), rest),
        ),
    decreases count,
{
    if count == 0 {
        assert(word >> 0u32 == word) by (bit_vector);
        assert(register ^ 0u32 == register) by (bit_vector);
        assert(low_bits(word, 0) + rest =~= rest);
    } else {
        let fewer: u32 = (count - 1) as u32;
        let high = word >> 1u32;
        let fed = word & 1 == 1;
        assert(word & 1 == 0 || word & 1 == 1) by (bit_vector);
        assert(word >> 0u32 == word) by (bit_vector);
        assert((word >> 1u32) >> fewer == 0) by (bit_vector)
            requires
                word >> count == 0,
                count == fewer + 1,
                count <= 8,
        ;
        assert forall|i: int| 0 <= i < fewer implies low_bits(word, count as nat)[i + 1]
            == low_bits(high, fewer as nat)[i] by {
            let index = i as u32;
            assert((word >> 1u32) >> index == word >> ((index + 1) as u32)) by (bit_vector)
                requires
                    index < 8,
            ;
        }
        assert(low_bits(word, count as nat) + rest =~= seq![fed] + (low_bits(high, fewer as nat)
            + rest));
        lemma_feed_bit(register, fed, low_bits(high, fewer as nat) + rest);
        let next = crc_bit(register ^ (word & 1));
        lemma_feed_bits(next, high, fewer, rest);
        lemma_crc_bit_linear(register, word);
        lemma_crc_bits_first(register ^ word, count as nat);
    }
}

proof fn lemma_feed_bytes(register: u32, bytes: Seq<u8>, rest: Seq<bool>)
    requires
        rest.len() >= 32,
    ensures
        remainder(overlay(register, bits_of(bytes) + rest)) == remainder(
            overlay(crc_bytes(register, bytes), rest),
        ),
    decreases bytes.len(),
{
    if bytes.len() == 0 {
        assert(bits_of(bytes) + rest =~= rest);
    } else {
        let earlier = bytes.drop_last();
        let last = bytes.last() as u32;
        let longer = low_bits(last, 8) + rest;
        assert(bits_of(bytes) + rest =~= bits_of(earlier) + longer) by {
            assert forall|i: int| 0 <= i < 8 * bytes.len() implies (bits_of(bytes) + rest)[i] == (
            bits_of(earlier) + longer)[i] by {
                if i < 8 * earlier.len() {
                    assert(bytes[i / 8] == earlier[i / 8]);
                } else {
                    assert(i / 8 == earlier.len() && i % 8 == i - 8 * earlier.len());
                }
            }
        }
        lemma_feed_bytes(register, earlier, longer);
        let byte = bytes.last();
        assert((byte as u32) >> 8u32 == 0) by (bit_vector);
        lemma_feed_bits(crc_bytes(register, earlier), last, 8, rest);
    }
}

/// The checksum is what CRC-32c is defined to be: bit by bit, the complement of the
/// remainder that long division by the Castagnoli polynomial leaves of the message, with
/// every bit of every byte counted.
pub proof fn crc32c_is_the_castagnoli_remainder(bytes: Seq<u8>)
    ensures
        remainder(dividend(bytes)).len() == 32,
        forall|i: int|
            0 <= i < 32 ==> #[trigger] bit(crc32c(bytes), i) == !remainder(dividend(bytes))[i],
{
    let zeros = Seq::new(32, |i: int| false);
    let ones: u32 = 0xFFFF_FFFF;
    assert forall|i: int| 0 <= i < dividend(bytes).len() implies dividend(bytes)[i] == overlay(
        ones,
        bits_of(bytes) + zeros,
    )[i] by {
        if i < 32 {
            let index = i as u32;
            assert((0xFFFF_FFFFu32 >> index) & 1 == 1) by (bit_vector)
                requires
                    index < 32,
            ;
        }
    }
    assert(dividend(bytes) =~= overlay(ones, bits_of(bytes) + zeros));
    lemma_feed_bytes(ones, bytes, zeros);
    let register = crc_bytes(ones, bytes);
    assert forall|i: int| 0 <= i < 32 implies #[trigger] bit(crc32c(bytes), i) == !remainder(
        dividend(bytes),
    )[i] by {
        let index = i as u32;
        assert((!register >> index) & 1 == 1 <==> !((register >> index) & 1 == 1)) by (bit_vector)
            requires
                index < 32,
        ;
        assert(overlay(register, zeros)[i] == bit(register, i));
    }
}

proof fn lemma_crc_bits_distinct(left: u32, right: u32, count: nat)
    requires
        left != right,
    ensures
        crc_bits(left, count) != crc_bits(right, count),
    decreases count,
{
    if count > 0 {
        let fewer = (count - 1) as nat;
        lemma_crc_bits_distinct(left, right, fewer);
        let a = crc_bits(left, fewer);
        let b = crc_bits(right, fewer);
        assert((if a & 1 == 1 {
            (a >> 1u32) ^ 0x82F6_3B78u32
        } else {
            a >> 1u32
        }) != (if b & 1 == 1 {
            (b >> 1u32) ^ 0x82F6_3B78u32
        } else {
            b >> 1u32
        })) by (bit_vector)
            requires
                a != b,
        ;
    }
}

proof fn lemma_crc_bytes_distinct(register: u32, left: Seq<u8>, right: Seq<u8>, at: int)
    requires
        left.len() == right.len(),
        0 <= at < left.len(),
        left[at] != right[at],
        forall|i: int| 0 <= i < left.len() && i != at ==> left[i] == right[i],
    ensures
        crc_bytes(register, left) != crc_bytes(register, right),
    decreases left.len(),
{
    let a = crc_bytes(register, left.drop_last());
    let b = crc_bytes(register, right.drop_last());
    let x = left.last();
    let y = right.last();
    if at == left.len() - 1 {
        assert(left.drop_last() =~= right.drop_last());
        assert(a ^ (x as u32) != a ^ (y as u32)) by (bit_vector)
            requires
                x != y,
        ;
    } else {
        lemma_crc_bytes_distinct(register, left.drop_last(), right.drop_last(), at);
        assert(a ^ (x as u32) != b ^ (x as u32)) by (bit_vector)
            requires
                a != b,
        ;
    }
    lemma_crc_bits_distinct(a ^ (x as u32), b ^ (y as u32), 8);
}

/// A byte that was changed is always noticed: byte strings that differ in just one byte,
/// whichever it is and whatever its two values, have different checksums.
pub proof fn a_changed_byte_changes_the_checksum(bytes: Seq<u8>, at: int, changed: u8)
    requires
        0 <= at < bytes.len(),
        changed != bytes[at],
    ensures
        crc32c(bytes.update(at, changed)) != crc32c(bytes),
{
    let other = bytes.update(at, changed);
    lemma_crc_bytes_distinct(0xFFFF_FFFF, bytes, other, at);
    let a = crc_bytes(0xFFFF_FFFF, bytes);
    let b = crc_bytes(0xFFFF_FFFF, other);
    assert(!a != !b) by (bit_vector)
        requires
            a != b,
    ;
}

} // verus!
