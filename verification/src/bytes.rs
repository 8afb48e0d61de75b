//! The 32 bytes of an address or a symbol as two big-endian integers.

use vstd::prelude::*;

verus! {

/// The number that bytes spell, most significant byte first.
pub open spec fn big_endian(bytes: Seq<u8>) -> nat
    decreases bytes.len(),
{
    if bytes.len() == 0 {
        0
    } else {
        big_endian(bytes.drop_last()) * 256 + bytes.last() as nat
    }
}

/// The number that the first half of 32 bytes spells.
pub open spec fn high_half(bytes: Seq<u8>) -> u128 {
    big_endian(bytes.subrange(0, 16)) as u128
}

/// The number that the second half of 32 bytes spells.
pub open spec fn low_half(bytes: Seq<u8>) -> u128 {
    big_endian(bytes.subrange(16, 32)) as u128
}

/// 256 to a power.
spec fn power_of_256(exponent: nat) -> nat
    decreases exponent,
{
    if exponent == 0 {
        1
    } else {
        power_of_256((exponent - 1) as nat) * 256
    }
}

/// Bytes spell a number below 256 to the power of their count.
proof fn lemma_big_endian_bound(bytes: Seq<u8>)
    ensures
        big_endian(bytes) < power_of_256(bytes.len()),
    decreases bytes.len(),
{
    if bytes.len() > 0 {
        lemma_big_endian_bound(bytes.drop_last());
    }
}

/// Sixteen bytes, or fewer, spell a number that fits an `u128`.
pub proof fn lemma_sixteen_bytes_fit(bytes: Seq<u8>)
    requires
        bytes.len() <= 16,
    ensures
        big_endian(bytes) <= u128::MAX,
    decreases 16 - bytes.len(),
{
    if bytes.len() == 16 {
        lemma_big_endian_bound(bytes);
        assert(power_of_256(16) == 0x1_0000_0000_0000_0000_0000_0000_0000_0000) by {
            reveal_with_fuel(power_of_256, 17);
        }
    } else {
        let longer = bytes.push(0);
        assert(longer.drop_last() =~= bytes);
        lemma_sixteen_bytes_fit(longer);
    }
}

/// Byte strings of one length that spell the same number are the same.
proof fn lemma_big_endian_injective(first: Seq<u8>, second: Seq<u8>)
    requires
        first.len() == second.len(),
        big_endian(first) == big_endian(second),
    ensures
        first == second,
    decreases first.len(),
{
    if first.len() > 0 {
        lemma_big_endian_injective(first.drop_last(), second.drop_last());
        assert(first =~= first.drop_last().push(first.last()));
        assert(second =~= second.drop_last().push(second.last()));
    } else {
        assert(first =~= second);
    }
}

/// 32 bytes with the same halves are the same.
pub proof fn lemma_halves_injective(first: Seq<u8>, second: Seq<u8>)
    requires
        first.len() == 32,
        second.len() == 32,
        high_half(first) == high_half(second),
        low_half(first) == low_half(second),
    ensures
        first == second,
{
    lemma_sixteen_bytes_fit(first.subrange(0, 16));
    lemma_sixteen_bytes_fit(first.subrange(16, 32));
    lemma_sixteen_bytes_fit(second.subrange(0, 16));
    lemma_sixteen_bytes_fit(second.subrange(16, 32));
    lemma_big_endian_injective(first.subrange(0, 16), second.subrange(0, 16));
    lemma_big_endian_injective(first.subrange(16, 32), second.subrange(16, 32));
    assert(first =~= first.subrange(0, 16) + first.subrange(16, 32));
    assert(second =~= second.subrange(0, 16) + second.subrange(16, 32));
}

/// The number that sixteen of 32 bytes spell.
fn half(bytes: &[u8; 32], start: usize) -> (value: u128)
    requires
        start <= 16,
    ensures
        value == big_endian(bytes@.subrange(start as int, start + 16)),
{
    let mut value: u128 = 0;
    let mut count: usize = 0;
    assert(big_endian(bytes@.subrange(start as int, start as int)) == 0);
    while count < 16
        invariant
            start <= 16,
            count <= 16,
            value == big_endian(bytes@.subrange(start as int, start + count)),
        decreases 16 - count,
    {
        proof {
            let longer = bytes@.subrange(start as int, start + count + 1);
            assert(longer.drop_last() =~= bytes@.subrange(start as int, start + count));
            lemma_sixteen_bytes_fit(longer);
        }
        value = value * 256 + bytes[start + count] as u128;
        count = count + 1;
    }
    value
}

/// The two halves of 32 bytes, as the numbers that they spell.
pub fn halves(bytes: &[u8; 32]) -> (numbers: (u128, u128))
    ensures
        numbers == (high_half(bytes@), low_half(bytes@)),
{
    (half(bytes, 0), half(bytes, 16))
}

} // verus!
