use vstd::prelude::*;

verus! {

/// Bit `offset` of `byte`, counted from the least significant one.
pub open spec fn bit_of(byte: u8, offset: u8) -> bool {
    (byte >> offset) & 1u8 == 1u8
}

/// Reads bit `offset` of `byte`.
pub fn read_bit(byte: u8, offset: usize) -> (r: bool)
    requires
        offset < 8,
    ensures
        r == bit_of(byte, offset as u8),
{
    let o = offset as u8;
    (byte >> o) & 1u8 == 1u8
}

/// `byte` with bit `offset` set to `value` and every other bit kept.
pub fn write_bit(byte: u8, offset: usize, value: bool) -> (r: u8)
    requires
        offset < 8,
    ensures
        forall|i: u8| #![trigger bit_of(r, i)]
            i < 8 ==> bit_of(r, i) == if i == offset as u8 {
                value
            } else {
                bit_of(byte, i)
            },
{
    let o = offset as u8;
    let mask: u8 = 1u8 << o;
    let r = if value {
        byte | mask
    } else {
        byte & !mask
    };
    assert forall|i: u8| #![trigger bit_of(r, i)]
        i < 8 implies bit_of(r, i) == if i == o {
            value
        } else {
            bit_of(byte, i)
        } by {
        if value {
            assert(o < 8 && i < 8 && mask == 1u8 << o ==> (((byte | mask) >> i) & 1u8 == 1u8) == if i
                == o {
                true
            } else {
                (byte >> i) & 1u8 == 1u8
            }) by (bit_vector);
        } else {
            assert(o < 8 && i < 8 && mask == 1u8 << o ==> (((byte & !mask) >> i) & 1u8 == 1u8) == if i
                == o {
                false
            } else {
                (byte >> i) & 1u8 == 1u8
            }) by (bit_vector);
        }
    }
    r
}

/// Two bytes with the same eight bits are equal.
pub proof fn lemma_bits_determine_byte(a: u8, b: u8)
    requires
        forall|i: u8| #![trigger bit_of(a, i)] i < 8 ==> bit_of(a, i) == bit_of(b, i),
    ensures
        a == b,
{
    assert(bit_of(a, 0) == bit_of(b, 0));
    assert(bit_of(a, 1) == bit_of(b, 1));
    assert(bit_of(a, 2) == bit_of(b, 2));
    assert(bit_of(a, 3) == bit_of(b, 3));
    assert(bit_of(a, 4) == bit_of(b, 4));
    assert(bit_of(a, 5) == bit_of(b, 5));
    assert(bit_of(a, 6) == bit_of(b, 6));
    assert(bit_of(a, 7) == bit_of(b, 7));
    assert(
        (((a >> 0u8) & 1u8 == 1u8) == ((b >> 0u8) & 1u8 == 1u8)) &&
        (((a >> 1u8) & 1u8 == 1u8) == ((b >> 1u8) & 1u8 == 1u8)) &&
        (((a >> 2u8) & 1u8 == 1u8) == ((b >> 2u8) & 1u8 == 1u8)) &&
        (((a >> 3u8) & 1u8 == 1u8) == ((b >> 3u8) & 1u8 == 1u8)) &&
        (((a >> 4u8) & 1u8 == 1u8) == ((b >> 4u8) & 1u8 == 1u8)) &&
        (((a >> 5u8) & 1u8 == 1u8) == ((b >> 5u8) & 1u8 == 1u8)) &&
        (((a >> 6u8) & 1u8 == 1u8) == ((b >> 6u8) & 1u8 == 1u8)) &&
        (((a >> 7u8) & 1u8 == 1u8) == ((b >> 7u8) & 1u8 == 1u8))
        ==> a == b) by (bit_vector);
}

/// Bit `i` of `byte & mask` is set when it is set in both.
pub proof fn lemma_bit_of_and(byte: u8, mask: u8, i: u8)
    requires
        i < 8,
    ensures
        bit_of(byte & mask, i) == (bit_of(byte, i) && bit_of(mask, i)),
{
    assert(i < 8 ==> (((byte & mask) >> i) & 1u8 == 1u8) == (((byte >> i) & 1u8 == 1u8) && ((mask
        >> i) & 1u8 == 1u8))) by (bit_vector);
}

} // verus!
