//! Packing eight pin bits into a register byte and back, bit `i` of the
//! byte standing for the `i`-th bit given.

use crate::common::AB;
use vstd::prelude::*;

verus! {

/// What a bit adds to a byte where it stands for `weight`.
pub open spec fn bit_value(bit: bool, weight: int) -> int {
    if bit {
        weight
    } else {
        0
    }
}

/// The byte whose bit `i` is `bits[i]`, for eight bits.
pub open spec fn byte_of_bits(bits: Seq<bool>) -> int {
    bit_value(bits[0], 1) + bit_value(bits[1], 2) + bit_value(bits[2], 4) + bit_value(bits[3], 8)
        + bit_value(bits[4], 16) + bit_value(bits[5], 32) + bit_value(bits[6], 64) + bit_value(
        bits[7],
        128,
    )
}

/// Bit `i` of a byte, for `i` from 0 to 7.
pub open spec fn bit_of_byte(byte: u8, i: int) -> bool {
    if i == 0 {
        byte % 2 == 1
    } else if i == 1 {
        (byte / 2) % 2 == 1
    } else if i == 2 {
        (byte / 4) % 2 == 1
    } else if i == 3 {
        (byte / 8) % 2 == 1
    } else if i == 4 {
        (byte / 16) % 2 == 1
    } else if i == 5 {
        (byte / 32) % 2 == 1
    } else if i == 6 {
        (byte / 64) % 2 == 1
    } else {
        (byte / 128) % 2 == 1
    }
}

/// The eight bits of a byte, bit 0 first.
pub open spec fn bits_of_byte(byte: u8) -> Seq<bool> {
    Seq::new(8, |i: int| bit_of_byte(byte, i))
}

/// The eight bits that a bank has in sixteen pin bits.
pub open spec fn bank_bits(bits: Seq<bool>, ab: AB) -> Seq<bool> {
    bits.subrange(8 * ab.index(), 8 * ab.index() + 8)
}

/// Sixteen pin bits with those of one bank replaced by the bits of a byte.
pub open spec fn with_bank_byte(bits: Seq<bool>, ab: AB, byte: u8) -> Seq<bool> {
    Seq::new(
        16,
        |i: int|
            if 8 * ab.index() <= i < 8 * ab.index() + 8 {
                bit_of_byte(byte, i - 8 * ab.index())
            } else {
                bits[i]
            },
    )
}

/// Whether any of a bank's eight bits is set.
pub open spec fn any_in_bank(bits: Seq<bool>, ab: AB) -> bool {
    let first = 8 * ab.index();
    bits[first] || bits[first + 1] || bits[first + 2] || bits[first + 3] || bits[first + 4]
        || bits[first + 5] || bits[first + 6] || bits[first + 7]
}

/// A value that is made from `BIT_LEN` bits, the lowest first.
pub trait FromBits<const BIT_LEN: usize>: Sized {
    /// The value that the bits make.
    spec fn of_bits(bits: Seq<bool>) -> Self;

    fn from_bits_le(bits: [bool; BIT_LEN]) -> (value: Self)
        ensures
            value == Self::of_bits(bits@),
    ;
}

impl FromBits<8> for u8 {
    open spec fn of_bits(bits: Seq<bool>) -> u8 {
        byte_of_bits(bits) as u8
    }

    fn from_bits_le(bits: [bool; 8]) -> (value: u8)
        ensures
            value == byte_of_bits(bits@),
    {
        let mut value: u8 = 0;
        if bits[0] {
            value = value + 1;
        }
        if bits[1] {
            value = value + 2;
        }
        if bits[2] {
            value = value + 4;
        }
        if bits[3] {
            value = value + 8;
        }
        if bits[4] {
            value = value + 16;
        }
        if bits[5] {
            value = value + 32;
        }
        if bits[6] {
            value = value + 64;
        }
        if bits[7] {
            value = value + 128;
        }
        value
    }
}

/// A value that is taken apart into `BIT_LEN` bits, the lowest first.
pub trait IntoBits<const BIT_LEN: usize>: Sized {
    /// The bits of the value.
    spec fn bits(self) -> Seq<bool>;

    fn into_bits_le(self) -> (bits: [bool; BIT_LEN])
        ensures
            bits@ == self.bits(),
    ;
}

impl IntoBits<8> for u8 {
    open spec fn bits(self) -> Seq<bool> {
        bits_of_byte(self)
    }

    fn into_bits_le(self) -> (bits: [bool; 8]) {
        let bits = [
            self % 2 == 1,
            (self / 2) % 2 == 1,
            (self / 4) % 2 == 1,
            (self / 8) % 2 == 1,
            (self / 16) % 2 == 1,
            (self / 32) % 2 == 1,
            (self / 64) % 2 == 1,
            (self / 128) % 2 == 1,
        ];
        assert(bits@ =~= bits_of_byte(self));
        bits
    }
}

proof fn lemma_byte_is_sum_of_digits(b: u8)
    by (bit_vector)
    ensures
        b == (b % 2) + 2 * ((b / 2) % 2) + 4 * ((b / 4) % 2) + 8 * ((b / 8) % 2) + 16 * ((b / 16)
            % 2) + 32 * ((b / 32) % 2) + 64 * ((b / 64) % 2) + 128 * ((b / 128) % 2),
{
}

proof fn lemma_digits_of_sum(c0: u8, c1: u8, c2: u8, c3: u8, c4: u8, c5: u8, c6: u8, c7: u8)
    by (bit_vector)
    requires
        c0 <= 1,
        c1 <= 1,
        c2 <= 1,
        c3 <= 1,
        c4 <= 1,
        c5 <= 1,
        c6 <= 1,
        c7 <= 1,
    ensures
        ({
            let v = c0 + 2 * c1 + 4 * c2 + 8 * c3 + 16 * c4 + 32 * c5 + 64 * c6 + 128 * c7;
            &&& v < 256
            &&& v % 2 == c0
            &&& (v / 2) % 2 == c1
            &&& (v / 4) % 2 == c2
            &&& (v / 8) % 2 == c3
            &&& (v / 16) % 2 == c4
            &&& (v / 32) % 2 == c5
            &&& (v / 64) % 2 == c6
            &&& (v / 128) % 2 == c7
        }),
{
}

/// Packing is total and loses nothing: the bits of a byte make that byte,
/// and the byte made of eight bits has those bits.
pub proof fn lemma_bits_round_trip(byte: u8, bits: Seq<bool>)
    requires
        bits.len() == 8,
    ensures
        byte_of_bits(bits_of_byte(byte)) == byte,
        0 <= byte_of_bits(bits) < 256,
        bits_of_byte(byte_of_bits(bits) as u8) == bits,
{
    lemma_byte_is_sum_of_digits(byte);
    let c = |i: int| -> u8 {
        if bits[i] {
            1u8
        } else {
            0u8
        }
    };
    lemma_digits_of_sum(c(0), c(1), c(2), c(3), c(4), c(5), c(6), c(7));
    assert(bits_of_byte(byte_of_bits(bits) as u8) =~= bits);
}

/// The byte that a bank's eight bits make.
pub fn pack_bank(values: &[bool; 16], ab: AB) -> (byte: u8)
    ensures
        byte == byte_of_bits(bank_bits(values@, ab)),
{
    let start = ab.starting_index();
    u8::from_bits_le(
        [
            values[start],
            values[start + 1],
            values[start + 2],
            values[start + 3],
            values[start + 4],
            values[start + 5],
            values[start + 6],
            values[start + 7],
        ],
    )
}

/// Replaces a bank's eight bits by the bits of a byte.
pub fn unpack_bank(values: &mut [bool; 16], ab: AB, byte: u8)
    ensures
        final(values)@ == with_bank_byte(old(values)@, ab, byte),
{
    let start = ab.starting_index();
    let bits = byte.into_bits_le();
    let mut i: usize = 0;
    while i < 8
        invariant
            i <= 8,
            start == 8 * ab.index(),
            bits@ == bits_of_byte(byte),
            forall|k: int|
                0 <= k < 16 && !(start <= k < start + i) ==> #[trigger] values@[k] == old(
                    values,
                )@[k],
            forall|k: int|
                start <= k < start + i ==> #[trigger] values@[k] == bit_of_byte(byte, k - start),
        decreases 8 - i,
    {
        values[start + i] = bits[i];
        i += 1;
    }
    assert(values@ =~= with_bank_byte(old(values)@, ab, byte));
}

/// Tells whether any of a bank's eight bits is set.
pub fn bank_has_any(values: &[bool; 16], ab: AB) -> (any: bool)
    ensures
        any == any_in_bank(values@, ab),
{
    let first = ab.starting_index();
    values[first] || values[first + 1] || values[first + 2] || values[first + 3] || values[first
        + 4] || values[first + 5] || values[first + 6] || values[first + 7]
}

/// Two banks of bits are the same exactly when they pack to the same byte.
pub proof fn lemma_pack_is_injective(first: Seq<bool>, second: Seq<bool>)
    requires
        first.len() == 8,
        second.len() == 8,
    ensures
        first == second <==> byte_of_bits(first) == byte_of_bits(second),
{
    lemma_bits_round_trip(0, first);
    lemma_bits_round_trip(0, second);
}

} // verus!
