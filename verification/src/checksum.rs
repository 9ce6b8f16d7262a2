//! The FIX body checksum datatype.

use vstd::prelude::*;
use vstd::arithmetic::div_mod::{
    lemma_add_mod_noop, lemma_div_denominator, lemma_fundamental_div_mod, lemma_mul_mod_noop_left,
    lemma_small_mod,
};
use crate::buffer::Buffer;
use crate::error;
use crate::field::FixFieldValue;

verus! {

/// Number of wire bytes in an encoded checksum field.
const LEN_IN_BYTES: usize = 3;

/// Sum of all bytes of `s`, as an unbounded integer.
pub open spec fn byte_sum(s: Seq<u8>) -> int
    decreases s.len(),
{
    if s.len() == 0 {
        0
    } else {
        byte_sum(s.drop_last()) + s.last()
    }
}

/// Whether `b` is an ASCII decimal digit, `'0'..='9'`.
pub open spec fn is_digit_byte(b: u8) -> bool {
    48 <= b <= 57
}

/// The wire encoding of a checksum value: exactly three zero-padded
/// ASCII decimal digits, most significant first.
pub open spec fn checksum_wire(v: u8) -> Seq<u8> {
    seq![
        (v / 100 + 48) as u8,
        ((v / 10) % 10 + 48) as u8,
        (v % 10 + 48) as u8,
    ]
}

/// The value that wrapping digit arithmetic assigns to three wire
/// bytes: each byte offset by `'0'` and weighted by its decimal place,
/// all modulo 256. On three ASCII digits this is ordinary 3-digit
/// decimal reading (modulo 256); on garbage bytes it is still the
/// exact value the lossy decoder produces.
pub open spec fn decoded_value(b0: u8, b1: u8, b2: u8) -> int {
    ((b0 - 48) * 100 + (b1 - 48) * 10 + (b2 - 48)) % 256
}

/// The result of a FIX checksum calculation.
///
/// Holds the sum of all preceding message bytes wrapped at 256, as the
/// FIX specification defines it; the wire form is always exactly three
/// zero-padded ASCII decimal digits.
#[derive(Debug, Copy, Clone, PartialEq, Eq, Structural)]
pub struct CheckSum(pub u8);

impl CheckSum {
    /// Returns the checksum of `data`: the sum of every byte, wrapped
    /// at 256, as per the FIX specification. The empty slice sums to 0.
    pub fn compute(data: &[u8]) -> (r: Self)
        ensures
            r.0 == byte_sum(data@) % 256,
    {
        let mut value = 0u8;
        let mut i: usize = 0;
        while i < data.len()
            invariant
                i <= data@.len(),
                value == byte_sum(data@.take(i as int)) % 256,
            decreases data@.len() - i,
        {
            let byte = data[i];
            proof {
                let prefix = data@.take(i as int);
                assert(data@.take(i + 1).drop_last() =~= prefix);
                assert(data@.take(i + 1).last() == byte);
                assert(byte_sum(data@.take(i + 1)) == byte_sum(prefix) + byte);
                lemma_small_mod(byte as nat, 256);
                lemma_add_mod_noop(byte_sum(prefix), byte as int, 256);
            }
            value = value.wrapping_add(byte);
            i += 1;
        }
        proof {
            assert(data@.take(data@.len() as int) =~= data@);
        }
        Self(value)
    }
}

/// Whether `byte` is an ASCII decimal digit.
pub fn is_ascii_digit(byte: u8) -> (r: bool)
    ensures
        r == is_digit_byte(byte),
{
    byte >= 48 && byte <= 57
}

/// Maps a decimal digit value to the ASCII byte that prints it.
pub fn digit_to_ascii(byte: u8) -> (r: u8)
    requires
        byte < 10,
    ensures
        r == byte + 48,
{
    byte + 48
}

/// One place of the wrapping digit read: offsets `digit` by `'0'` and
/// weights it by `multiplier`, all in arithmetic modulo 256.
pub fn ascii_digit_to_u8(digit: u8, multiplier: u8) -> (r: u8)
    ensures
        r == ((digit - 48) * multiplier) % 256,
{
    let offset = digit.wrapping_sub(48);
    proof {
        assert(offset == (digit - 48) % 256);
        lemma_mul_mod_noop_left(digit - 48, multiplier as int, 256);
    }
    offset.wrapping_mul(multiplier)
}

/// Reads three wire bytes as a checksum value with wrapping digit
/// arithmetic: no character-class checks, every byte is offset by `'0'`
/// and weighted by its decimal place, modulo 256.
pub fn checksum_from_digits(data: [u8; 3]) -> (r: CheckSum)
    ensures
        r.0 == decoded_value(data@[0], data@[1], data@[2]),
{
    let hundreds = ascii_digit_to_u8(data[0], 100);
    let tens = ascii_digit_to_u8(data[1], 10);
    let ones = ascii_digit_to_u8(data[2], 1);
    let high = hundreds.wrapping_add(tens);
    proof {
        let x0 = (data@[0] - 48) * 100;
        let x1 = (data@[1] - 48) * 10;
        let x2 = (data@[2] - 48) * 1;
        lemma_add_mod_noop(x0, x1, 256);
        assert(high == (x0 + x1) % 256);
        lemma_add_mod_noop(x0 + x1, x2, 256);
    }
    CheckSum(high.wrapping_add(ones))
}

/// Every byte of a checksum's wire encoding is an ASCII decimal digit.
pub proof fn lemma_checksum_wire_digits(v: u8)
    ensures
        checksum_wire(v).len() == 3,
        forall|i: int| 0 <= i < 3 ==> is_digit_byte(#[trigger] checksum_wire(v)[i]),
{
    assert(v / 100 <= 2);
}

/// Round-trip law: the three-digit, zero-padded ASCII encoding of any
/// checksum value is made of digit bytes (so the strict decoder
/// accepts it), and reading it back yields exactly that value.
pub proof fn lemma_checksum_round_trip(v: u8)
    ensures
        checksum_wire(v).len() == 3,
        forall|i: int| 0 <= i < 3 ==> is_digit_byte(#[trigger] checksum_wire(v)[i]),
        decoded_value(checksum_wire(v)[0], checksum_wire(v)[1], checksum_wire(v)[2]) == v,
{
    lemma_checksum_wire_digits(v);
    lemma_fundamental_div_mod(v as int, 10);
    lemma_fundamental_div_mod(v as int / 10, 10);
    lemma_div_denominator(v as int, 10, 10);
    assert((v / 100) * 100 + ((v / 10) % 10) * 10 + (v % 10) == v);
    lemma_small_mod(v as nat, 256);
}

impl FixFieldValue for CheckSum {
    type Error = error::CheckSum;

    open spec fn wire(&self) -> Seq<u8> {
        checksum_wire(self.0)
    }

    open spec fn wire_is_ascii() -> bool {
        true
    }

    fn is_ascii() -> (b: bool) {
        true
    }

    proof fn wire_ascii_ok(&self) {
        lemma_checksum_wire_digits(self.0);
    }

    /// Writes exactly three ASCII digit bytes: the value in decimal,
    /// most significant digit first, zero-padded.
    fn serialize<B: Buffer>(&self, buffer: &mut B) -> (n: usize) {
        let digits: [u8; 3] = [
            digit_to_ascii(self.0 / 100),
            digit_to_ascii((self.0 / 10) % 10),
            digit_to_ascii(self.0 % 10),
        ];
        proof {
            assert(self.0 / 100 <= 2);
            assert(digits@ =~= checksum_wire(self.0));
        }
        buffer.extend_from_slice(digits.as_slice());
        LEN_IN_BYTES
    }

    /// Strict decode: exactly three bytes, all ASCII digits, read as a
    /// three-digit decimal number wrapped at 256.
    fn deserialize(data: &[u8]) -> (r: Result<Self, Self::Error>)
        ensures
            data@.len() != 3 ==> r == Err::<CheckSum, error::CheckSum>(error::CheckSum::WrongLength),
            data@.len() == 3 && !(is_digit_byte(data@[0]) && is_digit_byte(data@[1])
                && is_digit_byte(data@[2])) ==> r == Err::<CheckSum, error::CheckSum>(
                error::CheckSum::NotAsciiDigits,
            ),
            data@.len() == 3 && is_digit_byte(data@[0]) && is_digit_byte(data@[1])
                && is_digit_byte(data@[2]) ==> r == Ok::<CheckSum, error::CheckSum>(
                CheckSum(decoded_value(data@[0], data@[1], data@[2]) as u8),
            ),
    {
        if data.len() == 3 {
            if is_ascii_digit(data[0]) && is_ascii_digit(data[1]) && is_ascii_digit(data[2]) {
                Ok(checksum_from_digits([data[0], data[1], data[2]]))
            } else {
                Err(error::CheckSum::NotAsciiDigits)
            }
        } else {
            Err(error::CheckSum::WrongLength)
        }
    }

    /// Lossy decode: exactly three bytes, but no digit-class checks.
    /// Bytes outside `'0'..='9'` go through the same wrapping digit
    /// arithmetic as the encoder's digits, so garbage input maps to a
    /// well-formed but meaningless value; callers opting in accept that
    /// trade-off on pre-validated input.
    fn deserialize_lossy(data: &[u8]) -> (r: Result<Self, Self::Error>)
        ensures
            data@.len() != 3 ==> r == Err::<CheckSum, error::CheckSum>(error::CheckSum::WrongLength),
            data@.len() == 3 ==> r == Ok::<CheckSum, error::CheckSum>(
                CheckSum(decoded_value(data@[0], data@[1], data@[2]) as u8),
            ),
    {
        if data.len() == 3 {
            Ok(checksum_from_digits([data[0], data[1], data[2]]))
        } else {
            Err(error::CheckSum::WrongLength)
        }
    }
}

} // verus!
