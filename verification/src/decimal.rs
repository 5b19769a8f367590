//! Unsigned decimal numbers in text.
use vstd::prelude::*;

verus! {

/// Whether `byte` is an ASCII decimal digit.
pub open spec fn is_digit(byte: u8) -> bool {
    48 <= byte <= 57
}

/// The value of the longest run of digits that starts at `pos`, read after a
/// number of value `acc`, and the position after the run.
pub open spec fn spec_digits(bytes: Seq<u8>, pos: int, acc: int) -> (int, int)
    decreases bytes.len() - pos,
{
    if 0 <= pos < bytes.len() && is_digit(bytes[pos]) {
        spec_digits(bytes, pos + 1, acc * 10 + (bytes[pos] - 48))
    } else {
        (acc, pos)
    }
}

/// The number written in digits at `pos` and the position after it; nothing
/// if no digit stands at `pos` or the number is above `max`.
pub open spec fn spec_number(bytes: Seq<u8>, pos: int, max: int) -> Option<(int, int)> {
    if 0 <= pos < bytes.len() && is_digit(bytes[pos]) && spec_digits(bytes, pos, 0).0 <= max {
        Some(spec_digits(bytes, pos, 0))
    } else {
        None
    }
}

/// Reading on never makes a number smaller, and never moves back.
pub proof fn lemma_digits_grow(bytes: Seq<u8>, pos: int, acc: int)
    requires
        0 <= acc,
        0 <= pos,
    ensures
        spec_digits(bytes, pos, acc).0 >= acc,
        pos <= spec_digits(bytes, pos, acc).1 <= bytes.len() || pos > bytes.len(),
        0 <= pos < bytes.len() && is_digit(bytes[pos]) ==> spec_digits(bytes, pos, acc).1 > pos,
    decreases bytes.len() - pos,
{
    if 0 <= pos < bytes.len() && is_digit(bytes[pos]) {
        lemma_digits_grow(bytes, pos + 1, acc * 10 + (bytes[pos] - 48));
    }
}

/// Reads the number written in digits at `pos`. Returns its value and the
/// position after its last digit, or nothing if no digit stands at `pos` or
/// the number is above `max`.
pub fn read_number(bytes: &[u8], pos: usize, max: u128) -> (res: Option<(u128, usize)>)
    ensures
        match spec_number(bytes@, pos as int, max as int) {
            Some((value, next)) => res == Some((value as u128, next as usize)) && 0 <= value <= max
                && pos < next <= bytes@.len(),
            None => res.is_none(),
        },
{
    let total: usize = bytes.len();
    if pos >= total || !(48 <= bytes[pos] && bytes[pos] <= 57) {
        return None;
    }
    let mut acc: u128 = 0;
    let mut index: usize = pos;
    proof {
        lemma_digits_grow(bytes@, pos as int, 0);
    }
    while index < total && 48 <= bytes[index] && bytes[index] <= 57
        invariant
            total == bytes@.len(),
            pos <= index <= total,
            acc <= max,
            spec_digits(bytes@, pos as int, 0) == spec_digits(bytes@, index as int, acc as int),
        decreases total - index,
    {
        let digit: u128 = (bytes[index] - 48) as u128;
        proof {
            lemma_digits_grow(bytes@, index as int + 1, acc * 10 + digit);
        }
        if digit > max || acc > (max - digit) / 10 {
            return None;
        }
        acc = acc * 10 + digit;
        index = index + 1;
    }
    Some((acc, index))
}

} // verus!
