use vstd::prelude::*;
use crate::text::push_char;

verus! {

/// Number of characters eligible for inclusion in a one-time code.
pub const ALPHABET_SIZE: usize = 48;

/// Relies on rand::random: draws a value of type T from thread-local
/// randomness; nothing is promised of the value.
pub assume_specification<T>[ rand::random::<T> ]() -> (r: T)
    where
        rand::distributions::Standard: rand::distributions::Distribution<T>,
;

/// The characters eligible for inclusion in a one-time code, in order.
///
/// All digits and ASCII letters except those that could be confused when
/// reading a code back: '1', '5', '8', '0', 'b', 'i', 'l', 'o', 's', 'u',
/// 'B', 'D', 'I' and 'O'.
pub open spec fn code_char(i: int) -> char {
    if i == 0 { '2' } else if i == 1 { '3' } else if i == 2 { '4' }
    else if i == 3 { '6' } else if i == 4 { '7' } else if i == 5 { '9' }
    else if i == 6 { 'a' } else if i == 7 { 'c' } else if i == 8 { 'd' }
    else if i == 9 { 'e' } else if i == 10 { 'f' } else if i == 11 { 'g' }
    else if i == 12 { 'h' } else if i == 13 { 'j' } else if i == 14 { 'k' }
    else if i == 15 { 'm' } else if i == 16 { 'n' } else if i == 17 { 'p' }
    else if i == 18 { 'q' } else if i == 19 { 'r' } else if i == 20 { 't' }
    else if i == 21 { 'v' } else if i == 22 { 'w' } else if i == 23 { 'x' }
    else if i == 24 { 'y' } else if i == 25 { 'z' } else if i == 26 { 'A' }
    else if i == 27 { 'C' } else if i == 28 { 'E' } else if i == 29 { 'F' }
    else if i == 30 { 'G' } else if i == 31 { 'H' } else if i == 32 { 'J' }
    else if i == 33 { 'K' } else if i == 34 { 'L' } else if i == 35 { 'M' }
    else if i == 36 { 'N' } else if i == 37 { 'P' } else if i == 38 { 'Q' }
    else if i == 39 { 'R' } else if i == 40 { 'S' } else if i == 41 { 'T' }
    else if i == 42 { 'U' } else if i == 43 { 'V' } else if i == 44 { 'W' }
    else if i == 45 { 'X' } else if i == 46 { 'Y' } else { 'Z' }
}

/// Whether a character belongs to the one-time code alphabet.
pub open spec fn in_alphabet(c: char) -> bool {
    exists|i: int| 0 <= i < 48 && code_char(i) == c
}

/// Every alphabet character is a plain ASCII digit or letter, so it is
/// below code point 128 and needs no percent-encoding in a query string.
pub proof fn lemma_alphabet_ascii(c: char)
    requires
        in_alphabet(c),
    ensures
        ('0' <= c && c <= '9') || ('a' <= c && c <= 'z') || ('A' <= c && c <= 'Z'),
{
    let i = choose|i: int| 0 <= i < 48 && code_char(i) == c;
    assert(('0' <= code_char(i) && code_char(i) <= '9')
        || ('a' <= code_char(i) && code_char(i) <= 'z')
        || ('A' <= code_char(i) && code_char(i) <= 'Z'));
}

/// Returns the alphabet character at a given index.
fn nth_code_char(i: usize) -> (c: char)
    requires
        i < 48,
    ensures
        c == code_char(i as int),
{
    if i == 0 { '2' } else if i == 1 { '3' } else if i == 2 { '4' }
    else if i == 3 { '6' } else if i == 4 { '7' } else if i == 5 { '9' }
    else if i == 6 { 'a' } else if i == 7 { 'c' } else if i == 8 { 'd' }
    else if i == 9 { 'e' } else if i == 10 { 'f' } else if i == 11 { 'g' }
    else if i == 12 { 'h' } else if i == 13 { 'j' } else if i == 14 { 'k' }
    else if i == 15 { 'm' } else if i == 16 { 'n' } else if i == 17 { 'p' }
    else if i == 18 { 'q' } else if i == 19 { 'r' } else if i == 20 { 't' }
    else if i == 21 { 'v' } else if i == 22 { 'w' } else if i == 23 { 'x' }
    else if i == 24 { 'y' } else if i == 25 { 'z' } else if i == 26 { 'A' }
    else if i == 27 { 'C' } else if i == 28 { 'E' } else if i == 29 { 'F' }
    else if i == 30 { 'G' } else if i == 31 { 'H' } else if i == 32 { 'J' }
    else if i == 33 { 'K' } else if i == 34 { 'L' } else if i == 35 { 'M' }
    else if i == 36 { 'N' } else if i == 37 { 'P' } else if i == 38 { 'Q' }
    else if i == 39 { 'R' } else if i == 40 { 'S' } else if i == 41 { 'T' }
    else if i == 42 { 'U' } else if i == 43 { 'V' } else if i == 44 { 'W' }
    else if i == 45 { 'X' } else if i == 46 { 'Y' } else { 'Z' }
}

/// Generates a one-time code of the requested length, each character drawn
/// independently from the restricted unambiguous alphabet.
pub fn generate_code(length: usize) -> (r: String)
    ensures
        r@.len() == length as int,
        forall|k: int| 0 <= k < r@.len() ==> in_alphabet(#[trigger] r@[k]),
{
    let mut s = String::new();
    let mut i: usize = 0;
    while i < length
        invariant
            i <= length,
            s@.len() == i as int,
            forall|k: int| 0 <= k < s@.len() ==> in_alphabet(#[trigger] s@[k]),
        decreases length - i,
    {
        let n: usize = rand::random();
        let idx = n % ALPHABET_SIZE;
        let c = nth_code_char(idx);
        proof {
            assert(in_alphabet(c)) by {
                assert(code_char(idx as int) == c);
            }
        }
        push_char(&mut s, c);
        i += 1;
    }
    s
}

} // verus!
