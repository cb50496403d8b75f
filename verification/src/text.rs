//! Whole numbers as text.

use vstd::prelude::*;
use vstd::string::*;

verus! {

/// Whether two texts are the same.
pub fn same_text(text: &str, other: &str) -> (r: bool)
    ensures
        r == (text@ == other@),
{
    String::from_str(text) == String::from_str(other)
}

/// The decimal digits of a number as bytes, without leading zeros.
pub open spec fn digits_of(n: nat) -> Seq<u8>
    decreases n,
{
    if n < 10 {
        seq![(48 + n) as u8]
    } else {
        digits_of(n / 10).push((48 + n % 10) as u8)
    }
}

/// A whole number in decimal digits, after a minus sign where it is below
/// zero.
pub open spec fn integer_text(n: int) -> Seq<u8> {
    if n < 0 {
        seq![45u8] + digits_of((-n) as nat)
    } else {
        digits_of(n as nat)
    }
}

/// A whole number in decimal digits as characters.
pub open spec fn integer_chars(n: int) -> Seq<char> {
    integer_text(n).map_values(|b: u8| b as char)
}

/// A number has at least one digit, and every digit is a digit.
pub proof fn lemma_digits(n: nat)
    ensures
        digits_of(n).len() >= 1,
        forall|i: int| 0 <= i < digits_of(n).len() ==> 48 <= #[trigger] digits_of(n)[i] <= 57,
    decreases n,
{
    if n >= 10 {
        lemma_digits(n / 10);
    }
}

/// Puts the digits of a number at the end of the bytes.
pub fn push_digits(out: &mut Vec<u8>, n: u128)
    ensures
        final(out)@ == old(out)@ + digits_of(n as nat),
    decreases n,
{
    if n < 10 {
        out.push(48 + n as u8);
        proof {
            assert(out@ == old(out)@ + seq![(48 + n) as u8]);
        }
    } else {
        push_digits(out, n / 10);
        out.push(48 + (n % 10) as u8);
        proof {
            assert(out@ == old(out)@ + digits_of((n / 10) as nat).push((48 + n % 10) as u8));
        }
    }
}

/// A whole number as text.
pub fn integer_bytes(n: i128) -> (r: Vec<u8>)
    ensures
        r@ == integer_text(n as int),
{
    let mut out: Vec<u8> = Vec::new();
    if n < 0 {
        out.push(45);
        let magnitude: u128 = if n == i128::MIN {
            i128::MAX as u128 + 1
        } else {
            (-n) as u128
        };
        push_digits(&mut out, magnitude);
    } else {
        push_digits(&mut out, n as u128);
    }
    out
}

/// The text of one byte of a whole number: a digit or the minus sign.
fn symbol(b: u8) -> (r: &'static str)
    requires
        b == 45 || 48 <= b <= 57,
    ensures
        r@ == seq![b as char],
{
    proof {
        reveal_strlit("-");
        reveal_strlit("0");
        reveal_strlit("1");
        reveal_strlit("2");
        reveal_strlit("3");
        reveal_strlit("4");
        reveal_strlit("5");
        reveal_strlit("6");
        reveal_strlit("7");
        reveal_strlit("8");
        reveal_strlit("9");
    }
    let r = if b == 45 {
        "-"
    } else if b == 48 {
        "0"
    } else if b == 49 {
        "1"
    } else if b == 50 {
        "2"
    } else if b == 51 {
        "3"
    } else if b == 52 {
        "4"
    } else if b == 53 {
        "5"
    } else if b == 54 {
        "6"
    } else if b == 55 {
        "7"
    } else if b == 56 {
        "8"
    } else {
        "9"
    };
    proof {
        assert(r@ =~= seq![b as char]);
    }
    r
}

/// A whole number as a string of decimal digits, after a minus sign where
/// it is below zero.
pub fn integer_string(n: i128) -> (r: String)
    ensures
        r@ == integer_chars(n as int),
{
    let bytes = integer_bytes(n);
    let mut out = String::from_str("");
    proof {
        reveal_strlit("");
        if n < 0 {
            lemma_digits((-n) as nat);
        } else {
            lemma_digits(n as nat);
        }
        assert(bytes@.take(0).map_values(|b: u8| b as char) =~= out@);
    }
    let mut i: usize = 0;
    while i < bytes.len()
        invariant
            i <= bytes@.len(),
            forall|k: int| 0 <= k < bytes@.len() ==> bytes@[k] == 45 || 48 <= #[trigger] bytes@[k] <= 57,
            out@ == bytes@.take(i as int).map_values(|b: u8| b as char),
        decreases bytes@.len() - i,
    {
        let piece = symbol(bytes[i]);
        out.append(piece);
        proof {
            assert(bytes@.take(i + 1).map_values(|b: u8| b as char) =~= bytes@.take(i as int).map_values(
                |b: u8| b as char,
            ) + seq![bytes@[i as int] as char]);
        }
        i += 1;
    }
    proof {
        assert(bytes@.take(bytes@.len() as int) == bytes@);
    }
    out
}

} // verus!
