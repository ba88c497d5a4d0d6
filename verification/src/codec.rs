//! The identifier codec.
//!
//! A bottle's canonical textual identifier is derived from its lot
//! identifier and its sequence number: `"<lot_id>-<number>"`, with the
//! numeric part zero-padded to a minimum width of four digits. For
//! numbers of five or more digits the numeric part has exactly as many
//! digits as the value. The hosting environment offers no generic
//! formatting facility, so digit extraction and padding are written
//! out explicitly, and the concatenation is bounded by an explicit
//! maximum output length: an identifier that would exceed it is
//! rejected with `InvalidInput` rather than truncated.

use vstd::prelude::*;

use crate::errors::BottleFactoryError;

verus! {

/// No derived identifier may be longer than this many characters.
pub const MAX_BOTTLE_ID_LEN: usize = 256;

/// The decimal digit `d` as a character.
pub open spec fn digit_char(d: int) -> char {
    if d == 0 {
        '0'
    } else if d == 1 {
        '1'
    } else if d == 2 {
        '2'
    } else if d == 3 {
        '3'
    } else if d == 4 {
        '4'
    } else if d == 5 {
        '5'
    } else if d == 6 {
        '6'
    } else if d == 7 {
        '7'
    } else if d == 8 {
        '8'
    } else {
        '9'
    }
}

/// The decimal digits of `n`, most significant first, with no leading
/// zeros (`0` itself is the single digit `0`).
pub open spec fn dec_digits(n: nat) -> Seq<char>
    decreases n,
{
    if n < 10 {
        seq![digit_char(n as int)]
    } else {
        dec_digits(n / 10) + seq![digit_char((n % 10) as int)]
    }
}

/// How many decimal digits `n` has.
pub open spec fn digit_count(n: nat) -> nat
    decreases n,
{
    if n < 10 {
        1
    } else {
        1 + digit_count(n / 10)
    }
}

/// The numeric part of an identifier: the decimal digits of `n`,
/// zero-padded on the left to a minimum width of four.
pub open spec fn padded_digits(n: u32) -> Seq<char> {
    if n < 10 {
        seq!['0', '0', '0'] + dec_digits(n as nat)
    } else if n < 100 {
        seq!['0', '0'] + dec_digits(n as nat)
    } else if n < 1000 {
        seq!['0'] + dec_digits(n as nat)
    } else {
        dec_digits(n as nat)
    }
}

/// The canonical identifier derived from a lot identifier and a bottle
/// number.
pub open spec fn bottle_id_chars(lot_id: Seq<char>, bottle_number: u32) -> Seq<char> {
    lot_id + seq!['-'] + padded_digits(bottle_number)
}

/// Whether the derived identifier stays within the output bound.
pub open spec fn id_fits(lot_id: Seq<char>, bottle_number: u32) -> bool {
    bottle_id_chars(lot_id, bottle_number).len() <= MAX_BOTTLE_ID_LEN
}

/// `dec_digits` produces exactly `digit_count` characters.
pub proof fn lemma_dec_digits_len(n: nat)
    ensures
        dec_digits(n).len() == digit_count(n),
    decreases n,
{
    if n >= 10 {
        lemma_dec_digits_len(n / 10);
    }
}

/// The digit count of `n`, by decimal range.
pub proof fn lemma_digit_count(n: nat)
    ensures
        n < 10 ==> digit_count(n) == 1,
        10 <= n < 100 ==> digit_count(n) == 2,
        100 <= n < 1000 ==> digit_count(n) == 3,
        1000 <= n < 10000 ==> digit_count(n) == 4,
        n >= 10000 ==> digit_count(n) >= 5,
    decreases n,
{
    if n >= 10 {
        lemma_digit_count(n / 10);
    }
}

/// Law: for bottle numbers below 10000 the identifier is exactly
/// `lot_id.len() + 1 + 4` characters long; for larger numbers the
/// numeric part has exactly as many characters as the number has
/// decimal digits, and never fewer than four.
pub proof fn lemma_bottle_id_len(lot_id: Seq<char>, n: u32)
    ensures
        n < 10000 ==> bottle_id_chars(lot_id, n).len() == lot_id.len() + 1 + 4,
        n >= 10000 ==> bottle_id_chars(lot_id, n).len() == lot_id.len() + 1 + digit_count(
            n as nat,
        ),
        padded_digits(n).len() >= 4,
{
    lemma_dec_digits_len(n as nat);
    lemma_digit_count(n as nat);
}

/// The characters written so far when the extracted digits (least
/// significant first) are emitted from the last extracted one
/// backwards.
pub open spec fn rev_digit_chars(ds: Seq<u32>) -> Seq<char> {
    Seq::new(ds.len(), |i: int| digit_char(ds[ds.len() - 1 - i] as int))
}

proof fn lemma_rev_push(ds: Seq<u32>, d: u32)
    ensures
        rev_digit_chars(ds.push(d)) =~= seq![digit_char(d as int)] + rev_digit_chars(ds),
{
}

/// The single-character string of one decimal digit.
fn digit_str(d: u32) -> (r: &'static str)
    requires
        d < 10,
    ensures
        r@ =~= seq![digit_char(d as int)],
{
    let r: &'static str = match d {
        0 => "0",
        1 => "1",
        2 => "2",
        3 => "3",
        4 => "4",
        5 => "5",
        6 => "6",
        7 => "7",
        8 => "8",
        _ => "9",
    };
    proof {
        reveal_strlit("0");
        reveal_strlit("1");
        reveal_strlit("2");
        reveal_strlit("3");
        reveal_strlit("4");
        reveal_strlit("5");
        reveal_strlit("6");
        reveal_strlit("7");
        reveal_strlit("8");
        reveal_strlit("9");
    }
    r
}

/// Writes `n` in decimal, by explicit digit extraction into a buffer
/// of digit values, least significant first, then emission from the
/// most significant end.
pub fn u32_to_string(n: u32) -> (r: String)
    ensures
        r@ == dec_digits(n as nat),
{
    if n == 0 {
        let r = String::from_str("0");
        proof {
            reveal_strlit("0");
            assert(r@ =~= dec_digits(0));
        }
        return r;
    }
    let mut rest: u32 = n;
    let mut digits: Vec<u32> = Vec::new();
    while rest > 0
        invariant
            forall|i: int| 0 <= i < digits@.len() ==> digits@[i] < 10,
            rest > 0 ==> dec_digits(n as nat) =~= dec_digits(rest as nat) + rev_digit_chars(
                digits@,
            ),
            rest == 0 ==> dec_digits(n as nat) =~= rev_digit_chars(digits@),
        decreases rest,
    {
        let d = rest % 10;
        proof {
            lemma_rev_push(digits@, d);
            if rest >= 10 {
                assert(dec_digits(rest as nat) == dec_digits((rest / 10) as nat) + seq![
                    digit_char((rest % 10) as int),
                ]);
                assert(dec_digits(n as nat) =~= dec_digits((rest / 10) as nat) + rev_digit_chars(
                    digits@.push(d),
                ));
            } else {
                assert(dec_digits(rest as nat) == seq![digit_char(rest as int)]);
                assert(dec_digits(n as nat) =~= rev_digit_chars(digits@.push(d)));
            }
        }
        digits.push(d);
        rest = rest / 10;
    }
    let mut out = String::new();
    let mut i: usize = digits.len();
    while i > 0
        invariant
            i <= digits@.len(),
            forall|k: int| 0 <= k < digits@.len() ==> digits@[k] < 10,
            out@ =~= rev_digit_chars(digits@).take(digits@.len() - i),
        decreases i,
    {
        i = i - 1;
        let ds = digit_str(digits[i]);
        proof {
            let rev = rev_digit_chars(digits@);
            let k = digits@.len() - i - 1;
            assert(rev[k] == digit_char(digits@[i as int] as int));
            assert(rev.take(k + 1) =~= rev.take(k) + seq![rev[k]]);
        }
        out.append(ds);
    }
    proof {
        assert(out@ =~= rev_digit_chars(digits@));
    }
    out
}

/// Derives the canonical bottle identifier `"<lot_id>-<number>"`, the
/// numeric part zero-padded to a minimum width of four digits. Fails
/// with `InvalidInput` — and only then — when the result would exceed
/// `MAX_BOTTLE_ID_LEN` characters.
pub fn format_bottle_id(lot_id: &String, bottle_number: u32) -> (r: Result<
    String,
    BottleFactoryError,
>)
    ensures
        match r {
            Ok(id) => id_fits(lot_id@, bottle_number) && id@ == bottle_id_chars(
                lot_id@,
                bottle_number,
            ),
            Err(e) => e == BottleFactoryError::InvalidInput && !id_fits(lot_id@, bottle_number),
        },
{
    let num = u32_to_string(bottle_number);
    let padded: String = if bottle_number < 10 {
        let mut p = String::from_str("000");
        proof {
            reveal_strlit("000");
        }
        p.append(num.as_str());
        p
    } else if bottle_number < 100 {
        let mut p = String::from_str("00");
        proof {
            reveal_strlit("00");
        }
        p.append(num.as_str());
        p
    } else if bottle_number < 1000 {
        let mut p = String::from_str("0");
        proof {
            reveal_strlit("0");
        }
        p.append(num.as_str());
        p
    } else {
        num
    };
    proof {
        assert(padded@ =~= padded_digits(bottle_number));
    }
    let lot_len = lot_id.as_str().unicode_len();
    if lot_len > MAX_BOTTLE_ID_LEN - 1 {
        return Err(BottleFactoryError::InvalidInput);
    }
    let pad_len = padded.as_str().unicode_len();
    if pad_len > MAX_BOTTLE_ID_LEN - 1 - lot_len {
        return Err(BottleFactoryError::InvalidInput);
    }
    let mut out = lot_id.clone();
    out.append("-");
    out.append(padded.as_str());
    proof {
        reveal_strlit("-");
        assert(out@ =~= bottle_id_chars(lot_id@, bottle_number));
    }
    Ok(out)
}

} // verus!
