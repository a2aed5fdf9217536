//! Dotted version stamps such as `0.1.5`, as a manifest records them.
use crate::error::OwlError;
use crate::path::{find_last, last_index_of};
use crate::process::texts;
use core::cmp::Ordering;
use vstd::prelude::*;

verus! {

/// Why a text is no `usize`.
pub enum ParseFail {
    /// The text is empty.
    Empty,
    /// A character is no decimal digit (a lone `+` included).
    InvalidDigit,
    /// The value does not fit.
    PosOverflow,
}

/// The value of decimal digit `c`.
pub open spec fn digit_of(c: char) -> nat {
    ((c as u32) - ('0' as u32)) as nat
}

/// Reading the digits `d` left to right onto `acc`: the first character that
/// is no digit, or the first step past the largest `usize`, ends it.
pub open spec fn scan_digits(d: Seq<char>, acc: nat) -> Result<nat, ParseFail>
    decreases d.len(),
{
    if d.len() == 0 {
        Ok(acc)
    } else if !('0' <= d[0] && d[0] <= '9') {
        Err(ParseFail::InvalidDigit)
    } else if acc * 10 + digit_of(d[0]) > usize::MAX {
        Err(ParseFail::PosOverflow)
    } else {
        scan_digits(d.drop_first(), acc * 10 + digit_of(d[0]))
    }
}

/// The `usize` that `s` spells, as decimal digits after an optional `+`, or
/// why it spells none, as the standard library's `usize::from_str` decides.
pub open spec fn parse_usize_spec(s: Seq<char>) -> Result<nat, ParseFail> {
    if s.len() == 0 {
        Err(ParseFail::Empty)
    } else if s[0] == '+' && s.len() == 1 {
        Err(ParseFail::InvalidDigit)
    } else if s[0] == '+' {
        scan_digits(s.drop_first(), 0)
    } else {
        scan_digits(s, 0)
    }
}

/// The text of a parse failure.
pub open spec fn fail_text(f: ParseFail) -> Seq<char> {
    match f {
        ParseFail::Empty => "cannot parse integer from empty string"@,
        ParseFail::InvalidDigit => "invalid digit found in string"@,
        ParseFail::PosOverflow => "number too large to fit in target type"@,
    }
}

/// The `usize` that `s` spells: decimal digits after an optional `+`.
pub fn parse_usize(s: &str) -> (r: Result<usize, ParseFail>)
    ensures
        match parse_usize_spec(s@) {
            Ok(v) => v <= usize::MAX && r == Ok::<usize, ParseFail>(v as usize),
            Err(f) => r == Err::<usize, ParseFail>(f),
        },
{
    let n = s.unicode_len();
    if n == 0 {
        return Err(ParseFail::Empty);
    }
    let mut i: usize = 0;
    if s.get_char(0) == '+' {
        if n == 1 {
            return Err(ParseFail::InvalidDigit);
        }
        i = 1;
    }
    assert(i == 1 ==> s@.subrange(1, n as int) =~= s@.drop_first());
    assert(i == 0 ==> s@.subrange(0, n as int) =~= s@);
    let mut acc: usize = 0;
    while i < n
        invariant
            n == s@.len(),
            i <= n,
            parse_usize_spec(s@) == scan_digits(s@.subrange(i as int, n as int), acc as nat),
        decreases n - i,
    {
        let c = s.get_char(i);
        let ghost rest = s@.subrange(i as int, n as int);
        assert(rest[0] == c);
        assert(rest.drop_first() =~= s@.subrange(i + 1, n as int));
        if !('0' <= c && c <= '9') {
            return Err(ParseFail::InvalidDigit);
        }
        let digit = (c as u32 - '0' as u32) as usize;
        assert(digit as nat == digit_of(c));
        if acc > (usize::MAX - digit) / 10 {
            assert(acc * 10 + digit > usize::MAX) by (nonlinear_arith)
                requires
                    acc > (usize::MAX - digit) / 10,
                    digit <= 9,
            ;
            return Err(ParseFail::PosOverflow);
        }
        assert(acc * 10 + digit <= usize::MAX) by (nonlinear_arith)
            requires
                acc <= (usize::MAX - digit) / 10,
                digit <= 9,
        ;
        acc = acc * 10 + digit;
        i = i + 1;
    }
    assert(s@.subrange(n as int, n as int) =~= Seq::<char>::empty());
    Ok(acc)
}

fn fail_message(f: &ParseFail) -> (r: String)
    ensures
        r@ == fail_text(*f),
{
    match f {
        ParseFail::Empty => String::from_str("cannot parse integer from empty string"),
        ParseFail::InvalidDigit => String::from_str("invalid digit found in string"),
        ParseFail::PosOverflow => String::from_str("number too large to fit in target type"),
    }
}

/// The parts of `s` between dots, in order.
pub open spec fn dot_parts(s: Seq<char>) -> Seq<Seq<char>>
    decreases s.len(),
{
    let d = last_index_of(s, '.');
    if d < 0 || d >= s.len() {
        seq![s]
    } else {
        dot_parts(s.subrange(0, d)).push(s.subrange(d + 1, s.len() as int))
    }
}

/// How comparing two stamps part by part ends.
pub enum StampStep {
    /// A part of the first stamp is no number.
    BadLeft(ParseFail),
    /// A part of the second stamp is no number.
    BadRight(ParseFail),
    /// A part of the first stamp is below the second's.
    Below,
    /// No part was below.
    Finished,
}

/// Comparing the parts from index `i` on, pair by pair, as far as both have
/// parts.
pub open spec fn walk_parts(a: Seq<Seq<char>>, b: Seq<Seq<char>>, i: nat) -> StampStep
    decreases a.len() - i,
{
    if i >= a.len() || i >= b.len() {
        StampStep::Finished
    } else {
        match (parse_usize_spec(a[i as int]), parse_usize_spec(b[i as int])) {
            (Err(f), _) => StampStep::BadLeft(f),
            (Ok(_), Err(f)) => StampStep::BadRight(f),
            (Ok(x), Ok(y)) => if x < y {
                StampStep::Below
            } else {
                walk_parts(a, b, i + 1)
            },
        }
    }
}

fn split_dots(s: &str) -> (r: Vec<String>)
    ensures
        texts(r@) == dot_parts(s@),
    decreases s@.len(),
{
    let n = s.unicode_len();
    match find_last(s, '.') {
        None => {
            let mut v: Vec<String> = Vec::new();
            v.push(String::from_str(s));
            assert(texts(v@) =~= seq![s@]);
            v
        },
        Some(d) => {
            let mut v = split_dots(s.substring_char(0, d));
            let ghost before = v@;
            v.push(String::from_str(s.substring_char(d + 1, n)));
            assert(texts(v@) =~= texts(before).push(s@.subrange(d + 1, n as int)));
            v
        },
    }
}

/// The error text for a stamp with a part that is no number.
pub open spec fn unparsed(s: Seq<char>) -> Seq<char> {
    "Failed to parse timestamp '"@ + s + "' as (usize,,)"@
}

fn unparsed_text(s: &str) -> (r: String)
    ensures
        r@ == unparsed(s@),
{
    String::from_str("Failed to parse timestamp '").concat(s).concat("' as (usize,,)")
}

/// Compares two stamps part by part: `Less` at the first part of `s1` below
/// the same part of `s2`; otherwise `Equal` for the same text and `Greater`
/// for any other. A part that is no number is a `TomlError`.
pub fn compare_stamps(s1: &str, s2: &str) -> (r: Result<Ordering, OwlError>)
    ensures
        match walk_parts(dot_parts(s1@), dot_parts(s2@), 0) {
            StampStep::BadLeft(f) => (r matches Err(OwlError::TomlError(x, i)) && x@ == unparsed(s1@)
                && i@ == fail_text(f)),
            StampStep::BadRight(f) => (r matches Err(OwlError::TomlError(x, i)) && x@ == unparsed(s2@)
                && i@ == fail_text(f)),
            StampStep::Below => r == Ok::<Ordering, OwlError>(Ordering::Less),
            StampStep::Finished => if s1@ == s2@ {
                r == Ok::<Ordering, OwlError>(Ordering::Equal)
            } else {
                r == Ok::<Ordering, OwlError>(Ordering::Greater)
            },
        },
{
    let a = split_dots(s1);
    let b = split_dots(s2);
    let mut i: usize = 0;
    while i < a.len() && i < b.len()
        invariant
            i <= a@.len(),
            texts(a@) == dot_parts(s1@),
            texts(b@) == dot_parts(s2@),
            walk_parts(dot_parts(s1@), dot_parts(s2@), 0) == walk_parts(dot_parts(s1@), dot_parts(s2@), i as nat),
        decreases a@.len() - i,
    {
        assert(texts(a@)[i as int] == a@[i as int]@);
        assert(texts(b@)[i as int] == b@[i as int]@);
        let x = match parse_usize(a[i].as_str()) {
            Ok(x) => x,
            Err(f) => {
                return Err(OwlError::TomlError(unparsed_text(s1), fail_message(&f)));
            },
        };
        let y = match parse_usize(b[i].as_str()) {
            Ok(y) => y,
            Err(f) => {
                return Err(OwlError::TomlError(unparsed_text(s2), fail_message(&f)));
            },
        };
        if x < y {
            return Ok(Ordering::Less);
        }
        i = i + 1;
    }
    if String::from_str(s1) == String::from_str(s2) {
        Ok(Ordering::Equal)
    } else {
        Ok(Ordering::Greater)
    }
}

} // verus!
