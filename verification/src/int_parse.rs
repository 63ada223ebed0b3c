//! The textual form of unsigned integers that `from_str_radix` and
//! `str::parse` accept, stated over the UTF-8 bytes of the text, and the
//! calls into std that parse it.

use vstd::prelude::*;
use vstd::string::StringSliceAdditionalSpecFns;
use std::num::{IntErrorKind, ParseIntError};

verus! {

/// Declares `std::num::ParseIntError`, the error of the integer parsers, so
/// that it can be passed on; nothing inside it is seen.
#[verifier::external_type_specification]
#[verifier::external_body]
pub struct ExParseIntError(ParseIntError);

/// The value of one ASCII digit in base 36: `0`-`9`, then `a`-`z` and
/// `A`-`Z` for 10-35. Any other byte gets 36, which is a digit in no radix.
pub open spec fn digit_value(c: u8) -> nat {
    if 0x30 <= c <= 0x39 {
        (c - 0x30) as nat
    } else if 0x61 <= c <= 0x7a {
        (c - 0x61 + 10) as nat
    } else if 0x41 <= c <= 0x5a {
        (c - 0x41 + 10) as nat
    } else {
        36
    }
}

/// Every byte of `b` is a digit of `radix`.
pub open spec fn all_digits(b: Seq<u8>, radix: nat) -> bool {
    forall|i: int| 0 <= i < b.len() ==> digit_value(#[trigger] b[i]) < radix
}

/// The number that the digits `b` denote in `radix`, most significant first.
pub open spec fn digits_value(b: Seq<u8>, radix: nat) -> nat
    decreases b.len(),
{
    if b.len() == 0 {
        0
    } else {
        digits_value(b.drop_last(), radix) * radix + digit_value(b.last())
    }
}

/// The digits of an unsigned number: the text without one leading `+`.
pub open spec fn unsigned_digits(b: Seq<u8>) -> Seq<u8> {
    if b.len() > 0 && b[0] == 0x2b {
        b.skip(1)
    } else {
        b
    }
}

/// The unsigned number written in `b` in `radix`: an optional `+` and then
/// at least one digit, nothing else; `None` for any other text.
pub open spec fn parse_unsigned(b: Seq<u8>, radix: nat) -> Option<nat> {
    let d = unsigned_digits(b);
    if d.len() > 0 && all_digits(d, radix) {
        Some(digits_value(d, radix))
    } else {
        None
    }
}

/// As [`parse_unsigned`], for a target type whose largest value is `max`:
/// a number above `max` is an error too.
pub open spec fn parse_bounded(b: Seq<u8>, radix: nat, max: nat) -> Option<nat> {
    match parse_unsigned(b, radix) {
        Some(v) => if v <= max {
            Some(v)
        } else {
            None
        },
        None => None,
    }
}

/// The shortest decimal text of `n`: its digits, most significant first.
pub open spec fn decimal_bytes(n: nat) -> Seq<u8>
    decreases n,
{
    if n < 10 {
        seq![(0x30 + n) as u8]
    } else {
        decimal_bytes(n / 10).push((0x30 + n % 10) as u8)
    }
}

/// Reading the decimal text of `n` gives back `n`.
pub proof fn lemma_parse_decimal_bytes(n: nat)
    ensures
        decimal_bytes(n).len() > 0,
        all_digits(decimal_bytes(n), 10),
        digits_value(decimal_bytes(n), 10) == n,
        decimal_bytes(n)[0] != 0x2b,
        parse_unsigned(decimal_bytes(n), 10) == Some(n),
    decreases n,
{
    let d = decimal_bytes(n);
    if n < 10 {
        assert(d.drop_last() =~= Seq::<u8>::empty());
        assert(digits_value(d.drop_last(), 10) == 0);
    } else {
        lemma_parse_decimal_bytes(n / 10);
        let p = decimal_bytes(n / 10);
        assert(d.drop_last() =~= p);
        assert forall|i: int| 0 <= i < d.len() implies digit_value(#[trigger] d[i]) < 10 by {
            if i < p.len() {
                assert(d[i] == p[i]);
            }
        }
        assert(d[0] == p[0]);
    }
}

/// The kind of a failed integer parse, one for each kind that
/// `std::num::IntErrorKind` names, and `Other` for any kind std adds later.
#[derive(Debug, Clone, Copy, PartialEq, Eq, Structural)]
pub enum ParseErrorKind {
    Empty,
    InvalidDigit,
    PosOverflow,
    NegOverflow,
    Zero,
    Other,
}

/// Some non-empty run of digits at the start of `d` already denotes a
/// number above `max`.
pub open spec fn prefix_overflows(d: Seq<u8>, radix: nat, max: nat) -> bool {
    exists|i: int|
        0 < i <= d.len() && all_digits(#[trigger] d.take(i), radix) && digits_value(d.take(i), radix)
            > max
}

/// The kind of error that parsing the text `b` in `radix` for a type whose
/// largest value is `max` reports: `Empty` for an empty text and only then;
/// `PosOverflow` for a well-formed number that is too large; `InvalidDigit`
/// when the text is not well-formed and no run of leading digits is too
/// large (a lone `+` among those). When a run of leading digits is too large
/// and a later byte is not a digit, the kind is one of those two.
pub open spec fn error_kind_of(b: Seq<u8>, radix: nat, max: nat, k: ParseErrorKind) -> bool {
    let d = unsigned_digits(b);
    &&& (k == ParseErrorKind::Empty <==> b.len() == 0)
    &&& b.len() > 0 ==> (k == ParseErrorKind::InvalidDigit || k == ParseErrorKind::PosOverflow)
    &&& b.len() > 0 && !prefix_overflows(d, radix, max) ==> k == ParseErrorKind::InvalidDigit
    &&& b.len() > 0 && d.len() > 0 && all_digits(d, radix) ==> k == ParseErrorKind::PosOverflow
}

/// Calls `u64::from_str_radix`. Claimed, as its documentation states: the
/// text is an optional `+` followed by digits of `radix` only, and the
/// call succeeds exactly when such a text denotes a number that fits in a
/// `u64`, returning that number. On failure the error comes back together
/// with its kind (`ParseIntError::kind`), and the kind is the one that
/// `error_kind_of` describes: `IntErrorKind` documents `Empty` for an empty
/// text, `InvalidDigit` for a digit outside the radix and for a `+` on its
/// own, and `PosOverflow` for a number too large for the type. The call
/// panics for a radix outside 2..=36, which `requires` rules out.
#[verifier::external_body]
pub(crate) fn u64_from_str_radix(src: &str, radix: u32) -> (r: Result<u64, (ParseErrorKind, ParseIntError)>)
    requires
        2 <= radix <= 36,
    ensures
        match r {
            Ok(v) => parse_bounded(src.spec_bytes(), radix as nat, u64::MAX as nat) == Some(
                v as nat,
            ),
            Err((k, _)) => parse_bounded(src.spec_bytes(), radix as nat, u64::MAX as nat) is None
                && error_kind_of(src.spec_bytes(), radix as nat, u64::MAX as nat, k),
        },
{
    match u64::from_str_radix(src, radix) {
        Ok(v) => Ok(v),
        Err(e) => {
            let kind = match e.kind() {
                IntErrorKind::Empty => ParseErrorKind::Empty,
                IntErrorKind::InvalidDigit => ParseErrorKind::InvalidDigit,
                IntErrorKind::PosOverflow => ParseErrorKind::PosOverflow,
                IntErrorKind::NegOverflow => ParseErrorKind::NegOverflow,
                IntErrorKind::Zero => ParseErrorKind::Zero,
                _ => ParseErrorKind::Other,
            };
            Err((kind, e))
        },
    }
}

/// Calls `str::parse::<usize>`, which reads base 10 as
/// `usize::from_str_radix(src, 10)` does. Claimed as for
/// [`u64_from_str_radix`], with the bound `usize::MAX`.
#[verifier::external_body]
pub(crate) fn parse_usize(src: &str) -> (r: Result<usize, ParseIntError>)
    ensures
        match r {
            Ok(v) => parse_bounded(src.spec_bytes(), 10, usize::MAX as nat) == Some(v as nat),
            Err(_) => parse_bounded(src.spec_bytes(), 10, usize::MAX as nat) is None,
        },
{
    src.parse::<usize>()
}

/// Calls `str::parse::<u32>`, which reads base 10 as
/// `u32::from_str_radix(src, 10)` does. Claimed as for
/// [`u64_from_str_radix`], with the bound `u32::MAX`.
#[verifier::external_body]
pub(crate) fn parse_u32(src: &str) -> (r: Result<u32, ParseIntError>)
    ensures
        match r {
            Ok(v) => parse_bounded(src.spec_bytes(), 10, u32::MAX as nat) == Some(v as nat),
            Err(_) => parse_bounded(src.spec_bytes(), 10, u32::MAX as nat) is None,
        },
{
    src.parse::<u32>()
}

} // verus!
