//! Calls into code that is not verified here: the `parse_int` crate and
//! `str::to_uppercase`.
use vstd::prelude::*;
use crate::text::{all_ascii, trim, upper};

verus! {

/// What `parse_int::parse::<i32>` gives for the text `s`: `None` where it
/// returns an error.
pub uninterp spec fn parse_int_i32(s: Seq<char>) -> Option<i32>;

/// What `str::to_uppercase` gives for the text `s`.
pub uninterp spec fn uppercase(s: Seq<char>) -> Seq<char>;

/// All characters of `s` are decimal digits.
pub open spec fn all_decimal(s: Seq<char>) -> bool {
    forall|i: int| 0 <= i < s.len() ==> '0' <= #[trigger] s[i] <= '9'
}

/// The number that the decimal digits `s` write.
pub open spec fn decimal_value(s: Seq<char>) -> nat
    decreases s.len(),
{
    if s.len() == 0 {
        0
    } else {
        decimal_value(s.drop_last()) * 10 + (s.last() as nat - '0' as nat) as nat
    }
}

/// The value of `c` as a digit of `radix` (at most 36), as `char::to_digit`
/// reads it: `0`..`9`, then `a`..`z` or `A`..`Z` from ten on.
pub open spec fn digit_of(c: char, radix: nat) -> Option<nat> {
    let v: int = if '0' <= c && c <= '9' {
        c as int - '0' as int
    } else if 'a' <= c && c <= 'z' {
        c as int - 'a' as int + 10
    } else if 'A' <= c && c <= 'Z' {
        c as int - 'A' as int + 10
    } else {
        36
    };
    if v < radix {
        Some(v as nat)
    } else {
        None
    }
}

/// All characters of `s` are digits of `radix`.
pub open spec fn all_digits(s: Seq<char>, radix: nat) -> bool {
    forall|i: int| 0 <= i < s.len() ==> #[trigger] digit_of(s[i], radix) is Some
}

/// The number that the digits `s` write in `radix`.
pub open spec fn radix_value(s: Seq<char>, radix: nat) -> nat
    decreases s.len(),
{
    if s.len() == 0 {
        0
    } else {
        let d: nat = match digit_of(s.last(), radix) {
            Some(v) => v,
            None => 0,
        };
        radix_value(s.drop_last(), radix) * radix + d
    }
}

/// `s` without its `_` characters.
pub open spec fn drop_underscores(s: Seq<char>) -> Seq<char>
    decreases s.len(),
{
    if s.len() == 0 {
        s
    } else if s.last() == '_' {
        drop_underscores(s.drop_last())
    } else {
        drop_underscores(s.drop_last()).push(s.last())
    }
}

/// The radix that a prefix `0x`, `0b` or `0o` (either case) of `s` selects,
/// and the length of that prefix; radix ten and no prefix otherwise.
pub open spec fn radix_prefix(s: Seq<char>) -> (nat, int) {
    if s.len() >= 2 && s[0] == '0' && (s[1] == 'x' || s[1] == 'X') {
        (16, 2)
    } else if s.len() >= 2 && s[0] == '0' && (s[1] == 'b' || s[1] == 'B') {
        (2, 2)
    } else if s.len() >= 2 && s[0] == '0' && (s[1] == 'o' || s[1] == 'O') {
        (8, 2)
    } else {
        (10, 0)
    }
}

/// The trimmed text `t` on which `parse_int::parse::<i32>` overflows: after
/// its leading `-` (not followed by `_`), the radix prefix and with `_`
/// removed, the rest is `-` and digits that write 2^31. That rest reads as
/// `i32::MIN`, which the crate then negates.
pub open spec fn negation_overflows(t: Seq<char>) -> bool {
    &&& t.len() >= 1 && t[0] == '-'
    &&& !(t.len() >= 2 && t[1] == '_')
    &&& {
        let rest = t.drop_first();
        let radix = radix_prefix(rest).0;
        let d = drop_underscores(rest.subrange(radix_prefix(rest).1, rest.len() as int));
        d.len() >= 2 && d[0] == '-' && all_digits(d.drop_first(), radix) && radix_value(
            d.drop_first(),
            radix,
        ) == 0x8000_0000
    }
}

/// Calls `parse_int::parse::<i32>`, mapping its error to `None`.
///
/// The contract names the result `parse_int_i32(s)` and claims three facts
/// of the crate's source. A run of one to nine decimal digits parses to its
/// decimal value (no sign, prefix or separator applies, and the value
/// fits). After one leading `-`, such a run parses to the negated value.
/// After `--`, the crate strips one `-`, reads the rest with its sign
/// (`i32::from_str_radix`) and negates that, which gives the value itself.
/// What else the crate accepts (`+`, `0x`/`0o`/`0b` prefixes, `_`
/// separators, surrounding white space) is left to the name. The crate
/// negates with `*`, which overflows exactly on the text that
/// `negation_overflows` describes; that text is left out.
#[verifier::external_body]
pub(crate) fn parse_i32(s: &str) -> (r: Option<i32>)
    requires
        !negation_overflows(trim(s@)),
    ensures
        r == parse_int_i32(s@),
        all_decimal(s@) && 1 <= s@.len() <= 9 ==> r == Some(decimal_value(s@) as i32),
        2 <= s@.len() <= 10 && s@[0] == '-' && all_decimal(s@.drop_first()) ==> r == Some(
            (-decimal_value(s@.drop_first())) as i32,
        ),
        3 <= s@.len() <= 11 && s@[0] == '-' && s@[1] == '-' && all_decimal(s@.subrange(2, s@.len() as int))
            ==> r == Some(decimal_value(s@.subrange(2, s@.len() as int)) as i32),
{
    parse_int::parse::<i32>(s).ok()
}

/// Calls `str::to_uppercase`; the contract names its result `uppercase(s)`
/// and claims what the documentation of `str::to_ascii_uppercase` says of
/// ASCII text: `to_uppercase` maps `a`..`z` to `A`..`Z` as it does, and
/// keeps the other ASCII characters. What it does to other characters
/// (Unicode case mappings, some of which change the length) is left to the
/// name.
#[verifier::external_body]
pub(crate) fn to_upper(s: &str) -> (r: String)
    ensures
        r@ == uppercase(s@),
        all_ascii(s@) ==> r@ == upper(s@),
{
    s.to_uppercase()
}

} // verus!
