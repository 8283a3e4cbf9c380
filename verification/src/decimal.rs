//! Verified decimal parse and unparse for integer-typed fields.
//!
//! A text control bound to an integer field needs a `parse` function from
//! the widget's string to the integer and an `unparse` function back.
//! This module provides both, specified against one mathematical decimal
//! representation, together with the round-trip guarantee: unparsing any
//! representable value and parsing the result yields the value again.
//!
//! The accepted grammar and the error messages mirror the standard
//! library's integer parsing: an optional `+` or `-` sign followed by one
//! or more ascii digits, rejected with "invalid digit found in string",
//! "cannot parse integer from empty string", or "number too
//! large/small to fit in target type".

use vstd::prelude::*;

verus! {

/// Whether `c` is an ascii digit.
pub open spec fn is_digit_char(c: char) -> bool {
    c == '0' || c == '1' || c == '2' || c == '3' || c == '4' || c == '5' || c == '6' || c == '7'
        || c == '8' || c == '9'
}

/// The numeric value of an ascii digit.
pub open spec fn char_digit(c: char) -> int {
    if c == '0' {
        0
    } else if c == '1' {
        1
    } else if c == '2' {
        2
    } else if c == '3' {
        3
    } else if c == '4' {
        4
    } else if c == '5' {
        5
    } else if c == '6' {
        6
    } else if c == '7' {
        7
    } else if c == '8' {
        8
    } else {
        9
    }
}

/// The ascii digit for a value below ten.
pub open spec fn digit_char(d: int) -> char {
    if d == 0 {
        '0'
    } else if d == 1 {
        '1'
    } else if d == 2 {
        '2'
    } else if d == 3 {
        '3'
    } else if d == 4 {
        '4'
    } else if d == 5 {
        '5'
    } else if d == 6 {
        '6'
    } else if d == 7 {
        '7'
    } else if d == 8 {
        '8'
    } else {
        '9'
    }
}

/// The decimal representation of a natural number: most significant digit
/// first, no leading zeros except for zero itself.
pub open spec fn dec_rep(n: nat) -> Seq<char>
    decreases n,
{
    if n < 10 {
        seq![digit_char(n as int)]
    } else {
        dec_rep(n / 10) + seq![digit_char((n % 10) as int)]
    }
}

/// Whether every character of `s` is an ascii digit.
pub open spec fn all_digits(s: Seq<char>) -> bool {
    forall|i: int| 0 <= i < s.len() ==> is_digit_char(s[i])
}

/// The numeric value of a sequence of ascii digits.
pub open spec fn dec_val(s: Seq<char>) -> nat
    decreases s.len(),
{
    if s.len() == 0 {
        0
    } else {
        (dec_val(s.drop_last()) * 10 + char_digit(s.last())) as nat
    }
}

/// The decimal representation of a signed value: a minus sign before the
/// magnitude of a negative value.
pub open spec fn int_rep(v: int) -> Seq<char> {
    if v < 0 {
        seq!['-'] + dec_rep((-v) as nat)
    } else {
        dec_rep(v as nat)
    }
}

/// Splits an optional leading sign off an integer string: the result is
/// whether the value is negated, and the digits that should follow.
pub open spec fn sign_split(s: Seq<char>) -> (bool, Seq<char>) {
    if s.len() > 0 && s[0] == '-' {
        (true, s.skip(1))
    } else if s.len() > 0 && s[0] == '+' {
        (false, s.skip(1))
    } else {
        (false, s)
    }
}

/// Whether `s` is a well-formed integer string: an optional sign followed
/// by at least one digit, with nothing else.
pub open spec fn valid_int_str(s: Seq<char>) -> bool {
    let (_, digits) = sign_split(s);
    digits.len() > 0 && all_digits(digits)
}

/// The value denoted by a well-formed integer string.
pub open spec fn int_val(s: Seq<char>) -> int {
    let (negative, digits) = sign_split(s);
    if negative {
        -(dec_val(digits) as int)
    } else {
        dec_val(digits) as int
    }
}

/// The digits of `dec_rep` are digits, there is at least one, and they
/// denote the number they represent.
pub proof fn lemma_dec_rep_val(n: nat)
    ensures
        dec_rep(n).len() >= 1,
        all_digits(dec_rep(n)),
        dec_val(dec_rep(n)) == n,
    decreases n,
{
    if n < 10 {
        assert(dec_rep(n) =~= seq![digit_char(n as int)]);
        assert(dec_val(dec_rep(n)) == dec_val(dec_rep(n).drop_last()) * 10 + char_digit(
            dec_rep(n).last(),
        ));
        assert(dec_rep(n).drop_last() =~= Seq::<char>::empty());
    } else {
        lemma_dec_rep_val(n / 10);
        let s = dec_rep(n);
        assert(s =~= dec_rep(n / 10) + seq![digit_char((n % 10) as int)]);
        assert(s.drop_last() =~= dec_rep(n / 10));
        assert(s.last() == digit_char((n % 10) as int));
        assert(dec_val(s) == (n / 10) * 10 + (n % 10));
        assert((n / 10) * 10 + (n % 10) == n) by {
            vstd::arithmetic::div_mod::lemma_fundamental_div_mod(n as int, 10);
        }
        assert(forall|i: int|
            0 <= i < s.len() ==> is_digit_char(
                #[trigger] s[i],
            )) by {
            assert(forall|i: int| 0 <= i < dec_rep(n / 10).len() ==> s[i] == dec_rep(n / 10)[i]);
        }
    }
}

/// The message [`parse_i64`] rejects `s` with, assuming it rejects it:
/// an empty string, a string that is not sign-plus-digits, and a value
/// outside the target's range are told apart, in that order.
pub open spec fn i64_parse_error(s: Seq<char>) -> Seq<char> {
    if s.len() == 0 {
        "cannot parse integer from empty string"@
    } else if !valid_int_str(s) {
        "invalid digit found in string"@
    } else if int_val(s) > i64::MAX {
        "number too large to fit in target type"@
    } else {
        "number too small to fit in target type"@
    }
}

/// The ascii digit for a value below ten, as a one-character string.
fn digit_to_str(d: u64) -> (r: &'static str)
    requires
        d < 10,
    ensures
        r@ =~= seq![digit_char(d as int)],
{
    proof {
        reveal_strlit("0");
        reveal_strlit("1");
        reveal_strlit("2");
        reveal_strlit("3");
        reveal_strlit("4");
        reveal_strlit("5");
        reveal_strlit("6");
        reveal_strlit("7");
        reveal_strlit("8");
        reveal_strlit("9");
    }
    if d == 0 {
        "0"
    } else if d == 1 {
        "1"
    } else if d == 2 {
        "2"
    } else if d == 3 {
        "3"
    } else if d == 4 {
        "4"
    } else if d == 5 {
        "5"
    } else if d == 6 {
        "6"
    } else if d == 7 {
        "7"
    } else if d == 8 {
        "8"
    } else {
        "9"
    }
}

/// Renders a natural number in decimal.
pub fn u64_to_dec(n: u64) -> (r: String)
    ensures
        r@ == dec_rep(n as nat),
    decreases n,
{
    if n < 10 {
        digit_to_str(n).to_owned()
    } else {
        let mut s = u64_to_dec(n / 10);
        s.append(digit_to_str(n % 10));
        proof {
            assert(s@ =~= dec_rep((n / 10) as nat) + seq![digit_char((n % 10) as int)]);
        }
        s
    }
}

/// Renders a signed value in decimal: `unparse` for an integer-typed
/// field bound to a text control.
pub fn i64_to_dec(v: i64) -> (r: String)
    ensures
        r@ == int_rep(v as int),
{
    if v >= 0 {
        u64_to_dec(v as u64)
    } else {
        // The magnitude, computed without overflowing at i64::MIN.
        let magnitude: u64 = (-(v + 1)) as u64 + 1;
        assert(magnitude == -(v as int));
        let mut s = "-".to_owned();
        let digits = u64_to_dec(magnitude);
        s.append(digits.as_str());
        proof {
            reveal_strlit("-");
            assert(s@ =~= seq!['-'] + dec_rep((-(v as int)) as nat));
        }
        s
    }
}

/// The numeric value of an ascii digit character, or a rejection.
fn char_to_digit(c: char) -> (r: Option<u64>)
    ensures
        r is Some <==> is_digit_char(c),
        r matches Some(d) ==> d < 10 && d as int == char_digit(c),
{
    match c {
        '0' => Some(0),
        '1' => Some(1),
        '2' => Some(2),
        '3' => Some(3),
        '4' => Some(4),
        '5' => Some(5),
        '6' => Some(6),
        '7' => Some(7),
        '8' => Some(8),
        '9' => Some(9),
        _ => None,
    }
}

/// Parses a signed decimal integer: `parse` for an integer-typed field
/// bound to a text control.
///
/// Accepts an optional `+` or `-` sign followed by one or more ascii
/// digits; the whole string is checked before the value's range is, so an
/// unparseable string is always reported as such.
pub fn parse_i64(s: &str) -> (r: Result<i64, String>)
    ensures
        r is Ok <==> valid_int_str(s@) && i64::MIN <= int_val(s@) <= i64::MAX,
        r matches Ok(v) ==> v as int == int_val(s@),
        r matches Err(m) ==> m@ == i64_parse_error(s@),
{
    let len = s.unicode_len();
    if len == 0 {
        return Err("cannot parse integer from empty string".to_owned());
    }
    let first = s.get_char(0);
    let negative: bool = first == '-';
    let start: usize = if first == '-' || first == '+' {
        1
    } else {
        0
    };
    let ghost digits = sign_split(s@).1;
    proof {
        assert(digits =~= s@.skip(start as int));
        assert(sign_split(s@).0 == negative);
    }
    if start == len {
        // A sign with no digits after it.
        proof {
            assert(digits.len() == 0);
            assert(!valid_int_str(s@));
        }
        return Err("invalid digit found in string".to_owned());
    }
    // The largest magnitude the target type can hold with this sign.
    let limit: u64 = if negative {
        9223372036854775808
    } else {
        9223372036854775807
    };
    let mut acc: u64 = 0;
    let mut too_big: bool = false;
    let mut i: usize = start;
    while i < len
        invariant
            start <= i <= len,
            len == s@.len(),
            start + digits.len() == len,
            digits == s@.skip(start as int),
            sign_split(s@).0 == negative,
            sign_split(s@).1 == digits,
            all_digits(s@.subrange(start as int, i as int)),
            !too_big ==> acc == dec_val(s@.subrange(start as int, i as int)) && acc <= limit,
            too_big ==> dec_val(s@.subrange(start as int, i as int)) > limit,
            limit == if negative { 9223372036854775808u64 } else { 9223372036854775807u64 },
        decreases len - i,
    {
        let c = s.get_char(i);
        let d = match char_to_digit(c) {
            Some(d) => d,
            None => {
                proof {
                    assert(digits[i as int - start as int] == s@[i as int]);
                    assert(!is_digit_char(digits[i as int - start as int]));
                    assert(!all_digits(digits));
                    assert(!valid_int_str(s@));
                }
                return Err("invalid digit found in string".to_owned());
            },
        };
        let ghost pre = s@.subrange(start as int, i as int);
        let ghost post = s@.subrange(start as int, i as int + 1);
        proof {
            assert(post.drop_last() =~= pre);
            assert(post.last() == s@[i as int]);
            assert(dec_val(post) == dec_val(pre) * 10 + char_digit(s@[i as int]));
        }
        if too_big {
            proof {
                assert(dec_val(pre) * 10 >= dec_val(pre)) by (nonlinear_arith);
            }
        } else if acc > (limit - d) / 10 {
            too_big = true;
            proof {
                assert(dec_val(pre) * 10 + d > limit) by (nonlinear_arith)
                    requires
                        dec_val(pre) > (limit - d) / 10,
                        d < 10,
                        d <= limit,
                ;
            }
        } else {
            proof {
                assert(acc * 10 + d <= limit) by (nonlinear_arith)
                    requires
                        acc <= (limit - d) / 10,
                        d < 10,
                        d <= limit,
                ;
            }
            acc = acc * 10 + d;
        }
        i = i + 1;
    }
    proof {
        assert(s@.subrange(start as int, len as int) =~= digits);
    }
    if too_big {
        if negative {
            return Err("number too small to fit in target type".to_owned());
        } else {
            return Err("number too large to fit in target type".to_owned());
        }
    }
    if negative {
        if acc == 9223372036854775808 {
            Ok(i64::MIN)
        } else {
            Ok(-(acc as i64))
        }
    } else {
        Ok(acc as i64)
    }
}

/// Round trip: rendering any `i64` with [`i64_to_dec`] yields a
/// well-formed integer string that denotes the value itself, so parsing
/// it back with [`parse_i64`] returns `Ok` of the original value.
pub proof fn lemma_round_trip(v: i64)
    ensures
        valid_int_str(int_rep(v as int)),
        int_val(int_rep(v as int)) == v as int,
{
    if v >= 0 {
        let s = int_rep(v as int);
        lemma_dec_rep_val(v as nat);
        assert(is_digit_char(s[0]));
        assert(sign_split(s) == (false, s));
        assert(dec_val(s) == v as nat);
    } else {
        let s = int_rep(v as int);
        let magnitude = (-(v as int)) as nat;
        lemma_dec_rep_val(magnitude);
        assert(s[0] == '-');
        assert(sign_split(s).0 == true);
        assert(sign_split(s).1 =~= dec_rep(magnitude));
        assert(dec_val(dec_rep(magnitude)) == magnitude);
    }
}

/// The message [`parse_i32`] rejects `s` with, assuming it rejects it.
pub open spec fn i32_parse_error(s: Seq<char>) -> Seq<char> {
    if s.len() == 0 {
        "cannot parse integer from empty string"@
    } else if !valid_int_str(s) {
        "invalid digit found in string"@
    } else if int_val(s) > i32::MAX {
        "number too large to fit in target type"@
    } else {
        "number too small to fit in target type"@
    }
}

/// Renders a signed 32-bit value in decimal.
pub fn i32_to_dec(v: i32) -> (r: String)
    ensures
        r@ == int_rep(v as int),
{
    i64_to_dec(v as i64)
}

/// Parses a signed decimal integer into 32 bits, with the same grammar
/// and messages as [`parse_i64`].
pub fn parse_i32(s: &str) -> (r: Result<i32, String>)
    ensures
        r is Ok <==> valid_int_str(s@) && i32::MIN <= int_val(s@) <= i32::MAX,
        r matches Ok(v) ==> v as int == int_val(s@),
        r matches Err(m) ==> m@ == i32_parse_error(s@),
{
    match parse_i64(s) {
        Ok(v) => {
            if v > i32::MAX as i64 {
                Err("number too large to fit in target type".to_owned())
            } else if v < i32::MIN as i64 {
                Err("number too small to fit in target type".to_owned())
            } else {
                Ok(v as i32)
            }
        },
        Err(m) => Err(m),
    }
}

/// Whether `c` is ascii whitespace.
pub open spec fn is_space_char(c: char) -> bool {
    c == ' ' || c == '\t' || c == '\n' || c == '\r'
}

/// `s` without its leading ascii whitespace.
pub open spec fn trim_front(s: Seq<char>) -> Seq<char>
    decreases s.len(),
{
    if s.len() > 0 && is_space_char(s[0]) {
        trim_front(s.skip(1))
    } else {
        s
    }
}

/// `s` without its trailing ascii whitespace.
pub open spec fn trim_back(s: Seq<char>) -> Seq<char>
    decreases s.len(),
{
    if s.len() > 0 && is_space_char(s.last()) {
        trim_back(s.drop_last())
    } else {
        s
    }
}

/// `s` without leading and trailing ascii whitespace.
pub open spec fn trimmed(s: Seq<char>) -> Seq<char> {
    trim_back(trim_front(s))
}

/// Whether `c` is ascii whitespace.
fn is_space(c: char) -> (r: bool)
    ensures
        r == is_space_char(c),
{
    match c {
        ' ' => true,
        '\t' => true,
        '\n' => true,
        '\r' => true,
        _ => false,
    }
}

/// Dropping `lo` leading spaces trims the front, when the character after
/// them (if any) is no space.
proof fn lemma_trim_front_at(s: Seq<char>, lo: int)
    requires
        0 <= lo <= s.len(),
        forall|i: int| 0 <= i < lo ==> is_space_char(s[i]),
        lo < s.len() ==> !is_space_char(s[lo]),
    ensures
        trim_front(s) == s.skip(lo),
    decreases lo,
{
    if lo == 0 {
        assert(s.skip(0) =~= s);
    } else {
        lemma_trim_front_at(s.skip(1), lo - 1);
        assert(s.skip(1).skip(lo - 1) =~= s.skip(lo));
    }
}

/// Keeping the first `hi` characters trims the back, when the character
/// just before the cut (if any) is no space.
proof fn lemma_trim_back_at(s: Seq<char>, hi: int)
    requires
        0 <= hi <= s.len(),
        forall|i: int| hi <= i < s.len() ==> is_space_char(s[i]),
        hi > 0 ==> !is_space_char(s[hi - 1]),
    ensures
        trim_back(s) == s.subrange(0, hi),
    decreases s.len() - hi,
{
    if hi == s.len() {
        assert(s.subrange(0, hi) =~= s);
    } else {
        lemma_trim_back_at(s.drop_last(), hi);
        assert(s.drop_last().subrange(0, hi) =~= s.subrange(0, hi));
    }
}

/// Strips leading and trailing ascii whitespace (space, tab, newline,
/// carriage return).
pub fn trim_spaces(s: &str) -> (r: &str)
    ensures
        r@ == trimmed(s@),
{
    let len = s.unicode_len();
    let mut lo: usize = 0;
    while lo < len && is_space(s.get_char(lo))
        invariant
            0 <= lo <= len,
            len == s@.len(),
            forall|i: int| 0 <= i < lo ==> is_space_char(s@[i]),
        decreases len - lo,
    {
        lo = lo + 1;
    }
    let mut hi: usize = len;
    while hi > lo && is_space(s.get_char(hi - 1))
        invariant
            lo <= hi <= len,
            len == s@.len(),
            forall|i: int| 0 <= i < lo ==> is_space_char(s@[i]),
            lo < len ==> !is_space_char(s@[lo as int]),
            forall|i: int| hi <= i < len ==> is_space_char(s@[i]),
        decreases hi,
    {
        hi = hi - 1;
    }
    proof {
        lemma_trim_front_at(s@, lo as int);
        let t = s@.skip(lo as int);
        lemma_trim_back_at(t, hi - lo as int);
        assert(t.subrange(0, hi - lo as int) =~= s@.subrange(lo as int, hi as int));
    }
    s.substring_char(lo, hi)
}

/// Parses a signed decimal integer after stripping surrounding ascii
/// whitespace.
pub fn parse_i64_trimmed(s: &str) -> (r: Result<i64, String>)
    ensures
        r is Ok <==> valid_int_str(trimmed(s@)) && i64::MIN <= int_val(trimmed(s@)) <= i64::MAX,
        r matches Ok(v) ==> v as int == int_val(trimmed(s@)),
        r matches Err(m) ==> m@ == i64_parse_error(trimmed(s@)),
{
    parse_i64(trim_spaces(s))
}

/// Parses a signed decimal integer into 32 bits after stripping
/// surrounding ascii whitespace.
pub fn parse_i32_trimmed(s: &str) -> (r: Result<i32, String>)
    ensures
        r is Ok <==> valid_int_str(trimmed(s@)) && i32::MIN <= int_val(trimmed(s@)) <= i32::MAX,
        r matches Ok(v) ==> v as int == int_val(trimmed(s@)),
        r matches Err(m) ==> m@ == i32_parse_error(trimmed(s@)),
{
    parse_i32(trim_spaces(s))
}

/// Parses an optional integer field: an unparseable or out-of-range
/// string stands for "no value" instead of an error.
pub fn parse_i64_optional(s: &str) -> (r: Option<i64>)
    ensures
        r is Some <==> valid_int_str(s@) && i64::MIN <= int_val(s@) <= i64::MAX,
        r matches Some(v) ==> v as int == int_val(s@),
{
    match parse_i64(s) {
        Ok(v) => Some(v),
        Err(_) => None,
    }
}

/// Renders an optional integer field: "no value" displays as the empty
/// string.
pub fn i64_optional_to_dec(v: Option<i64>) -> (r: String)
    ensures
        v matches Some(x) ==> r@ == int_rep(x as int),
        v is None ==> r@ == Seq::<char>::empty(),
{
    match v {
        Some(x) => i64_to_dec(x),
        None => String::new(),
    }
}

/// Parses an integer field that falls back to zero: an unparseable or
/// out-of-range string stands for the default value.
pub fn parse_i64_or_default(s: &str) -> (r: i64)
    ensures
        valid_int_str(s@) && i64::MIN <= int_val(s@) <= i64::MAX ==> r as int == int_val(s@),
        !(valid_int_str(s@) && i64::MIN <= int_val(s@) <= i64::MAX) ==> r == 0,
{
    match parse_i64(s) {
        Ok(v) => v,
        Err(_) => 0,
    }
}

} // verus!
