use vstd::prelude::*;
use vstd::string::StringExecFns;

use crate::code::Errno;

verus! {

/// The name of the C function that describes an error code, as it is
/// named when it refuses one.
pub const STRERROR_NAME: &'static str = "strerror_r";

/// The character of a decimal digit.
pub open spec fn digit_char(d: int) -> char {
    ((48 + d) as u32) as char
}

/// The decimal digits of `n`, most significant first, with no leading zero.
pub open spec fn decimal_digits(n: nat) -> Seq<char>
    decreases n,
{
    if n < 10 {
        seq![digit_char(n as int)]
    } else {
        decimal_digits(n / 10).push(digit_char((n % 10) as int))
    }
}

/// `n` written in decimal, with a leading `-` when it is negative.
pub open spec fn decimal(n: int) -> Seq<char> {
    if n < 0 {
        seq!['-'] + decimal_digits((-n) as nat)
    } else {
        decimal_digits(n as nat)
    }
}

/// `c` is one of the characters `0` to `9`.
pub open spec fn is_digit(c: char) -> bool {
    '0' <= c && c <= '9'
}

/// The value of a digit character.
pub open spec fn digit_value(c: char) -> int {
    (c as int) - ('0' as int)
}

/// The value of a string of digits read in base 10, most significant first.
pub open spec fn numeral_value(s: Seq<char>) -> int
    decreases s.len(),
{
    if s.len() == 0 {
        0
    } else {
        numeral_value(s.drop_last()) * 10 + digit_value(s.last())
    }
}

/// `s` is the base-10 numeral of `m`: one or more digits, no leading zero,
/// reading back as `m`.
pub open spec fn is_numeral_of(s: Seq<char>, m: int) -> bool {
    &&& s.len() > 0
    &&& forall|i: int| 0 <= i < s.len() ==> is_digit(#[trigger] s[i])
    &&& s.len() > 1 ==> s[0] != '0'
    &&& numeral_value(s) == m
}

/// `s` is how `n` is written in decimal: a `-` exactly when `n` is
/// negative, then the base-10 numeral of its magnitude.
pub open spec fn is_decimal_text(s: Seq<char>, n: int) -> bool {
    if n < 0 {
        s.len() > 0 && s[0] == '-' && is_numeral_of(s.drop_first(), -n)
    } else {
        is_numeral_of(s, n)
    }
}

proof fn lemma_digit_char(d: int)
    requires
        0 <= d < 10,
    ensures
        is_digit(digit_char(d)),
        digit_value(digit_char(d)) == d,
{
    assert(((48 + d) as u32) as char as int == 48 + d);
}

proof fn lemma_digits_are_numeral(m: nat)
    ensures
        is_numeral_of(decimal_digits(m), m as int),
        m >= 10 ==> decimal_digits(m)[0] != '0',
    decreases m,
{
    let s = decimal_digits(m);
    if m < 10 {
        lemma_digit_char(m as int);
        assert(s.drop_last() =~= Seq::<char>::empty());
        assert(numeral_value(s.drop_last()) == 0);
        assert(numeral_value(s) == m);
    } else {
        let q = (m / 10) as nat;
        lemma_digits_are_numeral(q);
        lemma_digit_char((m % 10) as int);
        let p = decimal_digits(q);
        assert(s.drop_last() =~= p);
        assert(s[0] == p[0]);
        if q < 10 {
            lemma_digit_char(q as int);
        }
        assert forall|i: int| 0 <= i < s.len() implies is_digit(#[trigger] s[i]) by {
            if i < p.len() {
                assert(s[i] == p[i]);
            }
        }
        assert(numeral_value(p) == q);
        assert(numeral_value(s) == (m / 10) * 10 + m % 10);
        assert((m / 10) * 10 + m % 10 == m);
    }
}

/// `decimal(n)` is the ordinary decimal numeral of `n`: a `-` exactly when
/// `n` is negative, then digits with no leading zero that read back, in
/// base 10, as the magnitude of `n`.
pub proof fn lemma_decimal_reads_back(n: int)
    ensures
        is_decimal_text(decimal(n), n),
        decimal(n).len() > 0 && (decimal(n)[0] == '-' <==> n < 0),
{
    if n < 0 {
        lemma_digits_are_numeral((-n) as nat);
        assert(decimal(n).drop_first() =~= decimal_digits((-n) as nat));
    } else {
        lemma_digits_are_numeral(n as nat);
        let s = decimal(n);
        assert(is_digit(s[0]));
    }
}

/// The refusal text around the numerals `c` (the code) and `r` (the reason).
pub open spec fn refusal_text(c: Seq<char>, r: Seq<char>) -> Seq<char> {
    "OS error "@ + c + " ("@ + STRERROR_NAME@ + " returned error "@ + r + ")"@
}

/// What is shown for `code` when `strerror_r` refused it with `reason`.
pub open spec fn failure_text(code: i32, reason: i32) -> Seq<char> {
    "OS error "@ + decimal(code as int) + " ("@ + STRERROR_NAME@ + " returned error "@ + decimal(
        reason as int,
    ) + ")"@
}

/// What is shown for `code`, given what describing it gave.
pub open spec fn display_spec(code: Errno, described: Result<Seq<char>, Errno>) -> Seq<char> {
    match described {
        Ok(text) => text,
        Err(reason) => failure_text(code.0, reason.0),
    }
}

/// When describing succeeded, what is shown is the description itself,
/// whatever the code.
pub proof fn lemma_description_is_shown(code: Errno, description: Seq<char>)
    ensures
        display_spec(code, Ok(description)) == description,
{
}

/// When `strerror_r` refused a code, what is shown names the code and the
/// reason, each as its decimal numeral.
pub proof fn lemma_refusal_shows_both_codes(code: Errno, reason: Errno)
    ensures
        exists|c: Seq<char>, r: Seq<char>|
            is_decimal_text(c, code.0 as int) && is_decimal_text(r, reason.0 as int)
                && #[trigger] refusal_text(c, r) == display_spec(code, Err(reason)),
{
    lemma_decimal_reads_back(code.0 as int);
    lemma_decimal_reads_back(reason.0 as int);
    let c = decimal(code.0 as int);
    let r = decimal(reason.0 as int);
    assert(refusal_text(c, r) == display_spec(code, Err(reason)));
}

fn digit_text(d: u32) -> (text: &'static str)
    requires
        d < 10,
    ensures
        text@ == seq![digit_char(d as int)],
{
    proof {
        reveal_strlit("0");
        reveal_strlit("1");
        reveal_strlit("2");
        reveal_strlit("3");
        reveal_strlit("4");
        reveal_strlit("5");
        reveal_strlit("6");
        reveal_strlit("7");
        reveal_strlit("8");
        reveal_strlit("9");
    }
    match d {
        0 => "0",
        1 => "1",
        2 => "2",
        3 => "3",
        4 => "4",
        5 => "5",
        6 => "6",
        7 => "7",
        8 => "8",
        _ => "9",
    }
}

fn push_digits(out: &mut String, n: u32)
    ensures
        final(out)@ == old(out)@ + decimal_digits(n as nat),
    decreases n,
{
    if n >= 10 {
        push_digits(out, n / 10);
    }
    out.append(digit_text(n % 10));
    proof {
        if n >= 10 {
            assert(old(out)@ + decimal_digits(n as nat) =~= old(out)@ + decimal_digits((n / 10) as nat)
                + seq![digit_char((n % 10) as int)]);
        }
    }
}

/// Appends `n` in decimal to `out`.
pub fn push_decimal(out: &mut String, n: i32)
    ensures
        final(out)@ == old(out)@ + decimal(n as int),
        final(out)@.take(old(out)@.len() as int) == old(out)@,
        is_decimal_text(final(out)@.skip(old(out)@.len() as int), n as int),
{
    if n < 0 {
        out.append("-");
        proof {
            reveal_strlit("-");
        }
        let magnitude: u32 = (0i64 - n as i64) as u32;
        push_digits(out, magnitude);
        assert(final(out)@ =~= old(out)@ + decimal(n as int));
    } else {
        push_digits(out, n as u32);
    }
    proof {
        lemma_decimal_reads_back(n as int);
        assert(final(out)@.take(old(out)@.len() as int) =~= old(out)@);
        assert(final(out)@.skip(old(out)@.len() as int) =~= decimal(n as int));
    }
}

impl Errno {
    /// The text that `Display` shows for this code, given what describing
    /// it gave: the description itself, or, where `strerror_r` refused the
    /// code, `OS error <code> (strerror_r returned error <reason>)`.
    pub fn display_with(self, described: Result<&str, Errno>) -> (text: String)
        ensures
            text@ == display_spec(
                self,
                match described {
                    Ok(d) => Ok(d@),
                    Err(reason) => Err(reason),
                },
            ),
            described matches Ok(d) ==> text@ == d@,
            described matches Err(reason) ==> exists|c: Seq<char>, r: Seq<char>|
                is_decimal_text(c, self.0 as int) && is_decimal_text(r, reason.0 as int)
                    && #[trigger] refusal_text(c, r) == text@,
    {
        match described {
            Ok(description) => description.to_owned(),
            Err(reason) => {
                let mut text = String::new();
                text.append("OS error ");
                push_decimal(&mut text, self.0);
                text.append(" (");
                text.append(STRERROR_NAME);
                text.append(" returned error ");
                push_decimal(&mut text, reason.0);
                text.append(")");
                proof {
                    lemma_refusal_shows_both_codes(self, reason);
                }
                text
            },
        }
    }
}

} // verus!
