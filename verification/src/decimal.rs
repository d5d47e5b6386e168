//! Unsigned decimal numerals as they appear in wire data.
//!
//! A numeral is an optional `+` followed by one or more of the digits `0` to
//! `9`. Reading stops at the first place where the text stops being the
//! numeral of a `u64`, and the failure names what went wrong there.

use vstd::prelude::*;

verus! {

/// Why a text is not the decimal numeral of a `u64`.
#[derive(Clone, Copy, Debug, PartialEq, Eq, Structural)]
pub enum NumeralError {
    /// The text has no characters at all.
    Empty,
    /// A character other than `0` to `9` stands where a digit is due.
    InvalidDigit,
    /// The digits up to some place already denote more than `u64::MAX`.
    PosOverflow,
}

impl NumeralError {
    /// The sentence that describes this failure.
    pub open spec fn message(self) -> Seq<char> {
        match self {
            NumeralError::Empty => "cannot parse integer from empty string"@,
            NumeralError::InvalidDigit => "invalid digit found in string"@,
            NumeralError::PosOverflow => "number too large to fit in target type"@,
        }
    }

    /// Renders the failure as text.
    pub fn to_string(&self) -> (text: String)
        ensures
            text@ == self.message(),
    {
        match self {
            NumeralError::Empty => String::from_str("cannot parse integer from empty string"),
            NumeralError::InvalidDigit => String::from_str("invalid digit found in string"),
            NumeralError::PosOverflow => String::from_str(
                "number too large to fit in target type",
            ),
        }
    }
}

/// Whether `c` is one of the ten decimal digits.
pub open spec fn is_digit(c: char) -> bool {
    '0' <= c && c <= '9'
}

/// The number a decimal digit stands for.
pub open spec fn digit_value(c: char) -> nat
    recommends
        is_digit(c),
{
    (c as u32 - '0' as u32) as nat
}

/// The digit that stands for `d`.
pub open spec fn digit_char(d: nat) -> char
    recommends
        d <= 9,
{
    ('0' as u8 + d) as u8 as char
}

/// Whether every character of `s` is a decimal digit.
pub open spec fn all_digits(s: Seq<char>) -> bool {
    forall|i: int| 0 <= i < s.len() ==> is_digit(#[trigger] s[i])
}

/// The number that a string of digits denotes, most significant digit first.
pub open spec fn digits_value(s: Seq<char>) -> nat
    decreases s.len(),
{
    if s.len() == 0 {
        0
    } else {
        digits_value(s.drop_last()) * 10 + digit_value(s.last())
    }
}

/// Reads `s` as a run of digits from left to right. The result is the value,
/// or the failure met at the first place where the run stops being the
/// numeral of a `u64`: a character that is no digit, or a digit that carries
/// the value past `u64::MAX`.
pub open spec fn read_digits(s: Seq<char>) -> Result<u64, NumeralError>
    decreases s.len(),
{
    if s.len() == 0 {
        Ok(0)
    } else {
        match read_digits(s.drop_last()) {
            Err(e) => Err(e),
            Ok(v) => if !is_digit(s.last()) {
                Err(NumeralError::InvalidDigit)
            } else if v * 10 + digit_value(s.last()) > u64::MAX {
                Err(NumeralError::PosOverflow)
            } else {
                Ok((v * 10 + digit_value(s.last())) as u64)
            },
        }
    }
}

/// The digits of a numeral: the text without its leading `+`, if it has one.
pub open spec fn numeral_digits(s: Seq<char>) -> Seq<char> {
    if s.len() > 0 && s[0] == '+' {
        s.subrange(1, s.len() as int)
    } else {
        s
    }
}

/// What a text denotes when read as the decimal numeral of a `u64`.
pub open spec fn parse_u64_spec(s: Seq<char>) -> Result<u64, NumeralError> {
    if s.len() == 0 {
        Err(NumeralError::Empty)
    } else if numeral_digits(s).len() == 0 {
        Err(NumeralError::InvalidDigit)
    } else {
        read_digits(numeral_digits(s))
    }
}

/// A failure met in a prefix of `s` is the failure of `s`.
proof fn lemma_failure_persists(s: Seq<char>, k: int)
    requires
        0 <= k <= s.len(),
        read_digits(s.subrange(0, k)) is Err,
    ensures
        read_digits(s) == read_digits(s.subrange(0, k)),
    decreases s.len(),
{
    if k == s.len() {
        assert(s.subrange(0, k) =~= s);
    } else {
        assert(s.drop_last().subrange(0, k) =~= s.subrange(0, k));
        lemma_failure_persists(s.drop_last(), k);
    }
}

/// A run of digits is read in full exactly when each character is a digit
/// and the value fits a `u64`; what is read is then the value of the run.
pub proof fn lemma_read_digits_ok(s: Seq<char>)
    ensures
        read_digits(s) is Ok <==> all_digits(s) && digits_value(s) <= u64::MAX,
        read_digits(s) matches Ok(v) ==> v == digits_value(s),
    decreases s.len(),
{
    if s.len() > 0 {
        let front = s.drop_last();
        lemma_read_digits_ok(front);
        if all_digits(s) {
            assert forall|i: int| 0 <= i < front.len() implies is_digit(#[trigger] front[i]) by {
                assert(front[i] == s[i]);
            }
        }
        if all_digits(front) && is_digit(s.last()) {
            assert forall|i: int| 0 <= i < s.len() implies is_digit(#[trigger] s[i]) by {
                if i < front.len() {
                    assert(s[i] == front[i]);
                }
            }
        }
    }
}

/// A text is the numeral of a `u64` exactly when it is an optional `+`
/// followed by at least one digit, all of them digits, whose value fits;
/// the number read is that value.
pub proof fn lemma_parse_u64_ok(s: Seq<char>)
    ensures
        parse_u64_spec(s) is Ok <==> numeral_digits(s).len() > 0 && all_digits(numeral_digits(s))
            && digits_value(numeral_digits(s)) <= u64::MAX,
        parse_u64_spec(s) matches Ok(v) ==> v == digits_value(numeral_digits(s)),
{
    lemma_read_digits_ok(numeral_digits(s));
}

/// The number a decimal digit stands for, if `c` is one.
pub fn digit_of(c: char) -> (d: Option<u8>)
    ensures
        d is Some <==> is_digit(c),
        d matches Some(v) ==> v == digit_value(c) && v <= 9,
{
    if c >= '0' && c <= '9' {
        Some((c as u32 - '0' as u32) as u8)
    } else {
        None
    }
}

/// Reads `s` as the decimal numeral of a `u64`, in one pass over its
/// characters.
pub fn parse_u64(s: &str) -> (r: Result<u64, NumeralError>)
    ensures
        r == parse_u64_spec(s@),
{
    let mut value: u64 = 0;
    let mut at_start = true;
    let mut signed = false;
    let mut has_digits = false;
    for c in it: s.chars()
        invariant
            it.seq() == s@,
            at_start <==> it.index() == 0,
            signed <==> it.index() > 0 && s@[0] == '+',
            has_digits <==> it.index() > (if signed { 1int } else { 0int }),
            read_digits(s@.subrange(if signed { 1int } else { 0int }, it.index() as int)) == Ok::<
                u64,
                NumeralError,
            >(value) || at_start,
            at_start ==> value == 0,
    {
        let ghost k = it.index() as int;
        if at_start && c == '+' {
            signed = true;
            assert(s@.subrange(1, 1) =~= Seq::<char>::empty());
        } else {
            let ghost from = if signed { 1int } else { 0int };
            let ghost digits = s@.subrange(from, s@.len() as int);
            let ghost seen = s@.subrange(from, k + 1);
            assert(digits == numeral_digits(s@));
            assert(seen.drop_last() =~= s@.subrange(from, k));
            assert(seen.last() == c);
            assert(digits.subrange(0, k + 1 - from) =~= seen);
            assert(read_digits(seen.drop_last()) == Ok::<u64, NumeralError>(value)) by {
                if at_start {
                    assert(s@.subrange(0, 0) =~= Seq::<char>::empty());
                }
            }
            match digit_of(c) {
                None => {
                    proof {
                        lemma_failure_persists(digits, k + 1 - from);
                    }
                    return Err(NumeralError::InvalidDigit);
                },
                Some(d) => {
                    if value > (u64::MAX - d as u64) / 10 {
                        proof {
                            lemma_failure_persists(digits, k + 1 - from);
                        }
                        return Err(NumeralError::PosOverflow);
                    }
                    value = value * 10 + d as u64;
                },
            }
            has_digits = true;
        }
        at_start = false;
    }
    if at_start {
        return Err(NumeralError::Empty);
    }
    if !has_digits {
        return Err(NumeralError::InvalidDigit);
    }
    assert(numeral_digits(s@) =~= s@.subrange(if signed { 1int } else { 0int }, s@.len() as int));
    Ok(value)
}

} // verus!
