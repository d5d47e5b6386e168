//! The few notions of HTTP that the queue protocol is stated in: request
//! methods, status codes, and header values as a reply presents them.

use crate::decimal::digit_char;
use vstd::prelude::*;

verus! {

/// The request methods that the queue is spoken to with.
#[derive(Clone, Copy, Debug, PartialEq, Eq, Structural)]
pub enum HttpMethod {
    Post,
    Put,
    Delete,
}

/// The status code of an HTTP reply: a number of three decimal digits.
#[derive(Clone, Copy, Debug, PartialEq, Eq)]
pub struct HttpStatus {
    code: u16,
}

/// The text that presents a status code to a reader: the number, a space and
/// the reason phrase registered for it.
pub uninterp spec fn status_line(code: u16) -> Seq<char>;

/// `reqwest::StatusCode::from_u16` followed by the code's `Display`, which is
/// that of the `http` crate. Every number from 100 to 999 is accepted as a
/// status code there, and its text depends on the number alone.
#[verifier::external_body]
fn status_line_text(code: u16) -> (text: String)
    requires
        100 <= code <= 999,
    ensures
        text@ == status_line(code),
{
    match reqwest::StatusCode::from_u16(code) {
        Ok(status) => status.to_string(),
        Err(_) => String::new(),
    }
}

/// The word that is the decimal digit `d`.
fn digit_word(d: u16) -> (word: &'static str)
    requires
        d <= 9,
    ensures
        word@ == seq![digit_char(d as nat)],
{
    proof {
        reveal_strlit("0");
        reveal_strlit("1");
        reveal_strlit("2");
        reveal_strlit("3");
        reveal_strlit("4");
        reveal_strlit("5");
        reveal_strlit("6");
        reveal_strlit("7");
        reveal_strlit("8");
        reveal_strlit("9");
    }
    let word = match d {
        0 => "0",
        1 => "1",
        2 => "2",
        3 => "3",
        4 => "4",
        5 => "5",
        6 => "6",
        7 => "7",
        8 => "8",
        _ => "9",
    };
    assert(word@ =~= seq![digit_char(d as nat)]);
    word
}

impl HttpStatus {
    #[verifier::type_invariant]
    spec fn in_range(self) -> bool {
        100 <= self.code <= 999
    }

    /// The number of this status code.
    pub closed spec fn value(self) -> u16 {
        self.code
    }

    /// Whether `code` is the number of a status code.
    pub open spec fn valid(code: u16) -> bool {
        100 <= code <= 999
    }

    /// The three decimal digits of `code`.
    pub open spec fn digits(code: u16) -> Seq<char> {
        seq![
            digit_char((code / 100) as nat),
            digit_char((code / 10 % 10) as nat),
            digit_char((code % 10) as nat),
        ]
    }

    /// The status code with the number `code`, if there is one.
    pub fn new(code: u16) -> (status: Option<HttpStatus>)
        ensures
            status is Some <==> Self::valid(code),
            status matches Some(s) ==> s.value() == code,
    {
        if 100 <= code && code <= 999 {
            Some(HttpStatus { code })
        } else {
            None
        }
    }

    /// The number of this status code.
    pub fn as_u16(&self) -> (code: u16)
        ensures
            code == self.value(),
            Self::valid(code),
    {
        proof {
            use_type_invariant(self);
        }
        self.code
    }

    /// The number of this status code in decimal digits.
    pub fn code_text(&self) -> (text: String)
        ensures
            text@ == Self::digits(self.value()),
    {
        let code = self.as_u16();
        let mut text = String::from_str(digit_word(code / 100));
        text.append(digit_word(code / 10 % 10));
        text.append(digit_word(code % 10));
        assert(text@ =~= Self::digits(self.value()));
        text
    }

    /// The status code as a reader is shown it, number and reason phrase.
    pub fn to_string(&self) -> (text: String)
        ensures
            text@ == status_line(self.value()),
    {
        status_line_text(self.as_u16())
    }
}

/// What a reply holds under one header name.
#[derive(Debug)]
pub enum HeaderValue {
    /// The reply has no header of that name.
    Missing,
    /// The header's value, which is text.
    Text(String),
    /// The header is there but its value is not text; the field says why.
    Opaque(String),
}

} // verus!
