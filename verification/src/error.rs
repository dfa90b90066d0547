//! The errors of a launch and their messages.

use vstd::prelude::*;
use vstd::string::StringExecFns;

verus! {

/// The status code with which Launch Services answers a launch.
pub type OSStatus = i32;

/// Why nothing was opened.
#[derive(Clone, Copy, Debug, PartialEq, Eq, Structural)]
pub enum OpenError {
    /// The value to open cannot be turned into a URL.
    NotOpenable,
    /// The application's path cannot be turned into a URL.
    InvalidApp,
    /// One of the values to open cannot be turned into a URL.
    InvalidUrls,
    /// Launch Services refused, with this status.
    Status(OSStatus),
}

/// The character that stands for a decimal digit.
pub open spec fn digit(d: nat) -> char {
    seq!['0', '1', '2', '3', '4', '5', '6', '7', '8', '9'][d as int]
}

/// The decimal digits of a natural number, most significant first, without
/// leading zeros.
pub open spec fn digits(n: nat) -> Seq<char>
    decreases n,
{
    if n < 10 {
        seq![digit(n)]
    } else {
        digits(n / 10).push(digit(n % 10))
    }
}

/// An integer written in decimal, with a minus sign in front of a negative one.
pub open spec fn decimal(v: int) -> Seq<char> {
    if v < 0 {
        seq!['-'] + digits((-v) as nat)
    } else {
        digits(v as nat)
    }
}

/// `String::push` appends one character.
pub assume_specification[ String::push ](s: &mut String, ch: char)
    ensures
        final(s)@ == old(s)@.push(ch),
;

fn digit_char(d: u32) -> (c: char)
    requires
        d < 10,
    ensures
        c == digit(d as nat),
{
    match d {
        0 => '0',
        1 => '1',
        2 => '2',
        3 => '3',
        4 => '4',
        5 => '5',
        6 => '6',
        7 => '7',
        8 => '8',
        _ => '9',
    }
}

fn push_digits(out: &mut String, n: u32)
    ensures
        final(out)@ == old(out)@ + digits(n as nat),
    decreases n,
{
    if n >= 10 {
        push_digits(out, n / 10);
    }
    out.push(digit_char(n % 10));
}

fn push_decimal(out: &mut String, v: i32)
    ensures
        final(out)@ == old(out)@ + decimal(v as int),
{
    if v < 0 {
        out.push('-');
        let magnitude: u32 = if v == i32::MIN {
            2147483648u32
        } else {
            (-v) as u32
        };
        push_digits(out, magnitude);
    } else {
        push_digits(out, v as u32);
    }
}

impl OpenError {
    /// The message of the error, as a sequence of characters.
    pub open spec fn text(self) -> Seq<char> {
        match self {
            OpenError::NotOpenable => "Provided url is not openable"@,
            OpenError::InvalidApp => "Provided app url is not valid"@,
            OpenError::InvalidUrls => "Provided urls are not valid"@,
            OpenError::Status(code) => "return code "@ + decimal(code as int),
        }
    }

    /// The message of the error.
    pub fn message(&self) -> (r: String)
        ensures
            r@ == self.text(),
    {
        match self {
            OpenError::NotOpenable => String::from_str("Provided url is not openable"),
            OpenError::InvalidApp => String::from_str("Provided app url is not valid"),
            OpenError::InvalidUrls => String::from_str("Provided urls are not valid"),
            OpenError::Status(code) => {
                let mut r = String::from_str("return code ");
                push_decimal(&mut r, *code);
                r
            },
        }
    }
}

} // verus!
