//! The closed set of failures, and the message that goes with each.
use vstd::prelude::*;
use vstd::string::StringExecFns;

verus! {

/// What went wrong in a colour operation.
#[derive(Debug, Clone, PartialEq, Eq)]
pub enum ErrorCode {
    /// A hex string of length 3 or 6 holds a character that is not a hex
    /// digit; carries the input as given.
    InvalidHexCharacter(String),
    /// A hex string, without its `#`, is neither 3 nor 6 characters long;
    /// carries that length.
    InvalidHexLength(usize),
    /// The name does not resolve to a colour; carries the name.
    InvalidColourName(String),
    /// The drawing surface used to resolve a name failed.
    CanvasError,
    /// A computed hue cannot be stored as an unsigned degree; carries a
    /// description of the source colour.
    HslConversionError(String),
}

/// The decimal digits of `n`, most significant first, without leading zeros.
pub open spec fn decimal(n: nat) -> Seq<char>
    decreases n,
{
    if n < 10 {
        seq![(n + '0' as int) as char]
    } else {
        decimal(n / 10) + seq![((n % 10) + '0' as int) as char]
    }
}

/// A one-character string holding the decimal digit `d`.
fn digit_str(d: u8) -> (r: &'static str)
    requires
        d < 10,
    ensures
        r@ == seq![(d + '0' as int) as char],
{
    proof {
        reveal_strlit("0");
        reveal_strlit("1");
        reveal_strlit("2");
        reveal_strlit("3");
        reveal_strlit("4");
        reveal_strlit("5");
        reveal_strlit("6");
        reveal_strlit("7");
        reveal_strlit("8");
        reveal_strlit("9");
    }
    match d {
        0 => "0",
        1 => "1",
        2 => "2",
        3 => "3",
        4 => "4",
        5 => "5",
        6 => "6",
        7 => "7",
        8 => "8",
        _ => "9",
    }
}

/// `n` written in decimal.
pub fn decimal_string(n: usize) -> (r: String)
    ensures
        r@ == decimal(n as nat),
    decreases n,
{
    if n < 10 {
        String::from_str(digit_str(n as u8))
    } else {
        let head = decimal_string(n / 10);
        head.concat(digit_str((n % 10) as u8))
    }
}

impl ErrorCode {
    /// A human-readable message for the error.
    pub fn message(&self) -> (r: String)
        ensures
            self is InvalidHexCharacter ==> r@ == "Invalid: found invalid characters in hex code: "@
                + self->InvalidHexCharacter_0@,
            self is InvalidHexLength ==> r@ == "Invalid: hex code has invalid length: "@ + decimal(
                self->InvalidHexLength_0 as nat,
            ) + ". Length must be 3 or 6."@,
            self is InvalidColourName ==> r@ == "Invalid: "@ + self->InvalidColourName_0@
                + " is not a valid css colour name"@,
            self is CanvasError ==> r@
                == "Canvas: error occurred while getting image data from canvas"@,
            self is HslConversionError ==> r@ == "HSL: could not convert "@
                + self->HslConversionError_0@ + " to HSL format"@,
    {
        match self {
            ErrorCode::InvalidHexCharacter(value) => {
                String::from_str("Invalid: found invalid characters in hex code: ").concat(
                    value.as_str(),
                )
            },
            ErrorCode::InvalidHexLength(length) => {
                let digits = decimal_string(*length);
                String::from_str("Invalid: hex code has invalid length: ").concat(
                    digits.as_str(),
                ).concat(". Length must be 3 or 6.")
            },
            ErrorCode::InvalidColourName(value) => {
                String::from_str("Invalid: ").concat(value.as_str()).concat(
                    " is not a valid css colour name",
                )
            },
            ErrorCode::CanvasError => {
                String::from_str("Canvas: error occurred while getting image data from canvas")
            },
            ErrorCode::HslConversionError(rgb) => {
                String::from_str("HSL: could not convert ").concat(rgb.as_str()).concat(
                    " to HSL format",
                )
            },
        }
    }
}

} // verus!
