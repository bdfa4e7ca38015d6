//! The canonical RGB colour: parsing from and writing to hex, the contrasting
//! colour for legible text, and resolution of colour names.
use crate::error_code::{decimal, decimal_string, ErrorCode};
use crate::hex::{
    all_hex, byte_hex, digit_char, expand, hex_pair_to_int, is_valid_hex, lemma_digit_round_trip,
    pair_value, strip_prefix, valid_hex,
};
use vstd::prelude::*;
use vstd::string::StringExecFns;

verus! {

/// A colour as three 8-bit channels.
#[derive(Debug, Clone, Copy, PartialEq, Eq, Structural)]
pub struct RgbColour {
    pub red: u8,
    pub green: u8,
    pub blue: u8,
}

/// What the host reported when asked to draw a named colour on a one-pixel
/// surface.
#[derive(Debug, Clone, PartialEq, Eq)]
pub enum NameResolution {
    /// The host does not know the name.
    Unrecognised,
    /// The host drew the colour: the pixel's bytes, red, green, blue, then
    /// alpha.
    Drawn(Vec<u8>),
    /// The drawing surface failed.
    SurfaceFailure,
}

/// A hex string, without its `#`, has one of the two accepted lengths.
pub open spec fn hex_length_ok(s: Seq<char>) -> bool {
    strip_prefix(s).len() == 3 || strip_prefix(s).len() == 6
}

/// The six digits that a hex string of an accepted length stands for.
pub open spec fn six_digits(s: Seq<char>) -> Seq<char> {
    if strip_prefix(s).len() == 3 {
        expand(strip_prefix(s))
    } else {
        strip_prefix(s)
    }
}

/// `s` is a hex colour: an accepted length and hex digits alone.
pub open spec fn parses_as_hex(s: Seq<char>) -> bool {
    hex_length_ok(s) && all_hex(strip_prefix(s))
}

/// The colour that a hex string writes, two digits per channel.
pub open spec fn parsed_colour(s: Seq<char>) -> RgbColour {
    let t = six_digits(s);
    RgbColour {
        red: pair_value(t, 0) as u8,
        green: pair_value(t, 2) as u8,
        blue: pair_value(t, 4) as u8,
    }
}

/// Six lower-case hex digits, two per channel.
pub open spec fn hex_of(c: RgbColour) -> Seq<char> {
    byte_hex(c.red) + byte_hex(c.green) + byte_hex(c.blue)
}

/// The YIQ luma of a colour, truncated after the weighted sum.
pub open spec fn yiq(c: RgbColour) -> int {
    (299 * c.red + 587 * c.green + 114 * c.blue) / 1000
}

/// Pure black.
pub open spec fn black() -> RgbColour {
    RgbColour { red: 0, green: 0, blue: 0 }
}

/// Pure white.
pub open spec fn white() -> RgbColour {
    RgbColour { red: 255, green: 255, blue: 255 }
}

/// Black on light colours, white on dark ones.
pub open spec fn contrast_of(c: RgbColour) -> RgbColour {
    if yiq(c) >= 128 {
        black()
    } else {
        white()
    }
}

/// How `{:?}` writes a colour.
pub open spec fn description(c: RgbColour) -> Seq<char> {
    "RgbColour { red: "@ + decimal(c.red as nat) + ", green: "@ + decimal(c.green as nat)
        + ", blue: "@ + decimal(c.blue as nat) + " }"@
}

/// A one-character string holding the lower-case hex digit for `d`.
fn hex_digit_str(d: u8) -> (r: &'static str)
    requires
        d < 16,
    ensures
        r@ == seq![digit_char(d as int)],
{
    proof {
        reveal_strlit("0");
        reveal_strlit("1");
        reveal_strlit("2");
        reveal_strlit("3");
        reveal_strlit("4");
        reveal_strlit("5");
        reveal_strlit("6");
        reveal_strlit("7");
        reveal_strlit("8");
        reveal_strlit("9");
        reveal_strlit("a");
        reveal_strlit("b");
        reveal_strlit("c");
        reveal_strlit("d");
        reveal_strlit("e");
        reveal_strlit("f");
    }
    match d {
        0 => "0",
        1 => "1",
        2 => "2",
        3 => "3",
        4 => "4",
        5 => "5",
        6 => "6",
        7 => "7",
        8 => "8",
        9 => "9",
        10 => "a",
        11 => "b",
        12 => "c",
        13 => "d",
        14 => "e",
        _ => "f",
    }
}

/// Appends the two hex digits of `v` to `s`.
fn push_byte_hex(s: &mut String, v: u8)
    ensures
        final(s)@ == old(s)@ + byte_hex(v),
{
    s.append(hex_digit_str(v / 16));
    s.append(hex_digit_str(v % 16));
}

impl RgbColour {
    /// A colour from its three channels.
    pub fn new(red: u8, green: u8, blue: u8) -> (r: RgbColour)
        ensures
            r == (RgbColour { red, green, blue }),
    {
        RgbColour { red, green, blue }
    }

    /// Parses a hex colour: an optional `#`, then 3 or 6 hex digits in either
    /// case. Three digits stand for six, each written twice.
    pub fn from_hex(hex: &str) -> (r: Result<RgbColour, ErrorCode>)
        ensures
            !hex_length_ok(hex@) ==> r == Err::<RgbColour, ErrorCode>(
                ErrorCode::InvalidHexLength(strip_prefix(hex@).len() as usize),
            ),
            hex_length_ok(hex@) && !all_hex(strip_prefix(hex@)) ==> r is Err
                && r->Err_0 is InvalidHexCharacter && r->Err_0->InvalidHexCharacter_0@ == hex@,
            parses_as_hex(hex@) ==> r == Ok::<RgbColour, ErrorCode>(parsed_colour(hex@)),
    {
        let n = hex.unicode_len();
        let mut start: usize = 0;
        if n > 0 && hex.get_char(0) == '#' {
            start = 1;
        }
        let len = n - start;
        if len != 3 && len != 6 {
            return Err(ErrorCode::InvalidHexLength(len));
        }
        let mut stripped: Vec<char> = Vec::new();
        let mut i: usize = start;
        while i < n
            invariant
                start <= i <= n,
                n == hex@.len(),
                strip_prefix(hex@) == hex@.subrange(start as int, n as int),
                stripped@ == hex@.subrange(start as int, i as int),
            decreases n - i,
        {
            stripped.push(hex.get_char(i));
            i = i + 1;
        }
        let digits: Vec<char> = if len == 3 {
            vec![stripped[0], stripped[0], stripped[1], stripped[1], stripped[2], stripped[2]]
        } else {
            stripped
        };
        assert(digits@ == six_digits(hex@));
        let red = hex_pair_to_int(digits[0], digits[1]);
        let green = hex_pair_to_int(digits[2], digits[3]);
        let blue = hex_pair_to_int(digits[4], digits[5]);
        match (red, green, blue) {
            (Some(red), Some(green), Some(blue)) => Ok(RgbColour { red, green, blue }),
            _ => {
                proof {
                    assert(!all_hex(strip_prefix(hex@))) by {
                        if all_hex(strip_prefix(hex@)) {
                            assert(forall|j: int|
                                0 <= j < 6 ==> crate::hex::is_hex_digit(#[trigger] digits@[j]));
                        }
                    }
                }
                Err(ErrorCode::InvalidHexCharacter(String::from_str(hex)))
            },
        }
    }

    /// Six lower-case hex digits, two per channel, zero-padded.
    pub fn to_hex(&self) -> (r: String)
        ensures
            r@ == hex_of(*self),
    {
        let mut s = String::new();
        push_byte_hex(&mut s, self.red);
        push_byte_hex(&mut s, self.green);
        push_byte_hex(&mut s, self.blue);
        s
    }

    /// Black where the YIQ luma is at least 128, white below.
    pub fn get_contrasting_colour(&self) -> (r: RgbColour)
        ensures
            r == contrast_of(*self),
    {
        let yiq: u32 = (self.red as u32 * 299 + self.green as u32 * 587 + self.blue as u32 * 114)
            / 1000;
        if yiq >= 128 {
            RgbColour { red: 0, green: 0, blue: 0 }
        } else {
            RgbColour { red: 255, green: 255, blue: 255 }
        }
    }

    /// The colour written as `RgbColour { red: .., green: .., blue: .. }`.
    pub fn describe(&self) -> (r: String)
        ensures
            r@ == description(*self),
    {
        let red = decimal_string(self.red as usize);
        let green = decimal_string(self.green as usize);
        let blue = decimal_string(self.blue as usize);
        String::from_str("RgbColour { red: ").concat(red.as_str()).concat(", green: ").concat(
            green.as_str(),
        ).concat(", blue: ").concat(blue.as_str()).concat(" }")
    }

    /// The colour for a name, from what the host reported: an unknown name
    /// is `InvalidColourName`, a failed surface, or a pixel with fewer than
    /// three bytes, is `CanvasError`.
    pub fn from_colour_name(colour: &str, resolution: NameResolution) -> (r: Result<
        RgbColour,
        ErrorCode,
    >)
        ensures
            resolution is Unrecognised ==> r is Err && r->Err_0 is InvalidColourName
                && r->Err_0->InvalidColourName_0@ == colour@,
            resolution is SurfaceFailure ==> r == Err::<RgbColour, ErrorCode>(
                ErrorCode::CanvasError,
            ),
            resolution is Drawn ==> {
                let data = resolution->Drawn_0@;
                &&& data.len() >= 3 ==> r == Ok::<RgbColour, ErrorCode>(
                    RgbColour { red: data[0], green: data[1], blue: data[2] },
                )
                &&& data.len() < 3 ==> r == Err::<RgbColour, ErrorCode>(ErrorCode::CanvasError)
            },
    {
        match resolution {
            NameResolution::Unrecognised => Err(
                ErrorCode::InvalidColourName(String::from_str(colour)),
            ),
            NameResolution::Drawn(data) => {
                if data.len() >= 3 {
                    Ok(RgbColour { red: data[0], green: data[1], blue: data[2] })
                } else {
                    Err(ErrorCode::CanvasError)
                }
            },
            NameResolution::SurfaceFailure => Err(ErrorCode::CanvasError),
        }
    }
}

/// Whether `colour` is a hex colour or a colour name. `name_check` is what
/// the host said of the name: `Some(true)` for a known name, `Some(false)`
/// for an unknown one, `None` where it could not tell, which counts as
/// unknown.
pub fn is_valid_colour(colour: &str, name_check: Option<bool>) -> (r: bool)
    ensures
        r == (valid_hex(colour@) || name_check == Some(true)),
{
    let is_hex = is_valid_hex(colour);
    match name_check {
        Some(is_name) => is_hex || is_name,
        None => is_hex,
    }
}

/// A name is known to the host when the style it was set on reads back the
/// same text.
pub fn is_valid_colour_name(colour: &str, read_back: &str) -> (r: bool)
    ensures
        r == (read_back@ == colour@),
{
    let n = colour.unicode_len();
    if read_back.unicode_len() != n {
        return false;
    }
    let mut i: usize = 0;
    while i < n
        invariant
            n == colour@.len(),
            n == read_back@.len(),
            i <= n,
            colour@.subrange(0, i as int) == read_back@.subrange(0, i as int),
        decreases n - i,
    {
        if colour.get_char(i) != read_back.get_char(i) {
            assert(colour@[i as int] != read_back@[i as int]);
            return false;
        }
        assert(colour@.subrange(0, i + 1) == colour@.subrange(0, i as int).push(colour@[i as int]));
        assert(read_back@.subrange(0, i + 1) == read_back@.subrange(0, i as int).push(
            read_back@[i as int],
        ));
        i = i + 1;
    }
    assert(colour@ == colour@.subrange(0, n as int));
    assert(read_back@ == read_back@.subrange(0, n as int));
    true
}

/// A three-digit hex colour, with or without `#`, parses to the same colour
/// as its six-digit expansion, in which each digit is written twice.
pub proof fn lemma_three_digits_expand(h: Seq<char>)
    requires
        strip_prefix(h).len() == 3,
        all_hex(strip_prefix(h)),
    ensures
        parses_as_hex(h),
        parses_as_hex(expand(strip_prefix(h))),
        parsed_colour(h) == parsed_colour(expand(strip_prefix(h))),
{
    let t = strip_prefix(h);
    let e = expand(t);
    assert(crate::hex::is_hex_digit(t[0]));
    assert(strip_prefix(e) == e);
    assert(all_hex(e)) by {
        assert forall|j: int| 0 <= j < 6 implies crate::hex::is_hex_digit(#[trigger] e[j]) by {
            assert(e[j] == t[j / 2]);
        }
    }
}

/// Writing a colour in hex and parsing it back gives the same colour.
pub proof fn lemma_hex_round_trip(c: RgbColour)
    ensures
        parses_as_hex(hex_of(c)),
        parsed_colour(hex_of(c)) == c,
{
    let s = hex_of(c);
    lemma_byte_hex(c.red);
    lemma_byte_hex(c.green);
    lemma_byte_hex(c.blue);
    assert(s.len() == 6);
    assert(s[0] != '#');
    assert(strip_prefix(s) == s);
    assert(six_digits(s) == s);
    assert(all_hex(s)) by {
        assert forall|j: int| 0 <= j < 6 implies crate::hex::is_hex_digit(#[trigger] s[j]) by {
            if j < 2 {
                assert(s[j] == byte_hex(c.red)[j]);
            } else if j < 4 {
                assert(s[j] == byte_hex(c.green)[j - 2]);
            } else {
                assert(s[j] == byte_hex(c.blue)[j - 4]);
            }
        }
    }
    assert(pair_value(s, 0) == c.red);
    assert(pair_value(s, 2) == c.green);
    assert(pair_value(s, 4) == c.blue);
}

proof fn lemma_byte_hex(v: u8)
    ensures
        byte_hex(v).len() == 2,
        crate::hex::is_hex_digit(byte_hex(v)[0]),
        crate::hex::is_hex_digit(byte_hex(v)[1]),
        pair_value(byte_hex(v), 0) == v,
        byte_hex(v)[0] != '#',
{
    lemma_digit_round_trip(v as int / 16);
    lemma_digit_round_trip(v as int % 16);
}

/// A string of hex digits is a valid hex string at any length, while only
/// lengths 3 and 6 parse as a colour.
pub proof fn lemma_validity_ignores_length(s: Seq<char>)
    requires
        valid_hex(s),
        !hex_length_ok(s),
    ensures
        !parses_as_hex(s),
{
}

/// The contrasting colour is pure black or pure white.
pub proof fn lemma_contrast_black_or_white(c: RgbColour)
    ensures
        contrast_of(c) == black() || contrast_of(c) == white(),
{
}

} // verus!
