//! RGB to HSL, computed exactly: the hue as a whole number of degrees and the
//! saturation and lightness as fractions of a percent.
use crate::colour::RgbColour;
use crate::error_code::ErrorCode;
use vstd::prelude::*;

verus! {

/// The non-negative rational number `numerator / denominator`.
#[derive(Debug, Clone, Copy, PartialEq, Eq, Structural)]
pub struct Ratio {
    pub numerator: u128,
    pub denominator: u128,
}

/// A colour as hue in degrees, and saturation and lightness in percent.
#[derive(Debug, Clone, Copy, PartialEq, Eq, Structural)]
pub struct HslColour {
    pub hue: u32,
    pub saturation: Ratio,
    pub lightness: Ratio,
}

impl Ratio {
    /// At most 100, over a denominator of at most 255.
    pub open spec fn is_percentage(self) -> bool {
        1 <= self.denominator <= 255 && self.numerator <= 100 * self.denominator
    }
}

impl HslColour {
    /// Hue below 360, and saturation and lightness percentages.
    pub open spec fn wf(self) -> bool {
        self.hue < 360 && self.saturation.is_percentage() && self.lightness.is_percentage()
    }

    /// An HSL colour from its three components.
    pub fn new(hue: u32, saturation: Ratio, lightness: Ratio) -> (r: HslColour)
        ensures
            r == (HslColour { hue, saturation, lightness }),
    {
        HslColour { hue, saturation, lightness }
    }
}

/// The largest of three integers.
pub open spec fn max3(a: int, b: int, c: int) -> int {
    if a >= b && a >= c {
        a
    } else if b >= c {
        b
    } else {
        c
    }
}

/// The smallest of three integers.
pub open spec fn min3(a: int, b: int, c: int) -> int {
    if a <= b && a <= c {
        a
    } else if b <= c {
        b
    } else {
        c
    }
}

/// The largest channel, 0 to 255.
pub open spec fn channel_max(c: RgbColour) -> int {
    max3(c.red as int, c.green as int, c.blue as int)
}

/// The smallest channel, 0 to 255.
pub open spec fn channel_min(c: RgbColour) -> int {
    min3(c.red as int, c.green as int, c.blue as int)
}

/// The chroma on the 0-255 scale.
pub open spec fn chroma(c: RgbColour) -> int {
    channel_max(c) - channel_min(c)
}

/// `n / d` rounded to the nearest integer, halves away from zero.
pub open spec fn round_div(n: int, d: int) -> int {
    if n >= 0 {
        (2 * n + d) / (2 * d)
    } else {
        -((-2 * n + d) / (2 * d))
    }
}

/// The channel `v` is the maximum `m` within a tolerance of 0.001 on the
/// 0-1 scale: `|m / 255 - v / 255| < 0.001`.
pub open spec fn near_max(m: int, v: int) -> bool {
    (m - v) * 1000 < 255
}

/// Sixty times the hue sector of a colour with non-zero chroma, rounded to a
/// whole degree: by the first of red, green and blue that is the maximum.
/// Red's sector `(g - b) / chroma` lies in [-1, 1], so taking its remainder
/// by 6 leaves it as it is.
pub open spec fn rounded_hue(c: RgbColour) -> int {
    let m = channel_max(c);
    let d = chroma(c);
    let (r, g, b) = (c.red as int, c.green as int, c.blue as int);
    if near_max(m, r) {
        round_div(60 * (g - b), d)
    } else if near_max(m, g) {
        round_div(60 * (b - r) + 120 * d, d)
    } else {
        round_div(60 * (r - g) + 240 * d, d)
    }
}

/// The hue in degrees: 0 without chroma, else the rounded hue, moved into
/// [0, 360) where it is negative.
pub open spec fn hue_of(c: RgbColour) -> int {
    if chroma(c) == 0 {
        0
    } else if rounded_hue(c) < 0 {
        rounded_hue(c) + 360
    } else {
        rounded_hue(c)
    }
}

/// Saturation in percent: `chroma / (1 - |2L - 1|)` on the 0-1 scale, which
/// is `100 * chroma / (255 - |max + min - 255|)` on the 0-255 scale; 0
/// without chroma.
pub open spec fn saturation_of(c: RgbColour) -> Ratio {
    let s = channel_max(c) + channel_min(c);
    if chroma(c) == 0 {
        Ratio { numerator: 0, denominator: 1 }
    } else if s >= 255 {
        Ratio { numerator: (100 * chroma(c)) as u128, denominator: (510 - s) as u128 }
    } else {
        Ratio { numerator: (100 * chroma(c)) as u128, denominator: s as u128 }
    }
}

/// Lightness in percent: `100 * (max + min) / 510`, that is
/// `10 * (max + min) / 51`.
pub open spec fn lightness_of(c: RgbColour) -> Ratio {
    Ratio {
        numerator: (10 * (channel_max(c) + channel_min(c))) as u128,
        denominator: 51,
    }
}

/// The HSL form of an RGB colour.
pub open spec fn hsl_of(c: RgbColour) -> HslColour {
    HslColour { hue: hue_of(c) as u32, saturation: saturation_of(c), lightness: lightness_of(c) }
}

/// `n / d` rounded half away from zero, for `|n| <= 360 * d`.
fn round_div_exec(n: i64, d: i64) -> (r: i64)
    requires
        1 <= d <= 255,
        -360 * d <= n <= 360 * d,
    ensures
        r == round_div(n as int, d as int),
        -360 <= r <= 360,
{
    if n >= 0 {
        proof {
            assert((2 * n + d) / (2 * d) <= 360) by (nonlinear_arith)
                requires
                    0 <= n <= 360 * d,
                    d >= 1,
            ;
        }
        (2 * n + d) / (2 * d)
    } else {
        proof {
            assert((-2 * n + d) / (2 * d) <= 360) by (nonlinear_arith)
                requires
                    0 < -n <= 360 * d,
                    d >= 1,
            ;
        }
        -((-2 * n + d) / (2 * d))
    }
}

proof fn lemma_hue_range(c: RgbColour)
    requires
        chroma(c) > 0,
    ensures
        -60 <= rounded_hue(c) <= 300,
        0 <= hue_of(c) < 360,
{
    let m = channel_max(c);
    let d = chroma(c);
    let (r, g, b) = (c.red as int, c.green as int, c.blue as int);
    if near_max(m, r) {
        let n = 60 * (g - b);
        assert(-60 * d <= n <= 60 * d);
        if n >= 0 {
            assert((2 * n + d) / (2 * d) <= 60) by (nonlinear_arith)
                requires
                    0 <= n <= 60 * d,
                    d >= 1,
            ;
        } else {
            assert((-2 * n + d) / (2 * d) <= 60) by (nonlinear_arith)
                requires
                    0 < -n <= 60 * d,
                    d >= 1,
            ;
            assert((-2 * n + d) / (2 * d) >= 0) by (nonlinear_arith)
                requires
                    0 < -n,
                    d >= 1,
            ;
        }
    } else if near_max(m, g) {
        let n = 60 * (b - r) + 120 * d;
        assert(60 * d <= n <= 180 * d);
        assert((2 * n + d) / (2 * d) <= 180) by (nonlinear_arith)
            requires
                0 <= n <= 180 * d,
                d >= 1,
        ;
        assert((2 * n + d) / (2 * d) >= 60) by (nonlinear_arith)
            requires
                60 * d <= n,
                d >= 1,
        ;
    } else {
        let n = 60 * (r - g) + 240 * d;
        assert(180 * d <= n <= 300 * d);
        assert((2 * n + d) / (2 * d) <= 300) by (nonlinear_arith)
            requires
                0 <= n <= 300 * d,
                d >= 1,
        ;
        assert((2 * n + d) / (2 * d) >= 180) by (nonlinear_arith)
            requires
                180 * d <= n,
                d >= 1,
        ;
    }
}

impl RgbColour {
    /// Converts to HSL. The hue is checked to fit an unsigned degree before
    /// it is stored; for 8-bit channels it always does, so this never fails.
    pub fn to_hsl(&self) -> (r: Result<HslColour, ErrorCode>)
        ensures
            r == Ok::<HslColour, ErrorCode>(hsl_of(*self)),
            hsl_of(*self).wf(),
    {
        let (red, green, blue) = (self.red as i64, self.green as i64, self.blue as i64);
        let max = if red >= green && red >= blue {
            red
        } else if green >= blue {
            green
        } else {
            blue
        };
        let min = if red <= green && red <= blue {
            red
        } else if green <= blue {
            green
        } else {
            blue
        };
        let delta = max - min;
        let sum = max + min;
        let lightness = Ratio { numerator: (10 * sum) as u128, denominator: 51 };
        let saturation: Ratio;
        let h: i64;
        if delta == 0 {
            saturation = Ratio { numerator: 0, denominator: 1 };
            h = 0;
        } else {
            let denominator = if sum >= 255 {
                510 - sum
            } else {
                sum
            };
            saturation = Ratio { numerator: (100 * delta) as u128, denominator: denominator as u128 };
            if (max - red) * 1000 < 255 {
                h = round_div_exec(60 * (green - blue), delta);
            } else if (max - green) * 1000 < 255 {
                h = round_div_exec(60 * (blue - red) + 120 * delta, delta);
            } else {
                h = round_div_exec(60 * (red - green) + 240 * delta, delta);
            }
            proof {
                lemma_hue_range(*self);
            }
        }
        let degrees = if h < 0 {
            h + 360
        } else {
            h
        };
        if 0 <= degrees && degrees <= 0xffff_ffff {
            Ok(HslColour { hue: degrees as u32, saturation, lightness })
        } else {
            Err(ErrorCode::HslConversionError(self.describe()))
        }
    }
}

impl From<RgbColour> for HslColour {
    fn from(colour: RgbColour) -> (r: HslColour) {
        match colour.to_hsl() {
            Ok(hsl) => hsl,
            Err(_) => HslColour {
                hue: 0,
                saturation: Ratio { numerator: 0, denominator: 1 },
                lightness: Ratio { numerator: 0, denominator: 1 },
            },
        }
    }
}

impl vstd::std_specs::convert::FromSpecImpl<RgbColour> for HslColour {
    open spec fn obeys_from_spec() -> bool {
        true
    }

    open spec fn from_spec(colour: RgbColour) -> HslColour {
        hsl_of(colour)
    }
}

/// A colour without chroma, with red, green and blue equal, has hue 0 and
/// saturation 0.
pub proof fn lemma_grey_has_no_hue(c: RgbColour)
    requires
        c.red == c.green,
        c.green == c.blue,
    ensures
        hsl_of(c).hue == 0,
        hsl_of(c).saturation.numerator == 0,
{
}

} // verus!
