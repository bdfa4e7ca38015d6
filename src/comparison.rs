//! Distance and similarity between two colours. Distances are kept squared,
//! as exact ratios, so that the similarity percentage
//! `floor(100 - 100 * sqrt(actual / max))` is computed without rounding.
use crate::colour::{black, white, RgbColour};
use crate::hsl::{hsl_of, HslColour, Ratio};
use vstd::prelude::*;

verus! {

/// The squared distance between two colours under a metric, and their
/// similarity in percent: 100 for equal colours, 0 for white against black,
/// and below 0 for colours further apart than those.
#[derive(Debug, Clone, Copy, PartialEq, Eq, Structural)]
pub struct ComparisonResult {
    pub distance_squared: Ratio,
    pub percent: i32,
}

/// A pair of colours to compare.
#[derive(Debug, Clone, Copy, PartialEq, Eq, Structural)]
pub struct Comparison {
    pub a: RgbColour,
    pub b: RgbColour,
}

/// `p` is `floor(100 - 100 * sqrt((an / ad) / (mn / md)))`. With
/// `k = 100 - p` this is `k = ceil(100 * sqrt(..))`: the least natural
/// number whose square times `mn / md` reaches `10000 * an / ad`.
pub open spec fn is_similarity(p: int, an: int, ad: int, mn: int, md: int) -> bool {
    let k = 100 - p;
    &&& k >= 0
    &&& k * k * (mn * ad) >= 10000 * (an * md)
    &&& (k == 0 || (k - 1) * (k - 1) * (mn * ad) < 10000 * (an * md))
}

/// The similarity in percent of a squared distance `an / ad`, against the
/// squared reference distance `mn / md`.
pub open spec fn similarity(an: int, ad: int, mn: int, md: int) -> int {
    choose|p: int| is_similarity(p, an, ad, mn, md)
}

proof fn lemma_similarity_unique(p: int, q: int, an: int, ad: int, mn: int, md: int)
    requires
        is_similarity(p, an, ad, mn, md),
        is_similarity(q, an, ad, mn, md),
        mn * ad > 0,
    ensures
        p == q,
{
    let x = mn * ad;
    let t = 10000 * (an * md);
    let (k, j) = (100 - p, 100 - q);
    if k < j {
        assert(k * k * x <= (j - 1) * (j - 1) * x) by (nonlinear_arith)
            requires
                0 <= k <= j - 1,
                x > 0,
        ;
    } else if j < k {
        assert(j * j * x <= (k - 1) * (k - 1) * x) by (nonlinear_arith)
            requires
                0 <= j <= k - 1,
                x > 0,
        ;
    }
}

/// A percentage that meets `is_similarity` is the similarity.
pub proof fn lemma_similarity_is(p: int, an: int, ad: int, mn: int, md: int)
    requires
        is_similarity(p, an, ad, mn, md),
        mn * ad > 0,
    ensures
        similarity(an, ad, mn, md) == p,
{
    let q = similarity(an, ad, mn, md);
    assert(is_similarity(q, an, ad, mn, md));
    lemma_similarity_unique(p, q, an, ad, mn, md);
}

/// `floor(100 - 100 * sqrt(actual / max))`, for an actual squared distance of
/// at most 16 times the reference.
fn calculate_percentage(actual: Ratio, max: Ratio) -> (r: i32)
    requires
        actual.denominator > 0,
        max.numerator > 0,
        max.denominator > 0,
        10000 * (actual.numerator * max.denominator) <= 160000 * (max.numerator
            * actual.denominator),
        160000 * (max.numerator * actual.denominator) <= u128::MAX,
    ensures
        r == similarity(
            actual.numerator as int,
            actual.denominator as int,
            max.numerator as int,
            max.denominator as int,
        ),
        -300 <= r <= 100,
{
    proof {
        assert(max.numerator * actual.denominator > 0) by (nonlinear_arith)
            requires
                max.numerator > 0,
                actual.denominator > 0,
        ;
    }
    let scale = max.numerator * actual.denominator;
    let target = 10000 * (actual.numerator * max.denominator);
    let mut k: u128 = 0;
    while k * k * scale < target
        invariant
            k <= 400,
            k * k <= 160000,
            k * k * scale <= 160000 * scale,
            scale > 0,
            target <= 160000 * scale,
            160000 * scale <= u128::MAX,
            k == 0 || (k - 1) * (k - 1) * scale < target,
        decreases 400 - k,
    {
        proof {
            assert(k * k * scale <= 160000 * scale) by (nonlinear_arith)
                requires
                    k <= 400,
                    scale > 0,
            ;
        }
        if k >= 400 {
            proof {
                assert(k * k * scale >= 160000 * scale) by (nonlinear_arith)
                    requires
                        k >= 400,
                        scale > 0,
                ;
            }
        }
        k = k + 1;
        proof {
            assert(k * k <= 160000 && k * k * scale <= 160000 * scale) by (nonlinear_arith)
                requires
                    k <= 400,
                    scale > 0,
            ;
        }
    }
    proof {
        lemma_similarity_is(
            100 - k as int,
            actual.numerator as int,
            actual.denominator as int,
            max.numerator as int,
            max.denominator as int,
        );
    }
    100 - k as i32
}

/// The square of an integer.
pub open spec fn sq(x: int) -> int {
    x * x
}

/// The squared Euclidean distance between two colours in RGB space.
pub open spec fn rgb_distance_squared(a: RgbColour, b: RgbColour) -> int {
    sq(a.red - b.red) + sq(a.green - b.green) + sq(a.blue - b.blue)
}

/// The similarity in percent of two colours in RGB space.
pub open spec fn rgb_similarity(a: RgbColour, b: RgbColour) -> int {
    similarity(rgb_distance_squared(a, b), 1, rgb_distance_squared(white(), black()), 1)
}

/// The product of the two saturation denominators.
pub open spec fn saturation_scale(x: HslColour, y: HslColour) -> int {
    x.saturation.denominator * y.saturation.denominator
}

/// The product of the two lightness denominators.
pub open spec fn lightness_scale(x: HslColour, y: HslColour) -> int {
    x.lightness.denominator * y.lightness.denominator
}

/// The squared Euclidean distance between two colours in HSL space,
/// `(h1 - h2)^2 + (s1 - s2)^2 + (l1 - l2)^2`, is this numerator over
/// `hsl_distance_denominator`.
pub open spec fn hsl_distance_numerator(x: HslColour, y: HslColour) -> int {
    let b = saturation_scale(x, y);
    let e = lightness_scale(x, y);
    let ds = x.saturation.numerator * y.saturation.denominator - y.saturation.numerator
        * x.saturation.denominator;
    let dl = x.lightness.numerator * y.lightness.denominator - y.lightness.numerator
        * x.lightness.denominator;
    sq(x.hue - y.hue) * ((b * b * (e * e))) + sq(ds) * sq(e) + sq(dl) * sq(b)
}

pub open spec fn hsl_distance_denominator(x: HslColour, y: HslColour) -> int {
    sq(saturation_scale(x, y)) * sq(lightness_scale(x, y))
}

/// The similarity in percent of two colours in HSL space.
pub open spec fn hsl_similarity(a: RgbColour, b: RgbColour) -> int {
    similarity(
        hsl_distance_numerator(hsl_of(a), hsl_of(b)),
        hsl_distance_denominator(hsl_of(a), hsl_of(b)),
        hsl_distance_numerator(hsl_of(white()), hsl_of(black())),
        hsl_distance_denominator(hsl_of(white()), hsl_of(black())),
    )
}

proof fn lemma_sq_negate(x: int)
    ensures
        sq(x) == sq(-x),
        sq(x) >= 0,
{
    assert(x * x == (-x) * (-x) && x * x >= 0) by (nonlinear_arith);
}

/// The distance between two values of a channel.
fn channel_gap(x: u8, y: u8) -> (r: u128)
    ensures
        r == if x >= y { x - y } else { y - x },
        sq(r as int) == sq(x - y),
{
    proof {
        lemma_sq_negate(x - y);
    }
    if x >= y {
        (x - y) as u128
    } else {
        (y - x) as u128
    }
}

/// `|p - q|`.
fn gap(p: u128, q: u128) -> (r: u128)
    ensures
        r == if p >= q { p - q } else { q - p },
        sq(r as int) == sq(p - q),
{
    proof {
        lemma_sq_negate(p - q);
    }
    if p >= q {
        p - q
    } else {
        q - p
    }
}

/// The squared RGB distance between two colours.
fn rgb_distance(a: &RgbColour, b: &RgbColour) -> (r: Ratio)
    ensures
        r.numerator == rgb_distance_squared(*a, *b),
        r.denominator == 1,
        r.numerator <= 195075,
{
    let dr = channel_gap(a.red, b.red);
    let dg = channel_gap(a.green, b.green);
    let db = channel_gap(a.blue, b.blue);
    proof {
        assert(dr * dr <= 65025 && dg * dg <= 65025 && db * db <= 65025) by (nonlinear_arith)
            requires
                dr <= 255,
                dg <= 255,
                db <= 255,
        ;
    }
    Ratio { numerator: dr * dr + dg * dg + db * db, denominator: 1 }
}

/// The squared HSL distance between two colours, as an exact ratio.
fn hsl_distance(x: &HslColour, y: &HslColour) -> (r: Ratio)
    requires
        x.wf(),
        y.wf(),
    ensures
        r.numerator == hsl_distance_numerator(*x, *y),
        r.denominator == hsl_distance_denominator(*x, *y),
        1 <= r.denominator <= 65025 * 65025 * 65025 * 65025,
        r.numerator <= 148881 * r.denominator,
{
    let (sx, sy, lx, ly) = (x.saturation, y.saturation, x.lightness, y.lightness);
    proof {
        assert(sx.numerator * sy.denominator <= 100 * (sx.denominator * sy.denominator)
            && sy.numerator * sx.denominator <= 100 * (sx.denominator * sy.denominator)
            && 1 <= sx.denominator * sy.denominator <= 65025) by (nonlinear_arith)
            requires
                sx.is_percentage(),
                sy.is_percentage(),
        ;
        assert(lx.numerator * ly.denominator <= 100 * (lx.denominator * ly.denominator)
            && ly.numerator * lx.denominator <= 100 * (lx.denominator * ly.denominator)
            && 1 <= lx.denominator * ly.denominator <= 65025) by (nonlinear_arith)
            requires
                lx.is_percentage(),
                ly.is_percentage(),
        ;
    }
    let b = sx.denominator * sy.denominator;
    let e = lx.denominator * ly.denominator;
    let ds = gap(sx.numerator * sy.denominator, sy.numerator * sx.denominator);
    let dl = gap(lx.numerator * ly.denominator, ly.numerator * lx.denominator);
    let dh = gap(x.hue as u128, y.hue as u128);
    proof {
        assert((b * b * (e * e)) <= 65025 * 65025 * 65025 * 65025 && (b * b * (e * e)) >= 1
            && b * b <= 65025 * 65025 && e * e <= 65025 * 65025
            && ds * ds * (e * e) <= 10000 * ((b * b * (e * e)))
            && dl * dl * (b * b) <= 10000 * ((b * b * (e * e)))
            && dh * dh * (b * b * (e * e)) <= 128881 * ((b * b * (e * e)))) by (nonlinear_arith)
            requires
                1 <= b <= 65025,
                1 <= e <= 65025,
                ds <= 100 * b,
                dl <= 100 * e,
                dh <= 359,
        ;
    }
    let b2 = b * b;
    let e2 = e * e;
    let denominator = b2 * e2;
    proof {
        assert(dh * dh <= 128881 && ds * ds <= 10000 * b2 && dl * dl <= 10000 * e2
            && dh * dh * denominator <= 128881 * denominator && ds * ds * e2 <= 10000 * denominator
            && dl * dl * b2 <= 10000 * denominator && denominator <= 65025 * 65025 * 65025 * 65025)
            by (nonlinear_arith)
            requires
                denominator == b2 * e2,
                b2 == b * b,
                e2 == e * e,
                1 <= b <= 65025,
                1 <= e <= 65025,
                ds <= 100 * b,
                dl <= 100 * e,
                dh <= 359,
        ;
    }
    let numerator = dh * dh * denominator + ds * ds * e2 + dl * dl * b2;
    Ratio { numerator, denominator }
}

impl Comparison {
    /// A comparison of `a` with `b`.
    pub fn new(a: RgbColour, b: RgbColour) -> (r: Comparison)
        ensures
            r == (Comparison { a, b }),
    {
        Comparison { a, b }
    }

    /// Euclidean distance in RGB space, against white and black as the
    /// reference distance.
    pub fn rgb(&self) -> (r: ComparisonResult)
        ensures
            r.distance_squared.numerator == rgb_distance_squared(self.a, self.b),
            r.distance_squared.denominator == 1,
            r.percent == rgb_similarity(self.a, self.b),
    {
        let max = rgb_distance(&RgbColour::new(255, 255, 255), &RgbColour::new(0, 0, 0));
        let actual = rgb_distance(&self.a, &self.b);
        proof {
            lemma_reference_rgb_distance();
        }
        let percent = calculate_percentage(actual, max);
        ComparisonResult { distance_squared: actual, percent }
    }

    /// Euclidean distance in HSL space, against white and black as the
    /// reference distance.
    pub fn hsl(&self) -> (r: ComparisonResult)
        ensures
            r.distance_squared.numerator == hsl_distance_numerator(hsl_of(self.a), hsl_of(self.b)),
            r.distance_squared.denominator == hsl_distance_denominator(
                hsl_of(self.a),
                hsl_of(self.b),
            ),
            r.percent == hsl_similarity(self.a, self.b),
    {
        let white_hsl = RgbColour::new(255, 255, 255).to_hsl().unwrap();
        let black_hsl = RgbColour::new(0, 0, 0).to_hsl().unwrap();
        let max = hsl_distance(&white_hsl, &black_hsl);
        let x = self.a.to_hsl().unwrap();
        let y = self.b.to_hsl().unwrap();
        let actual = hsl_distance(&x, &y);
        proof {
            lemma_reference_hsl_distance();
            let (an, ad) = (actual.numerator as int, actual.denominator as int);
            assert(10000 * (an * 6765201) <= 160000 * (67652010000 * ad)
                && 160000 * (67652010000 * ad) <= u128::MAX) by (nonlinear_arith)
                requires
                    an <= 148881 * ad,
                    1 <= ad <= 65025 * 65025 * 65025 * 65025,
            ;
        }
        let percent = calculate_percentage(actual, max);
        ComparisonResult { distance_squared: actual, percent }
    }
}

/// The squared RGB distance between white and black is `3 * 255^2`.
proof fn lemma_reference_rgb_distance()
    ensures
        rgb_distance_squared(white(), black()) == 195075,
{
    assert(sq(255) == 65025);
}

/// The squared HSL distance between white and black is 10000 (a lightness
/// of 100 against 0), as 67652010000 / 6765201.
proof fn lemma_reference_hsl_distance()
    ensures
        hsl_distance_numerator(hsl_of(white()), hsl_of(black())) == 67652010000,
        hsl_distance_denominator(hsl_of(white()), hsl_of(black())) == 6765201,
{
    let (w, k) = (hsl_of(white()), hsl_of(black()));
    assert(w.hue == 0 && k.hue == 0);
    assert(w.saturation == Ratio { numerator: 0, denominator: 1 });
    assert(k.saturation == Ratio { numerator: 0, denominator: 1 });
    assert(w.lightness == Ratio { numerator: 5100, denominator: 51 });
    assert(k.lightness == Ratio { numerator: 0, denominator: 51 });
    assert(saturation_scale(w, k) == 1);
    assert(lightness_scale(w, k) == 2601);
    assert(sq(2601) == 6765201);
    assert(sq(260100) == 67652010000);
    assert(sq(w.hue - k.hue) == 0);
    assert(sq(0) == 0 && sq(1) == 1);
    assert(w.lightness.numerator * k.lightness.denominator - k.lightness.numerator
        * w.lightness.denominator == 260100);
    assert(w.saturation.numerator * k.saturation.denominator - k.saturation.numerator
        * w.saturation.denominator == 0);
}

proof fn lemma_similarity_of_nothing(ad: int, mn: int, md: int)
    requires
        mn * ad > 0,
    ensures
        similarity(0, ad, mn, md) == 100,
{
    assert(is_similarity(100, 0, ad, mn, md));
    lemma_similarity_is(100, 0, ad, mn, md);
}

proof fn lemma_similarity_of_reference(mn: int, md: int)
    requires
        mn * md > 0,
    ensures
        similarity(mn, md, mn, md) == 0,
{
    assert(99 * 99 * (mn * md) < 10000 * (mn * md)) by (nonlinear_arith)
        requires
            mn * md > 0,
    ;
    assert(is_similarity(0, mn, md, mn, md));
    lemma_similarity_is(0, mn, md, mn, md);
}

/// A colour compared with itself, in RGB space: distance 0 and similarity
/// 100.
pub proof fn lemma_rgb_same_colour(a: RgbColour)
    ensures
        rgb_distance_squared(a, a) == 0,
        rgb_similarity(a, a) == 100,
{
    lemma_reference_rgb_distance();
    assert(sq(0) == 0);
    lemma_similarity_of_nothing(1, 195075, 1);
}

/// A colour compared with itself, in HSL space: distance 0 and similarity
/// 100.
pub proof fn lemma_hsl_same_colour(a: RgbColour)
    ensures
        hsl_distance_numerator(hsl_of(a), hsl_of(a)) == 0,
        hsl_similarity(a, a) == 100,
{
    let x = hsl_of(a);
    let ad = hsl_distance_denominator(x, x);
    lemma_reference_hsl_distance();
    assert(x.saturation.numerator * x.saturation.denominator - x.saturation.numerator
        * x.saturation.denominator == 0);
    assert(x.lightness.numerator * x.lightness.denominator - x.lightness.numerator
        * x.lightness.denominator == 0);
    assert(sq(0) == 0);
    let (b, e) = (saturation_scale(x, x), lightness_scale(x, x));
    assert(0 * (sq(b) * sq(e)) + 0 * sq(e) + 0 * sq(b) == 0);
    assert(ad > 0) by (nonlinear_arith)
        requires
            ad == sq(saturation_scale(x, x)) * sq(lightness_scale(x, x)),
            x.saturation.denominator >= 1,
            x.lightness.denominator >= 1,
    ;
    assert(67652010000 * ad > 0) by (nonlinear_arith)
        requires
            ad > 0,
    ;
    lemma_similarity_of_nothing(ad, 67652010000, 6765201);
}

/// White compared with black has similarity 0 in RGB and in HSL space: it
/// is the reference distance of both.
pub proof fn lemma_white_black_similarity()
    ensures
        rgb_similarity(white(), black()) == 0,
        hsl_similarity(white(), black()) == 0,
{
    lemma_reference_rgb_distance();
    lemma_similarity_of_reference(195075, 1);
    lemma_reference_hsl_distance();
    lemma_similarity_of_reference(67652010000, 6765201);
}

} // verus!
