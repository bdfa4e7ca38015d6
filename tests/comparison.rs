use colour_fun::colour::RgbColour;
use colour_fun::comparison::{Comparison, ComparisonResult};

fn rgb(red: u8, green: u8, blue: u8) -> RgbColour {
    RgbColour { red, green, blue }
}

fn assert_result(actual: ComparisonResult, distance: f64, percent: i32) {
    let d = (actual.distance_squared.numerator as f64 / actual.distance_squared.denominator as f64)
        .sqrt();
    assert!((d - distance).abs() < 1e-3, "{:?}", actual);
    assert_eq!(actual.percent, percent);
}

#[test]
fn comparison_1() {
    let result = Comparison::new(rgb(3, 43, 234), rgb(43, 54, 231)).rgb();
    assert_result(result, 41.59327, 90);
}

#[test]
fn comparison_2() {
    let result = Comparison::new(rgb(65, 123, 165), rgb(87, 87, 65)).rgb();
    assert_result(result, 108.535706, 75);
}

#[test]
fn comparison_comparison_1() {
    let result = Comparison::new(rgb(3, 43, 234), rgb(43, 54, 231)).hsl();
    assert_result(result, 20.142855, 79);
}

#[test]
fn comparison_comparison_2() {
    let result = Comparison::new(rgb(65, 123, 165), rgb(87, 87, 65)).hsl();
    assert_result(result, 148.66129, -49);
}

#[test]
fn rgb_distance_is_exact() {
    let result = Comparison::new(rgb(3, 43, 234), rgb(43, 54, 231)).rgb();
    assert_eq!(result.distance_squared.numerator, 1730);
    assert_eq!(result.distance_squared.denominator, 1);
}

#[test]
fn same_colour_is_fully_similar() {
    for colour in [rgb(0, 0, 0), rgb(255, 255, 255), rgb(3, 43, 234), rgb(87, 87, 65)] {
        let c = Comparison::new(colour, colour);
        let r = c.rgb();
        assert_eq!(r.distance_squared.numerator, 0);
        assert_eq!(r.percent, 100);
        let h = c.hsl();
        assert_eq!(h.distance_squared.numerator, 0);
        assert_eq!(h.percent, 100);
    }
}

#[test]
fn white_against_black_is_zero() {
    let c = Comparison::new(rgb(255, 255, 255), rgb(0, 0, 0));
    assert_eq!(c.rgb().percent, 0);
    assert_eq!(c.hsl().percent, 0);
    assert_eq!(c.rgb().distance_squared.numerator, 195075);
}

#[test]
fn hsl_similarity_goes_below_zero() {
    let c = Comparison::new(rgb(255, 0, 1), rgb(0, 0, 0));
    assert!(c.hsl().percent < 0);
}
