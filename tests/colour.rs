use colour_fun::colour::{is_valid_colour, is_valid_colour_name, NameResolution, RgbColour};
use colour_fun::error_code::ErrorCode;
use colour_fun::hex::{hex_pair_to_int, is_valid_hex};
use colour_fun::hsl::{HslColour, Ratio};

fn rgb(red: u8, green: u8, blue: u8) -> RgbColour {
    RgbColour { red, green, blue }
}

fn value(r: Ratio) -> f64 {
    r.numerator as f64 / r.denominator as f64
}

fn assert_hsl(actual: HslColour, hue: u32, saturation: f64, lightness: f64) {
    assert_eq!(actual.hue, hue);
    assert!((value(actual.saturation) - saturation).abs() < 1e-4, "{:?}", actual);
    assert!((value(actual.lightness) - lightness).abs() < 1e-4, "{:?}", actual);
}

#[test]
fn colour_six_char() {
    assert!(is_valid_hex("d3d09f"))
}

#[test]
fn colour_three_char() {
    assert!(is_valid_hex("fea"))
}

#[test]
fn six_char_with_prefix() {
    assert!(is_valid_hex("#f34a23"))
}

#[test]
fn three_char_with_prefix() {
    assert!(is_valid_hex("#a4d"))
}

#[test]
fn three_char_invalid() {
    assert!(!is_valid_hex("dkl"))
}

#[test]
fn three_char_with_prefix_invalid() {
    assert!(!is_valid_hex("#9x2"))
}

#[test]
fn six_char_invalid() {
    assert!(!is_valid_hex("dkldsa"))
}

#[test]
fn six_char_with_prefix_invalid() {
    assert!(!is_valid_hex("#9x2444"))
}

#[test]
fn invalid() {
    assert!(!is_valid_hex("fdsfdsfrtre"))
}

#[test]
fn six_char() {
    assert_eq!(
        RgbColour::from_hex("F43C8E"),
        Ok(RgbColour {
            red: 244,
            green: 60,
            blue: 142
        })
    );
}

#[test]
fn three_char() {
    assert_eq!(
        RgbColour::from_hex("d15"),
        Ok(RgbColour {
            red: 221,
            green: 17,
            blue: 85
        })
    );
}

#[test]
fn invalid_char() {
    assert_eq!(
        RgbColour::from_hex("F43C8X"),
        Err(ErrorCode::InvalidHexCharacter("F43C8X".to_string()))
    );
}

#[test]
fn invalid_length() {
    assert_eq!(
        RgbColour::from_hex("F43C"),
        Err(ErrorCode::InvalidHexLength(4))
    );
}

#[test]
fn reddish() {
    assert_hsl(HslColour::from(rgb(244, 43, 32)), 3, 90.5983, 54.11765);
}

#[test]
fn rebeccapurple() {
    let colour = RgbColour::from_hex("663399").unwrap();
    assert_hsl(HslColour::from(colour), 270, 50.000008, 40.0);
}

#[test]
fn white() {
    assert_hsl(HslColour::from(rgb(255, 255, 255)), 0, 0.0, 100.0);
}

#[test]
fn black() {
    assert_hsl(HslColour::from(rgb(0, 0, 0)), 0, 0.0, 0.0);
}

#[test]
fn dark_colour() {
    assert_eq!(
        RgbColour::from_hex("054").unwrap().get_contrasting_colour(),
        RgbColour {
            red: 255,
            green: 255,
            blue: 255
        }
    )
}

#[test]
fn light_colour() {
    assert_eq!(
        RgbColour::from_hex("f54").unwrap().get_contrasting_colour(),
        RgbColour {
            red: 0,
            green: 0,
            blue: 0
        }
    )
}

#[test]
fn prefixed_six_digits_parse() {
    assert_eq!(RgbColour::from_hex("#f34a23"), Ok(rgb(0xf3, 0x4a, 0x23)));
    assert_eq!(RgbColour::from_hex("#a4d"), Ok(rgb(0xaa, 0x44, 0xdd)));
}

#[test]
fn three_digits_equal_their_expansion() {
    assert_eq!(RgbColour::from_hex("d15"), RgbColour::from_hex("dd1155"));
    assert_eq!(RgbColour::from_hex("#FeA"), RgbColour::from_hex("FFeeAA"));
}

#[test]
fn hex_round_trip() {
    for colour in [rgb(0, 0, 0), rgb(255, 255, 255), rgb(1, 16, 171), rgb(244, 60, 142)] {
        assert_eq!(RgbColour::from_hex(&colour.to_hex()), Ok(colour));
    }
}

#[test]
fn to_hex_pads_and_lowers() {
    assert_eq!(rgb(1, 10, 171).to_hex(), "010aab");
    assert_eq!(rgb(244, 60, 142).to_hex(), "f43c8e");
}

#[test]
fn validity_ignores_length() {
    assert!(is_valid_hex("12345"));
    assert_eq!(
        RgbColour::from_hex("12345"),
        Err(ErrorCode::InvalidHexLength(5))
    );
    assert!(is_valid_hex("#0123456789abcdefABCDEF"));
}

#[test]
fn empty_and_bare_prefix_are_invalid() {
    assert!(!is_valid_hex(""));
    assert!(!is_valid_hex("#"));
    assert!(!is_valid_hex("##fff"));
    assert_eq!(RgbColour::from_hex(""), Err(ErrorCode::InvalidHexLength(0)));
    assert_eq!(RgbColour::from_hex("#"), Err(ErrorCode::InvalidHexLength(0)));
    assert_eq!(RgbColour::from_hex("#f34a23a"), Err(ErrorCode::InvalidHexLength(7)));
}

#[test]
fn bad_characters_of_accepted_length() {
    assert_eq!(
        RgbColour::from_hex("#9x2"),
        Err(ErrorCode::InvalidHexCharacter("#9x2".to_string()))
    );
    assert_eq!(
        RgbColour::from_hex("+fffff"),
        Err(ErrorCode::InvalidHexCharacter("+fffff".to_string()))
    );
    assert_eq!(
        RgbColour::from_hex("fdsfdsfrtre"),
        Err(ErrorCode::InvalidHexLength(11))
    );
}

#[test]
fn hex_pairs() {
    assert_eq!(hex_pair_to_int('F', 'f'), Some(255));
    assert_eq!(hex_pair_to_int('0', '9'), Some(9));
    assert_eq!(hex_pair_to_int('a', '0'), Some(160));
    assert_eq!(hex_pair_to_int('g', '0'), None);
}

#[test]
fn contrast_is_black_or_white() {
    let black = rgb(0, 0, 0);
    let white = rgb(255, 255, 255);
    for colour in [black, white, rgb(128, 128, 128), rgb(127, 128, 128), rgb(0, 85, 68)] {
        let c = colour.get_contrasting_colour();
        assert!(c == black || c == white);
    }
    assert_eq!(rgb(128, 128, 128).get_contrasting_colour(), black);
    assert_eq!(rgb(127, 128, 128).get_contrasting_colour(), white);
}

#[test]
fn grey_has_no_hue() {
    for v in [0u8, 1, 77, 128, 254, 255] {
        let hsl = rgb(v, v, v).to_hsl().unwrap();
        assert_eq!(hsl.hue, 0);
        assert_eq!(hsl.saturation.numerator, 0);
    }
}

#[test]
fn hue_sectors_and_wraparound() {
    assert_eq!(rgb(255, 0, 0).to_hsl().unwrap().hue, 0);
    assert_eq!(rgb(0, 255, 0).to_hsl().unwrap().hue, 120);
    assert_eq!(rgb(0, 0, 255).to_hsl().unwrap().hue, 240);
    assert_eq!(rgb(255, 0, 1).to_hsl().unwrap().hue, 0);
    assert_eq!(rgb(255, 0, 3).to_hsl().unwrap().hue, 359);
    assert_eq!(rgb(255, 0, 128).to_hsl().unwrap().hue, 330);
    assert_eq!(rgb(255, 255, 0).to_hsl().unwrap().hue, 60);
}

#[test]
fn messages() {
    assert_eq!(
        ErrorCode::InvalidHexCharacter("F43C8X".to_string()).message(),
        "Invalid: found invalid characters in hex code: F43C8X"
    );
    assert_eq!(
        ErrorCode::InvalidHexLength(4).message(),
        "Invalid: hex code has invalid length: 4. Length must be 3 or 6."
    );
    assert_eq!(
        ErrorCode::InvalidHexLength(1234).message(),
        "Invalid: hex code has invalid length: 1234. Length must be 3 or 6."
    );
    assert_eq!(
        ErrorCode::InvalidColourName("rust".to_string()).message(),
        "Invalid: rust is not a valid css colour name"
    );
    assert_eq!(
        ErrorCode::CanvasError.message(),
        "Canvas: error occurred while getting image data from canvas"
    );
    assert_eq!(
        ErrorCode::HslConversionError(rgb(1, 2, 3).describe()).message(),
        "HSL: could not convert RgbColour { red: 1, green: 2, blue: 3 } to HSL format"
    );
}

#[test]
fn description_matches_debug() {
    let colour = rgb(244, 0, 32);
    assert_eq!(colour.describe(), format!("{:?}", colour));
}

#[test]
fn colour_names() {
    assert_eq!(
        RgbColour::from_colour_name("rebeccapurple", NameResolution::Drawn(vec![102, 51, 153, 255])),
        Ok(rgb(102, 51, 153))
    );
    assert_eq!(
        RgbColour::from_colour_name("rust", NameResolution::Unrecognised),
        Err(ErrorCode::InvalidColourName("rust".to_string()))
    );
    assert_eq!(
        RgbColour::from_colour_name("white", NameResolution::SurfaceFailure),
        Err(ErrorCode::CanvasError)
    );
    assert_eq!(
        RgbColour::from_colour_name("white", NameResolution::Drawn(vec![255, 255])),
        Err(ErrorCode::CanvasError)
    );
}

#[test]
fn valid_colours() {
    assert!(is_valid_colour("fff", None));
    assert!(is_valid_colour("000000", Some(false)));
    assert!(is_valid_colour("yellow", Some(true)));
    assert!(!is_valid_colour("5fs", Some(false)));
    assert!(!is_valid_colour("rust", None));
    assert!(is_valid_colour_name("yellow", "yellow"));
    assert!(!is_valid_colour_name("rust", ""));
    assert!(!is_valid_colour_name("red", "rgb(255, 0, 0)"));
}
