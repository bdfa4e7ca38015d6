//! Colour representation and conversion: hex codecs, RGB to HSL, contrast
//! selection and similarity between colours, with the arithmetic carried out
//! exactly on integers and rationals.
pub mod error_code;
pub mod colour;
pub mod comparison;
pub mod hex;
pub mod hsl;
