//! Metro line identifiers, their two-letter codes, and their display colors.

use vstd::prelude::*;
use vstd::string::StringExecFns;
use crate::text::str_eq;

verus! {

/// A transit line, identified by its two-letter code, plus the synthetic
/// `TS` line used for operator messages and `UNKNOWN` for anything else.
#[derive(Clone, Copy, Debug, PartialEq, Eq, Structural)]
pub enum Line {
    RD,
    OR,
    SV,
    YL,
    GR,
    BL,
    TS,
    UNKNOWN,
}

/// An RGB color with eight bits per channel, as the canvas backends take it.
#[derive(Clone, Copy, Debug, PartialEq, Eq, Structural)]
pub struct Rgb {
    pub r: u8,
    pub g: u8,
    pub b: u8,
}

/// The color each line is drawn in.
pub open spec fn spec_line_color(line: Line) -> Rgb {
    match line {
        Line::RD => (Rgb { r: 255, g: 0, b: 0 }),
        Line::OR => (Rgb { r: 255, g: 85, b: 0 }),
        Line::YL => (Rgb { r: 255, g: 255, b: 0 }),
        Line::GR => (Rgb { r: 0, g: 255, b: 0 }),
        Line::BL => (Rgb { r: 0, g: 0, b: 255 }),
        Line::TS => (Rgb { r: 0, g: 51, b: 160 }),
        Line::SV => (Rgb { r: 170, g: 170, b: 170 }),
        Line::UNKNOWN => (Rgb { r: 110, g: 110, b: 110 }),
    }
}

/// The two-letter code each line is labelled with.
pub open spec fn spec_line_string(line: Line) -> Seq<char> {
    match line {
        Line::RD => "RD"@,
        Line::OR => "OR"@,
        Line::YL => "YL"@,
        Line::GR => "GR"@,
        Line::BL => "BL"@,
        Line::TS => "TS"@,
        Line::SV => "SV"@,
        Line::UNKNOWN => "??"@,
    }
}

/// The line a code names, `UNKNOWN` for any unrecognized code.
pub open spec fn spec_string_line(s: Seq<char>) -> Line {
    if s == "RD"@ {
        Line::RD
    } else if s == "OR"@ {
        Line::OR
    } else if s == "YL"@ {
        Line::YL
    } else if s == "GR"@ {
        Line::GR
    } else if s == "BL"@ {
        Line::BL
    } else if s == "TS"@ {
        Line::TS
    } else if s == "SV"@ {
        Line::SV
    } else {
        Line::UNKNOWN
    }
}

/// The color a line is drawn in.
pub fn get_line_color(line: Line) -> (r: Rgb)
    ensures
        r == spec_line_color(line),
{
    match line {
        Line::RD => Rgb { r: 255, g: 0, b: 0 },
        Line::OR => Rgb { r: 255, g: 85, b: 0 },
        Line::YL => Rgb { r: 255, g: 255, b: 0 },
        Line::GR => Rgb { r: 0, g: 255, b: 0 },
        Line::BL => Rgb { r: 0, g: 0, b: 255 },
        Line::TS => Rgb { r: 0, g: 51, b: 160 },
        Line::SV => Rgb { r: 170, g: 170, b: 170 },
        Line::UNKNOWN => Rgb { r: 110, g: 110, b: 110 },
    }
}

/// The two-letter label for a line.
pub fn get_line_string(line: Line) -> (r: String)
    ensures
        r@ == spec_line_string(line),
{
    match line {
        Line::RD => String::from_str("RD"),
        Line::OR => String::from_str("OR"),
        Line::YL => String::from_str("YL"),
        Line::GR => String::from_str("GR"),
        Line::BL => String::from_str("BL"),
        Line::TS => String::from_str("TS"),
        Line::SV => String::from_str("SV"),
        Line::UNKNOWN => String::from_str("??"),
    }
}

/// The line named by a code string.
pub fn get_string_line(line: &str) -> (r: Line)
    ensures
        r == spec_string_line(line@),
{
    if str_eq(line, "RD") {
        Line::RD
    } else if str_eq(line, "OR") {
        Line::OR
    } else if str_eq(line, "YL") {
        Line::YL
    } else if str_eq(line, "GR") {
        Line::GR
    } else if str_eq(line, "BL") {
        Line::BL
    } else if str_eq(line, "TS") {
        Line::TS
    } else if str_eq(line, "SV") {
        Line::SV
    } else {
        Line::UNKNOWN
    }
}

} // verus!
