//! Notion color tokens as CSS hex colors: foreground tokens map to a muted
//! hex code, background tokens to a paler companion.
use vstd::prelude::*;
use vstd::string::StringExecFns;

use crate::common::opt_str_view;
use crate::notion::Color;

verus! {

/// The hex code of a foreground color; `None` for `Default` and for background colors.
pub open spec fn spec_map_color(color: Color) -> Option<Seq<char>> {
    match color {
        Color::Blue => Some("#6987b8"@),
        Color::Brown => Some("#8b4c3f"@),
        Color::Gray => Some("#868e9c"@),
        Color::Green => Some("#59b57c"@),
        Color::Orange => Some("#bf7e71"@),
        Color::Pink => Some("#c9699e"@),
        Color::Purple => Some("#9771bd"@),
        Color::Red => Some("#b36472"@),
        Color::Yellow => Some("#b8a36e"@),
        _ => None,
    }
}

/// The hex code of a foreground color; `None` for `Default` and for background colors.
pub fn map_color(color: Color) -> (r: Option<String>)
    ensures
        opt_str_view(r) == spec_map_color(color),
{
    match color {
        Color::Blue => Some(String::from_str("#6987b8")),
        Color::Brown => Some(String::from_str("#8b4c3f")),
        Color::Gray => Some(String::from_str("#868e9c")),
        Color::Green => Some(String::from_str("#59b57c")),
        Color::Orange => Some(String::from_str("#bf7e71")),
        Color::Pink => Some(String::from_str("#c9699e")),
        Color::Purple => Some(String::from_str("#9771bd")),
        Color::Red => Some(String::from_str("#b36472")),
        Color::Yellow => Some(String::from_str("#b8a36e")),
        _ => None,
    }
}

/// The hex code of a background color; `None` for `DefaultBackground` and for foreground colors.
pub open spec fn spec_map_background_color(color: Color) -> Option<Seq<char>> {
    match color {
        Color::BlueBackground => Some("#c0cce1"@),
        Color::BrownBackground => Some("#d0bdac"@),
        Color::GrayBackground => Some("#cccfd5"@),
        Color::GreenBackground => Some("#b1dcc2"@),
        Color::OrangeBackground => Some("#f1dbd2"@),
        Color::PinkBackground => Some("#ebc7db"@),
        Color::PurpleBackground => Some("#d7c8e5"@),
        Color::RedBackground => Some("#e8c2c2"@),
        Color::YellowBackground => Some("#f0e9d7"@),
        _ => None,
    }
}

/// The hex code of a background color; `None` for `DefaultBackground` and for foreground colors.
pub fn map_background_color(color: Color) -> (r: Option<String>)
    ensures
        opt_str_view(r) == spec_map_background_color(color),
{
    match color {
        Color::BlueBackground => Some(String::from_str("#c0cce1")),
        Color::BrownBackground => Some(String::from_str("#d0bdac")),
        Color::GrayBackground => Some(String::from_str("#cccfd5")),
        Color::GreenBackground => Some(String::from_str("#b1dcc2")),
        Color::OrangeBackground => Some(String::from_str("#f1dbd2")),
        Color::PinkBackground => Some(String::from_str("#ebc7db")),
        Color::PurpleBackground => Some(String::from_str("#d7c8e5")),
        Color::RedBackground => Some(String::from_str("#e8c2c2")),
        Color::YellowBackground => Some(String::from_str("#f0e9d7")),
        _ => None,
    }
}

} // verus!
