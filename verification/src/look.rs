//! The named colours a fence may use, and the window accent states that
//! turn blur on and off. The colour values themselves are real numbers
//! and belong to the painter.

use vstd::prelude::*;

use crate::text::{ascii_lower, str_eq};

verus! {

/// A colour a fence setting can name.
#[derive(Debug, Clone, Copy, PartialEq, Eq, Structural)]
pub enum NamedColor {
    Red,
    Green,
    Blue,
    Teal,
    Purple,
    Orange,
    Pink,
    Yellow,
    Gray,
    Black,
    White,
    /// A name that is not known; painted white so it stays visible.
    Unknown,
}

/// What `str::to_lowercase` gives: the Unicode lower-case mapping of each
/// character.
pub uninterp spec fn unicode_lower(s: Seq<char>) -> Seq<char>;

/// Every character is ASCII.
pub open spec fn is_ascii_text(s: Seq<char>) -> bool {
    forall|i: int| 0 <= i < s.len() ==> (#[trigger] s[i] as u32) < 128
}

/// `str::to_lowercase`. Lower-casing follows Unicode, whose lower-case
/// mapping of an ASCII character is its ASCII lower case; so on ASCII
/// text the result is the ASCII lower-casing, which is all the colour
/// names need.
#[verifier::external_body]
fn lowercase(s: &str) -> (r: String)
    ensures
        r@ == unicode_lower(s@),
        is_ascii_text(s@) ==> r@ == ascii_lower(s@),
{
    s.to_lowercase()
}

/// The colour a lower-cased name stands for.
pub open spec fn color_of(lower: Seq<char>) -> NamedColor {
    if lower == "red"@ {
        NamedColor::Red
    } else if lower == "green"@ {
        NamedColor::Green
    } else if lower == "blue"@ {
        NamedColor::Blue
    } else if lower == "teal"@ {
        NamedColor::Teal
    } else if lower == "purple"@ {
        NamedColor::Purple
    } else if lower == "orange"@ {
        NamedColor::Orange
    } else if lower == "pink"@ {
        NamedColor::Pink
    } else if lower == "yellow"@ {
        NamedColor::Yellow
    } else if lower == "gray"@ || lower == "grey"@ {
        NamedColor::Gray
    } else if lower == "black"@ {
        NamedColor::Black
    } else if lower == "white"@ {
        NamedColor::White
    } else {
        NamedColor::Unknown
    }
}

/// The colour for an already lower-cased name.
pub fn color_for_lowercase(lower: &str) -> (r: NamedColor)
    ensures
        r == color_of(lower@),
{
    if str_eq(lower, "red") {
        NamedColor::Red
    } else if str_eq(lower, "green") {
        NamedColor::Green
    } else if str_eq(lower, "blue") {
        NamedColor::Blue
    } else if str_eq(lower, "teal") {
        NamedColor::Teal
    } else if str_eq(lower, "purple") {
        NamedColor::Purple
    } else if str_eq(lower, "orange") {
        NamedColor::Orange
    } else if str_eq(lower, "pink") {
        NamedColor::Pink
    } else if str_eq(lower, "yellow") {
        NamedColor::Yellow
    } else if str_eq(lower, "gray") || str_eq(lower, "grey") {
        NamedColor::Gray
    } else if str_eq(lower, "black") {
        NamedColor::Black
    } else if str_eq(lower, "white") {
        NamedColor::White
    } else {
        NamedColor::Unknown
    }
}

/// The colour a setting names, ignoring case.
pub fn parse_named_color(name: &str) -> (r: NamedColor)
    ensures
        r == color_of(unicode_lower(name@)),
        is_ascii_text(name@) ==> r == color_of(ascii_lower(name@)),
{
    let lower = lowercase(name);
    color_for_lowercase(lower.as_str())
}

/// The colour of a fence's background (or border or title): the default
/// look (`None`) when none is set or the setting is the empty string,
/// which is how the configuration spells "default".
pub fn parse_fence_color(custom: &Option<String>) -> (r: Option<NamedColor>)
    ensures
        r == match custom {
            Some(c) => if c@.len() == 0 {
                None
            } else {
                Some(color_of(unicode_lower(c@)))
            },
            None => None,
        },
{
    match custom {
        Some(c) => if c.as_str().unicode_len() == 0 {
            None
        } else {
            Some(parse_named_color(c.as_str()))
        },
        None => None,
    }
}

/// The colour of text: white when none is set or the setting is the
/// empty string ("default").
pub fn parse_text_color(custom: &Option<String>) -> (r: NamedColor)
    ensures
        r == match custom {
            Some(c) => if c@.len() == 0 {
                NamedColor::White
            } else {
                color_of(unicode_lower(c@))
            },
            None => NamedColor::White,
        },
{
    match custom {
        Some(c) => if c.as_str().unicode_len() == 0 {
            NamedColor::White
        } else {
            parse_named_color(c.as_str())
        },
        None => NamedColor::White,
    }
}

// ---------------------------------------------------------------------------
// Accent states
// ---------------------------------------------------------------------------

/// Accent states understood by the window manager.
pub const ACCENT_DISABLED: u32 = 0;
pub const ACCENT_ENABLE_BLURBEHIND: u32 = 3;
pub const ACCENT_ENABLE_HOSTBACKDROP: u32 = 5;

/// The accent state that turns blur on or off: fences sample the
/// backdrop through the compositor, dialogs use the plain blur-behind.
pub fn accent_state(enable: bool, host_backdrop: bool) -> (r: u32)
    ensures
        r == (if !enable {
            ACCENT_DISABLED
        } else if host_backdrop {
            ACCENT_ENABLE_HOSTBACKDROP
        } else {
            ACCENT_ENABLE_BLURBEHIND
        }),
{
    if !enable {
        ACCENT_DISABLED
    } else if host_backdrop {
        ACCENT_ENABLE_HOSTBACKDROP
    } else {
        ACCENT_ENABLE_BLURBEHIND
    }
}

} // verus!
