//! The whole-number parts of a fence's layout: icon sizes, the to-do row
//! metrics and the alignment of to-do rows.

use vstd::prelude::*;

use crate::fence::{Fence, FenceView};
use crate::locales::{keys, t, translated, Locale};
use crate::text::str_eq;

verus! {

/// Alignment of the rows of a to-do note.
#[derive(Debug, Clone, Copy, PartialEq, Eq, Structural)]
pub enum TodoAlign {
    Left,
    Center,
    Right,
}

/// The alignment a stored setting names; anything unknown is `Left`.
pub open spec fn todo_align_of(s: Seq<char>) -> TodoAlign {
    if s == "Right"@ {
        TodoAlign::Right
    } else if s == "Center"@ {
        TodoAlign::Center
    } else {
        TodoAlign::Left
    }
}

impl TodoAlign {
    /// Read an alignment setting.
    pub fn parse(s: &str) -> (r: TodoAlign)
        ensures
            r == todo_align_of(s@),
    {
        if str_eq(s, "Right") {
            TodoAlign::Right
        } else if str_eq(s, "Center") {
            TodoAlign::Center
        } else {
            TodoAlign::Left
        }
    }

    /// Whether the check box sits at the right edge of a row.
    pub fn checkbox_on_right(self) -> (r: bool)
        ensures
            r == (self == TodoAlign::Right),
    {
        match self {
            TodoAlign::Right => true,
            _ => false,
        }
    }
}

/// The icon edge length, in logical units, for an icon size setting.
pub open spec fn icon_px(s: Seq<char>) -> u32 {
    if s == "Tiny"@ {
        16
    } else if s == "Small"@ {
        24
    } else if s == "Large"@ {
        48
    } else if s == "Huge"@ {
        64
    } else {
        32
    }
}

/// Icon edge length for an icon size setting; unknown settings give the
/// medium size.
pub fn icon_size_px(s: &str) -> (r: u32)
    ensures
        r == icon_px(s@),
{
    if str_eq(s, "Tiny") {
        16
    } else if str_eq(s, "Small") {
        24
    } else if str_eq(s, "Large") {
        48
    } else if str_eq(s, "Huge") {
        64
    } else {
        32
    }
}

/// Sizes of a to-do row, in logical units, for a note font size.
#[derive(Debug, Clone, Copy, PartialEq, Eq)]
pub struct NoteMetrics {
    /// Vertical padding added to each row.
    pub row_v_pad: u32,
    /// Edge of the check box.
    pub checkbox_size: u32,
    /// Font size of the row text.
    pub font_size: u32,
}

/// The row metrics for a note font size setting.
pub open spec fn note_metrics_of(s: Seq<char>) -> NoteMetrics {
    if s == "Small"@ {
        NoteMetrics { row_v_pad: 6, checkbox_size: 14, font_size: 12 }
    } else if s == "Large"@ {
        NoteMetrics { row_v_pad: 8, checkbox_size: 18, font_size: 16 }
    } else if s == "Huge"@ {
        NoteMetrics { row_v_pad: 10, checkbox_size: 22, font_size: 20 }
    } else {
        NoteMetrics { row_v_pad: 6, checkbox_size: 16, font_size: 13 }
    }
}

/// Row metrics for a note font size setting; unknown settings give the
/// medium size.
pub fn note_metrics(s: &str) -> (r: NoteMetrics)
    ensures
        r == note_metrics_of(s@),
{
    if str_eq(s, "Small") {
        NoteMetrics { row_v_pad: 6, checkbox_size: 14, font_size: 12 }
    } else if str_eq(s, "Large") {
        NoteMetrics { row_v_pad: 8, checkbox_size: 18, font_size: 16 }
    } else if str_eq(s, "Huge") {
        NoteMetrics { row_v_pad: 10, checkbox_size: 22, font_size: 20 }
    } else {
        NoteMetrics { row_v_pad: 6, checkbox_size: 16, font_size: 13 }
    }
}

/// Every icon size setting gives one of the five sizes, and larger
/// settings give larger icons.
pub proof fn lemma_icon_sizes_ordered(s: Seq<char>)
    ensures
        icon_px(s) == 16 || icon_px(s) == 24 || icon_px(s) == 32 || icon_px(s) == 48 || icon_px(s) == 64,
        icon_px("Tiny"@) < icon_px("Small"@) < icon_px("Medium"@) < icon_px("Large"@) < icon_px("Huge"@),
{
    reveal_strlit("Tiny");
    reveal_strlit("Small");
    reveal_strlit("Medium");
    reveal_strlit("Large");
    reveal_strlit("Huge");
    assert("Medium"@ != "Tiny"@ && "Medium"@ != "Small"@ && "Medium"@ != "Large"@
        && "Medium"@ != "Huge"@) by {
        assert("Medium"@[0] != "Tiny"@[0] && "Medium"@[0] != "Small"@[0]
            && "Medium"@[0] != "Large"@[0] && "Medium"@[0] != "Huge"@[0]);
    }
    assert("Small"@ != "Tiny"@) by { assert("Small"@.len() != "Tiny"@.len()); }
    assert("Large"@ != "Tiny"@ && "Large"@ != "Small"@) by { assert("Large"@[0] != "Small"@[0]); }
    assert("Huge"@ != "Tiny"@ && "Huge"@ != "Small"@ && "Huge"@ != "Large"@) by {
        assert("Huge"@[0] != "Tiny"@[0]);
    }
}

// ---------------------------------------------------------------------------
// Text in a fence
// ---------------------------------------------------------------------------

/// Horizontal alignment of a run of text.
#[derive(Debug, Clone, Copy, PartialEq, Eq, Structural)]
pub enum TextAlign {
    Leading,
    Center,
    Trailing,
}

/// The title's alignment for a title alignment setting; centred unless
/// it says left or right.
pub fn title_alignment(s: &str) -> (r: TextAlign)
    ensures
        r == (if s@ == "Left"@ {
            TextAlign::Leading
        } else if s@ == "Right"@ {
            TextAlign::Trailing
        } else {
            TextAlign::Center
        }),
{
    if str_eq(s, "Left") {
        TextAlign::Leading
    } else if str_eq(s, "Right") {
        TextAlign::Trailing
    } else {
        TextAlign::Center
    }
}

/// A note's alignment for a note alignment setting; leading unless it
/// says right or center.
pub fn note_alignment(s: &str) -> (r: TextAlign)
    ensures
        r == (if s@ == "Right"@ {
            TextAlign::Trailing
        } else if s@ == "Center"@ {
            TextAlign::Center
        } else {
            TextAlign::Leading
        }),
{
    if str_eq(s, "Right") {
        TextAlign::Trailing
    } else if str_eq(s, "Center") {
        TextAlign::Center
    } else {
        TextAlign::Leading
    }
}

/// The title's font size for a title size setting.
pub fn title_font_size(s: &str) -> (r: u32)
    ensures
        r == (if s@ == "Small"@ {
            11u32
        } else if s@ == "Large"@ {
            15u32
        } else {
            13u32
        }),
{
    if str_eq(s, "Small") {
        11
    } else if str_eq(s, "Large") {
        15
    } else {
        13
    }
}

/// The font size of a plain note's text for a note size setting.
pub fn note_font_size(s: &str) -> (r: u32)
    ensures
        r == (if s@ == "Small"@ {
            11u32
        } else if s@ == "Large"@ {
            16u32
        } else if s@ == "Huge"@ {
            20u32
        } else {
            13u32
        }),
{
    if str_eq(s, "Small") {
        11
    } else if str_eq(s, "Large") {
        16
    } else if str_eq(s, "Huge") {
        20
    } else {
        13
    }
}

/// What the body of a fence shows.
#[derive(Debug, PartialEq, Eq)]
pub enum FenceBody {
    /// Rolled up: only the title.
    Nothing,
    /// The rows of a to-do note.
    TodoRows,
    /// The text of a note (a hint when it is empty).
    NoteText(String),
    /// The item icons.
    Icons,
}

/// The text a plain note shows: its content, or a hint when it has none.
pub open spec fn note_shown(code: Seq<char>, f: FenceView) -> Seq<char> {
    match f.note_content {
        Some(c) => if c.len() > 0 {
            c
        } else {
            translated(code, keys::NOTE_EMPTY_HINT@)
        },
        None => translated(code, keys::NOTE_EMPTY_HINT@),
    }
}

/// Decide what a fence's body shows. While a roll animation runs the body
/// is drawn whatever the rolled flag says, so it clips away smoothly.
pub fn fence_body(locale: &Locale, fence: &Fence, animating: bool) -> (r: FenceBody)
    ensures
        !animating && fence@.is_rolled == "true"@ ==> r == FenceBody::Nothing,
        (animating || fence@.is_rolled != "true"@) ==> (if fence@.items_type == "Note"@ {
            if fence@.note_mode == "todo"@ {
                r == FenceBody::TodoRows
            } else {
                r matches FenceBody::NoteText(s) && s@ == note_shown(locale.code(), fence@)
            }
        } else {
            r == FenceBody::Icons
        }),
{
    if !animating && str_eq(fence.is_rolled.as_str(), "true") {
        return FenceBody::Nothing;
    }
    if str_eq(fence.items_type.as_str(), "Note") {
        if str_eq(fence.note_mode.as_str(), "todo") {
            FenceBody::TodoRows
        } else {
            let text = match &fence.note_content {
                Some(c) => if c.as_str().is_empty() {
                    String::from_str(t(locale, keys::NOTE_EMPTY_HINT))
                } else {
                    c.clone()
                },
                None => String::from_str(t(locale, keys::NOTE_EMPTY_HINT)),
            };
            FenceBody::NoteText(text)
        }
    } else {
        FenceBody::Icons
    }
}

} // verus!
