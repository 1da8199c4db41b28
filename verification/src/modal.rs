//! The small modal dialogs: their buttons, what keys and clicks do to
//! them, where their buttons are, how tall their text runs, and what they
//! hand back.
//!
//! Drawing and the message loop belong to the host program.

use vstd::prelude::*;

use crate::locales::{keys, t, translated, Locale};
use crate::text::{replace, replace_all, split_char, split_on, starts_with};

verus! {

/// One button of a dialog.
#[derive(Debug, Clone)]
pub struct ButtonSpec {
    pub label: String,
    /// What the dialog reports when this button closes it.
    pub result: i32,
    /// Enter presses this button.
    pub default: bool,
    /// Escape and closing the window press this button.
    pub cancel: bool,
    /// Drawn as a dangerous action.
    pub destructive: bool,
}

/// The answer to a destructive-action confirmation.
#[derive(Debug, Clone, Copy, PartialEq, Eq, Structural)]
pub enum ConfirmResult {
    Confirmed,
    Cancelled,
}

/// Reported by the OK / confirm button.
pub const RESULT_OK: i32 = 1;
/// Reported by the Cancel button.
pub const RESULT_CANCEL: i32 = 2;
/// Reported when the dialog closed without any button deciding, or could
/// not be shown.
pub const RESULT_NONE: i32 = -2147483648;

/// A button with its label, result and roles.
pub open spec fn is_button(
    b: ButtonSpec,
    label: Seq<char>,
    result: i32,
    default: bool,
    cancel: bool,
    destructive: bool,
) -> bool {
    b.label@ == label && b.result == result && b.default == default && b.cancel == cancel
        && b.destructive == destructive
}

/// The buttons of a text input dialog: Cancel, then the default OK.
pub fn input_buttons(locale: &Locale) -> (r: Vec<ButtonSpec>)
    ensures
        r@.len() == 2,
        is_button(r@[0], translated(locale.code(), keys::MODAL_CANCEL@), RESULT_CANCEL, false, true, false),
        is_button(r@[1], translated(locale.code(), keys::MODAL_OK@), RESULT_OK, true, false, false),
{
    let mut r: Vec<ButtonSpec> = Vec::new();
    r.push(ButtonSpec {
        label: String::from_str(t(locale, keys::MODAL_CANCEL)),
        result: RESULT_CANCEL,
        default: false,
        cancel: true,
        destructive: false,
    });
    r.push(ButtonSpec {
        label: String::from_str(t(locale, keys::MODAL_OK)),
        result: RESULT_OK,
        default: true,
        cancel: false,
        destructive: false,
    });
    r
}

/// The buttons of a destructive confirmation: Cancel, then the
/// destructive confirm button, which is deliberately not the default.
pub fn confirm_buttons(locale: &Locale, confirm_text: &str) -> (r: Vec<ButtonSpec>)
    ensures
        r@.len() == 2,
        is_button(r@[0], translated(locale.code(), keys::MODAL_CANCEL@), RESULT_CANCEL, false, true, false),
        is_button(r@[1], confirm_text@, RESULT_OK, false, false, true),
{
    let mut r: Vec<ButtonSpec> = Vec::new();
    r.push(ButtonSpec {
        label: String::from_str(t(locale, keys::MODAL_CANCEL)),
        result: RESULT_CANCEL,
        default: false,
        cancel: true,
        destructive: false,
    });
    r.push(ButtonSpec {
        label: String::from_str(confirm_text),
        result: RESULT_OK,
        default: false,
        cancel: false,
        destructive: true,
    });
    r
}

/// What an input dialog gives its caller: the text when OK closed it.
pub fn input_outcome(result: i32, text: Option<String>) -> (r: Option<String>)
    ensures
        r == (if result == RESULT_OK {
            text
        } else {
            None
        }),
{
    if result == RESULT_OK {
        text
    } else {
        None
    }
}

/// What a confirmation gives its caller: confirmed only through the
/// confirm button.
pub fn confirm_outcome(result: i32) -> (r: ConfirmResult)
    ensures
        r == (if result == RESULT_OK {
            ConfirmResult::Confirmed
        } else {
            ConfirmResult::Cancelled
        }),
{
    if result == RESULT_OK {
        ConfirmResult::Confirmed
    } else {
        ConfirmResult::Cancelled
    }
}

// ---------------------------------------------------------------------------
// Keys, clicks and closing
// ---------------------------------------------------------------------------

/// Virtual key codes the dialog reacts to.
pub const VK_TAB: u32 = 0x09;
pub const VK_RETURN: u32 = 0x0d;
pub const VK_ESCAPE: u32 = 0x1b;

/// The result of the first button with the given role, if any.
pub open spec fn first_with(buttons: Seq<ButtonSpec>, cancel_role: bool) -> Option<i32>
    decreases buttons.len(),
{
    if buttons.len() == 0 {
        None
    } else if (if cancel_role {
        buttons[0].cancel
    } else {
        buttons[0].default
    }) {
        Some(buttons[0].result)
    } else {
        first_with(buttons.drop_first(), cancel_role)
    }
}

fn first_result(buttons: &[ButtonSpec], cancel_role: bool) -> (r: Option<i32>)
    ensures
        r == first_with(buttons@, cancel_role),
{
    let mut i: usize = 0;
    assert(buttons@.subrange(0, buttons@.len() as int) =~= buttons@);
    while i < buttons.len()
        invariant
            i <= buttons@.len(),
            first_with(buttons@.subrange(i as int, buttons@.len() as int), cancel_role)
                == first_with(buttons@, cancel_role),
        decreases buttons@.len() - i,
    {
        let b = &buttons[i];
        let ghost rest = buttons@.subrange(i as int, buttons@.len() as int);
        assert(rest[0] == buttons@[i as int]);
        assert(rest.drop_first() =~= buttons@.subrange(i + 1, buttons@.len() as int));
        let hit = if cancel_role {
            b.cancel
        } else {
            b.default
        };
        if hit {
            return Some(b.result);
        }
        i = i + 1;
    }
    None
}

/// What a key press in a dialog does.
#[derive(Debug, Clone, Copy, PartialEq, Eq)]
pub enum KeyAction {
    /// Close the dialog, reporting `result`; `None` keeps the result it
    /// has (no button decided).
    Close(Option<i32>),
    /// Ignore the key.
    Swallow,
    /// Let the focused control have the key.
    Pass,
}

/// What key `vk` does: Escape closes as the cancel button; Enter presses
/// the default button, except in a multi-line editor where only
/// Ctrl+Enter does; Tab is ignored.
pub open spec fn key_action(buttons: Seq<ButtonSpec>, vk: u32, multiline: bool, ctrl: bool) -> KeyAction {
    if vk == VK_ESCAPE {
        KeyAction::Close(first_with(buttons, true))
    } else if vk == VK_RETURN && (!multiline || ctrl) && first_with(buttons, false) is Some {
        KeyAction::Close(first_with(buttons, false))
    } else if vk == VK_TAB {
        KeyAction::Swallow
    } else {
        KeyAction::Pass
    }
}

/// Decide what a key press does in a dialog.
pub fn dialog_key(buttons: &[ButtonSpec], vk: u32, multiline: bool, ctrl: bool) -> (r: KeyAction)
    ensures
        r == key_action(buttons@, vk, multiline, ctrl),
{
    if vk == VK_ESCAPE {
        return KeyAction::Close(first_result(buttons, true));
    }
    if vk == VK_RETURN && (!multiline || ctrl) {
        let d = first_result(buttons, false);
        if d.is_some() {
            return KeyAction::Close(d);
        }
    }
    if vk == VK_TAB {
        KeyAction::Swallow
    } else {
        KeyAction::Pass
    }
}

/// What closing the dialog window reports: the cancel button's result,
/// if there is a cancel button.
pub fn close_result(buttons: &[ButtonSpec]) -> (r: Option<i32>)
    ensures
        r == first_with(buttons@, true),
{
    first_result(buttons, true)
}

/// A button click completes only when the button is released over the
/// same button it was pressed on; it reports that button's result.
pub fn click_result(buttons: &[ButtonSpec], pressed: i32, released: i32) -> (r: Option<i32>)
    ensures
        r == (if pressed == released && 0 <= released < buttons@.len() {
            Some(buttons@[released as int].result)
        } else {
            None
        }),
{
    if pressed == released && released >= 0 && (released as usize) < buttons.len() {
        Some(buttons[released as usize].result)
    } else {
        None
    }
}

/// How a button is painted.
#[derive(Debug, Clone, Copy, PartialEq, Eq, Structural)]
pub enum ButtonStyle {
    /// Red, for a dangerous action.
    Destructive,
    /// Light, for the button Enter presses.
    Default,
    /// Translucent with an outline.
    Plain,
}

/// The pointer's effect on a button.
#[derive(Debug, Clone, Copy, PartialEq, Eq, Structural)]
pub enum ButtonState {
    Normal,
    Hovered,
    /// Pressed and still under the pointer.
    Pressed,
}

/// The style and state of button `index`, given the buttons under the
/// pointer (`hover`) and pressed down (`pressed`), -1 for none.
pub fn button_look(b: &ButtonSpec, index: i32, hover: i32, pressed: i32) -> (r: (ButtonStyle, ButtonState))
    ensures
        r.0 == (if b.destructive {
            ButtonStyle::Destructive
        } else if b.default {
            ButtonStyle::Default
        } else {
            ButtonStyle::Plain
        }),
        r.1 == (if hover == index && pressed == index {
            ButtonState::Pressed
        } else if hover == index {
            ButtonState::Hovered
        } else {
            ButtonState::Normal
        }),
{
    let style = if b.destructive {
        ButtonStyle::Destructive
    } else if b.default {
        ButtonStyle::Default
    } else {
        ButtonStyle::Plain
    };
    let hovered = hover == index;
    let state = if hovered && pressed == index {
        ButtonState::Pressed
    } else if hovered {
        ButtonState::Hovered
    } else {
        ButtonState::Normal
    };
    (style, state)
}

/// Whether client row `y` lies in the strip along the top that drags the
/// dialog like a title bar (never over the buttons).
pub fn in_drag_strip(y: i32, strip_h: i32, buttons_top: i32) -> (r: bool)
    ensures
        r == (0 <= y && y < strip_h && y < buttons_top),
{
    y >= 0 && y < strip_h && y < buttons_top
}

// ---------------------------------------------------------------------------
// Button geometry
// ---------------------------------------------------------------------------

/// Pixel metrics of the button row.
#[derive(Debug, Clone, Copy, PartialEq, Eq)]
pub struct ButtonRow {
    /// Client width and height.
    pub width: i32,
    pub height: i32,
    /// Padding around the dialog's content.
    pub pad: i32,
    pub button_w: i32,
    pub button_h: i32,
    /// Gap between neighbouring buttons.
    pub gap: i32,
}

/// Buttons are laid out from the right edge leftwards, in order: the
/// right edge of button `i`.
pub open spec fn button_right(row: ButtonRow, i: int) -> int {
    row.width - row.pad - i * (row.button_w + row.gap)
}

/// Whether client pixel (`x`, `y`) lies on button `i`.
pub open spec fn on_button(row: ButtonRow, i: int, x: int, y: int) -> bool {
    let top = row.height - row.pad - row.button_h;
    button_right(row, i) - row.button_w <= x < button_right(row, i) && top <= y < top + row.button_h
}

/// The first of buttons `i..count` under the pointer, or -1.
pub open spec fn button_under(row: ButtonRow, count: int, i: int, x: int, y: int) -> int
    decreases count - i,
{
    if i >= count {
        -1
    } else if on_button(row, i, x, y) {
        i
    } else {
        button_under(row, count, i + 1, x, y)
    }
}

/// The index of the button under client pixel (`x`, `y`), or -1.
pub fn hit_test_button(row: ButtonRow, count: usize, x: i32, y: i32) -> (r: i32)
    requires
        count <= i32::MAX,
    ensures
        r == button_under(row, count as int, 0, x as int, y as int),
{
    let top: i128 = row.height as i128 - row.pad as i128 - row.button_h as i128;
    let mut i: usize = 0;
    while i < count
        invariant
            i <= count <= i32::MAX,
            top == row.height - row.pad - row.button_h,
            button_under(row, count as int, i as int, x as int, y as int) == button_under(
                row,
                count as int,
                0,
                x as int,
                y as int,
            ),
        decreases count - i,
    {
        let step: i128 = row.button_w as i128 + row.gap as i128;
        assert(-0x1_0000_0000 <= step <= 0x1_0000_0000);
        assert(0 <= i * step <= 0x8000_0000 * 0x1_0000_0000 || 0 >= i * step >= -0x8000_0000 * 0x1_0000_0000) by (nonlinear_arith)
            requires
                0 <= i <= 0x8000_0000,
                -0x1_0000_0000 <= step <= 0x1_0000_0000,
        {
        }
        let right: i128 = row.width as i128 - row.pad as i128 - (i as i128) * step;
        let left: i128 = right - row.button_w as i128;
        let xi = x as i128;
        let yi = y as i128;
        if left <= xi && xi < right && top <= yi && yi < top + row.button_h as i128 {
            return i as i32;
        }
        i = i + 1;
    }
    -1
}

// ---------------------------------------------------------------------------
// Text height
// ---------------------------------------------------------------------------

/// The lines a hard line of `n` characters wraps into at `per_line`
/// characters a line; an empty line still takes one.
pub open spec fn wrapped(n: nat, per_line: nat) -> nat {
    let m: nat = if n == 0 { 1 } else { n };
    ((m + per_line - 1) / (per_line as int)) as nat
}

/// The lines all hard lines take.
pub open spec fn wrapped_total(pieces: Seq<Seq<char>>, per_line: nat) -> nat
    decreases pieces.len(),
{
    if pieces.len() == 0 {
        0
    } else {
        wrapped_total(pieces.drop_last(), per_line) + wrapped(pieces.last().len(), per_line)
    }
}

/// The number of lines `text` takes at `per_line` characters a line,
/// honouring its line breaks; at least one.
pub open spec fn line_count(text: Seq<char>, per_line: nat) -> nat {
    let total = wrapped_total(split_on(text, '\n'), per_line);
    if total == 0 {
        1
    } else {
        total
    }
}

proof fn lemma_wrapped_total_bound(pieces: Seq<Seq<char>>, per_line: nat, k: int)
    requires
        per_line >= 1,
        0 <= k <= pieces.len(),
    ensures
        wrapped_total(pieces.take(k), per_line) <= wrapped_total(pieces, per_line),
    decreases pieces.len() - k,
{
    if k < pieces.len() {
        lemma_wrapped_total_bound(pieces, per_line, k + 1);
        assert(pieces.take(k + 1).drop_last() =~= pieces.take(k));
    } else {
        assert(pieces.take(k) =~= pieces);
    }
}

/// How many lines `text` needs in a box `per_line` characters wide.
pub fn wrap_line_count(text: &str, per_line: usize) -> (r: usize)
    requires
        per_line >= 1,
        line_count(text@, per_line as nat) <= usize::MAX,
    ensures
        r == line_count(text@, per_line as nat),
{
    let pieces = split_char(text, '\n');
    let ghost ps = split_on(text@, '\n');
    let mut total: usize = 0;
    let mut i: usize = 0;
    assert(ps.take(0) =~= Seq::<Seq<char>>::empty());
    while i < pieces.len()
        invariant
            i <= pieces@.len(),
            pieces@.len() == ps.len(),
            per_line >= 1,
            ps == split_on(text@, '\n'),
            line_count(text@, per_line as nat) <= usize::MAX,
            forall|k: int| 0 <= k < pieces@.len() ==> #[trigger] pieces@[k]@ == ps[k],
            total == wrapped_total(ps.take(i as int), per_line as nat),
        decreases pieces@.len() - i,
    {
        proof {
            let t = ps.take(i + 1);
            assert(t.drop_last() =~= ps.take(i as int));
            assert(t.last() == pieces@[i as int]@);
            lemma_wrapped_total_bound(ps, per_line as nat, i + 1);
        }
        let n = pieces[i].as_str().unicode_len();
        let m = if n == 0 {
            1
        } else {
            n
        };
        let q = m / per_line;
        let lines = if m % per_line == 0 {
            q
        } else {
            assert(q < usize::MAX) by (nonlinear_arith)
                requires
                    per_line >= 1,
                    q == m / per_line,
                    m % per_line != 0,
            {
            }
            q + 1
        };
        assert(lines == wrapped(n as nat, per_line as nat)) by (nonlinear_arith)
            requires
                per_line >= 1,
                m >= 1,
                m == (if n == 0 { 1 } else { n }),
                lines == m / per_line + if m % per_line == 0 { 0int } else { 1int },
                m <= usize::MAX,
        {
        }
        total = total + lines;
        i = i + 1;
    }
    assert(ps.take(ps.len() as int) =~= ps);
    if total == 0 {
        1
    } else {
        total
    }
}

// ---------------------------------------------------------------------------
// Line breaks in the editor
// ---------------------------------------------------------------------------

/// The text put in the edit control: a multi-line control wants CRLF line
/// breaks, so existing CRLFs are first folded to LF and every LF widened.
pub open spec fn control_text(text: Seq<char>, multiline: bool) -> Seq<char> {
    if multiline {
        replace_all(replace_all(text, "\r\n"@, "\n"@), "\n"@, "\r\n"@)
    } else {
        text
    }
}

/// The text handed back from the edit control: a multi-line control's
/// CRLF line breaks become LF.
pub open spec fn returned_text(raw: Seq<char>, multiline: bool) -> Seq<char> {
    if multiline {
        replace_all(raw, "\r\n"@, "\n"@)
    } else {
        raw
    }
}

proof fn lemma_widened_head(e: Seq<char>)
    ensures
        replace_all(e, seq!['\n'], seq!['\r', '\n']).len() > 0 ==> replace_all(
            e,
            seq!['\n'],
            seq!['\r', '\n'],
        )[0] != '\n',
{
    let lf = seq!['\n'];
    let crlf = seq!['\r', '\n'];
    if e.len() > 0 {
        if starts_with(e, lf) {
            assert((crlf + replace_all(e.subrange(1, e.len() as int), lf, crlf))[0] == '\r');
        } else {
            assert(e.subrange(0, 1) =~= seq![e[0]]);
            assert((seq![e[0]] + replace_all(e.drop_first(), lf, crlf))[0] == e[0]);
        }
    }
}

proof fn lemma_unwiden(e: Seq<char>)
    ensures
        replace_all(replace_all(e, seq!['\n'], seq!['\r', '\n']), seq!['\r', '\n'], seq!['\n']) == e,
    decreases e.len(),
{
    let lf = seq!['\n'];
    let crlf = seq!['\r', '\n'];
    if e.len() == 0 {
    } else if starts_with(e, lf) {
        let rest = e.subrange(1, e.len() as int);
        lemma_unwiden(rest);
        let w = replace_all(rest, lf, crlf);
        let widened = crlf + w;
        assert(widened.subrange(0, 2) =~= crlf);
        assert(widened.subrange(2, widened.len() as int) =~= w);
        assert(lf + rest =~= e) by {
            assert(e.subrange(0, 1) == lf);
            assert(e.subrange(0, 1)[0] == e[0]);
        }
    } else {
        let rest = e.drop_first();
        lemma_unwiden(rest);
        lemma_widened_head(rest);
        let w = replace_all(rest, lf, crlf);
        let widened = seq![e[0]] + w;
        if widened.len() >= 2 {
            assert(widened[1] == w[0]);
        }
        assert(!starts_with(widened, crlf)) by {
            if starts_with(widened, crlf) {
                assert(widened.subrange(0, 2)[1] == widened[1]);
            }
        }
        assert(widened.drop_first() =~= w);
        assert(seq![e[0]] + rest =~= e);
    }
}

/// A multi-line editor gives back exactly the text it was given, with
/// CRLF line breaks folded to LF: the line breaks the control needs are
/// taken out again.
pub proof fn lemma_editor_round_trip(text: Seq<char>)
    ensures
        returned_text(control_text(text, true), true) == replace_all(text, "\r\n"@, "\n"@),
{
    reveal_strlit("\r\n");
    reveal_strlit("\n");
    assert("\r\n"@ =~= seq!['\r', '\n']);
    assert("\n"@ =~= seq!['\n']);
    lemma_unwiden(replace_all(text, seq!['\r', '\n'], seq!['\n']));
}

/// Prepare a default text for the edit control.
pub fn edit_control_text(text: &str, multiline: bool) -> (r: String)
    ensures
        r@ == control_text(text@, multiline),
{
    proof {
        reveal_strlit("\r\n");
        reveal_strlit("\n");
    }
    if multiline {
        let folded = replace(text, "\r\n", "\n");
        replace(folded.as_str(), "\n", "\r\n")
    } else {
        String::from_str(text)
    }
}

/// Normalize what the edit control returned.
pub fn edit_result_text(raw: &str, multiline: bool) -> (r: String)
    ensures
        r@ == returned_text(raw@, multiline),
{
    proof {
        reveal_strlit("\r\n");
    }
    if multiline {
        replace(raw, "\r\n", "\n")
    } else {
        String::from_str(raw)
    }
}

} // verus!
