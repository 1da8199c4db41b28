//! The "Customize" submenu shared by each fence's context menu and by the
//! tray's "Default fence settings" menu: its choice tables, the encoding of
//! menu identifiers, the menu itself, and what a click on it changes.
//!
//! Identifier encoding: every entry carries `id_base + kind * 64 + value`,
//! so one dispatcher recovers `(kind, value)` by subtracting the base.

use vstd::prelude::*;

use crate::config::{FenceDefaults, FenceDefaultsView};
use crate::fence::{Fence, FenceView};
use crate::locales::{keys, t, translate, translated, Locale};
use crate::menu::{is_item, MenuEntry};
use crate::text::{concat3, eq_ignore_ascii_case, owned, same_ignoring_ascii_case, str_eq};

verus! {

pub const KIND_BG_COLOR: usize = 0;
pub const KIND_BORDER_COLOR: usize = 1;
pub const KIND_TITLE_COLOR: usize = 2;
pub const KIND_TEXT_COLOR: usize = 3;
pub const KIND_BORDER_THICK: usize = 4;
pub const KIND_ICON_SIZE: usize = 5;
pub const KIND_ICON_SPACING: usize = 6;
pub const KIND_BOLD_TOGGLE: usize = 7;
pub const KIND_BLUR_TOGGLE: usize = 8;
pub const KIND_BG_OPACITY: usize = 9;
pub const KIND_LABELS_TOGGLE: usize = 10;
pub const KIND_TITLE_ALIGN: usize = 11;
pub const KIND_NOTE_ALIGN: usize = 12;
pub const KIND_TEXT_OUTLINE_TOGGLE: usize = 13;
pub const KIND_COUNT: usize = 14;
pub const KIND_STRIDE: usize = 64;

// ---------------------------------------------------------------------------
// Identifier encoding
// ---------------------------------------------------------------------------

pub open spec fn encoded(id_base: int, kind: int, value: int) -> int {
    id_base + kind * 64 + value
}

pub open spec fn decoded(id_base: int, encoded: int) -> (int, int) {
    ((encoded - id_base) / 64, (encoded - id_base) % 64)
}

pub fn encode(id_base: usize, kind: usize, value: usize) -> (r: usize)
    requires
        id_base + kind * 64 + value <= usize::MAX,
    ensures
        r == encoded(id_base as int, kind as int, value as int),
{
    id_base + kind * KIND_STRIDE + value
}

pub fn decode(id_base: usize, encoded: usize) -> (r: (usize, usize))
    requires
        id_base <= encoded,
    ensures
        r.0 == decoded(id_base as int, encoded as int).0,
        r.1 == decoded(id_base as int, encoded as int).1,
{
    let code = encoded - id_base;
    (code / KIND_STRIDE, code % KIND_STRIDE)
}

/// Decoding an encoded identifier gives back its kind and value, and
/// encoding a decoded identifier gives back the identifier.
pub proof fn lemma_encode_decode(id_base: int, kind: int, value: int, id: int)
    requires
        0 <= kind,
        0 <= value < 64,
        id_base <= id,
    ensures
        decoded(id_base, encoded(id_base, kind, value)) == (kind, value),
        encoded(id_base, decoded(id_base, id).0, decoded(id_base, id).1) == id,
{
    assert((kind * 64 + value) / 64 == kind) by (nonlinear_arith)
        requires
            0 <= kind,
            0 <= value < 64,
    ;
    assert((kind * 64 + value) % 64 == value) by (nonlinear_arith)
        requires
            0 <= kind,
            0 <= value < 64,
    ;
    let c = id - id_base;
    assert((c / 64) * 64 + c % 64 == c) by (nonlinear_arith)
        requires
            c >= 0,
    ;
}

// ---------------------------------------------------------------------------
// Choice tables
// ---------------------------------------------------------------------------

pub open spec fn named_color_table() -> Seq<(Seq<char>, Seq<char>)> {
    seq![
        (""@, "color.default"@),
        ("Red"@, "color.red"@),
        ("Green"@, "color.green"@),
        ("Blue"@, "color.blue"@),
        ("Teal"@, "color.teal"@),
        ("Purple"@, "color.purple"@),
        ("Orange"@, "color.orange"@),
        ("Pink"@, "color.pink"@),
        ("Yellow"@, "color.yellow"@),
        ("Gray"@, "color.gray"@),
        ("Black"@, "color.black"@),
        ("White"@, "color.white"@),
    ]
}

pub open spec fn border_thickness_table() -> Seq<(i32, Seq<char>)> {
    seq![(0, "0 px"@), (1, "1 px"@), (2, "2 px"@), (3, "3 px"@), (4, "4 px"@), (6, "6 px"@)]
}

pub open spec fn icon_size_table() -> Seq<(Seq<char>, Seq<char>)> {
    seq![
        ("Tiny"@, "size.tiny"@),
        ("Small"@, "size.small"@),
        ("Medium"@, "size.medium"@),
        ("Large"@, "size.large"@),
        ("Huge"@, "size.huge"@),
    ]
}

pub open spec fn icon_spacing_table() -> Seq<(i32, Seq<char>)> {
    seq![(0, "0 px"@), (3, "3 px"@), (5, "5 px"@), (8, "8 px"@), (12, "12 px"@), (16, "16 px"@)]
}

pub open spec fn title_align_table() -> Seq<(Seq<char>, Seq<char>)> {
    seq![("Left"@, "align.left"@), ("Center"@, "align.center"@), ("Right"@, "align.right"@)]
}

/// Labels of the background-opacity presets (0, 15, 30, 45, 60, 80 and
/// 100 percent, in that order).
pub open spec fn bg_opacity_label_table() -> Seq<Seq<char>> {
    seq![
        "opacity.transparent"@,
        "15%"@,
        "30%"@,
        "opacity.default"@,
        "60%"@,
        "80%"@,
        "opacity.solid"@,
    ]
}

pub fn named_colors() -> (r: &'static [(&'static str, &'static str)])
    ensures
        r@.len() == named_color_table().len(),
        forall|i: int|
            0 <= i < r@.len() ==> (#[trigger] r@[i]).0@ == named_color_table()[i].0 && r@[i].1@
                == named_color_table()[i].1,
{
    &[
        ("", "color.default"),
        ("Red", "color.red"),
        ("Green", "color.green"),
        ("Blue", "color.blue"),
        ("Teal", "color.teal"),
        ("Purple", "color.purple"),
        ("Orange", "color.orange"),
        ("Pink", "color.pink"),
        ("Yellow", "color.yellow"),
        ("Gray", "color.gray"),
        ("Black", "color.black"),
        ("White", "color.white"),
    ]
}

pub fn border_thicknesses() -> (r: &'static [(i32, &'static str)])
    ensures
        r@.len() == border_thickness_table().len(),
        forall|i: int|
            0 <= i < r@.len() ==> (#[trigger] r@[i]).0 == border_thickness_table()[i].0
                && r@[i].1@ == border_thickness_table()[i].1,
{
    &[(0, "0 px"), (1, "1 px"), (2, "2 px"), (3, "3 px"), (4, "4 px"), (6, "6 px")]
}

pub fn icon_sizes() -> (r: &'static [(&'static str, &'static str)])
    ensures
        r@.len() == icon_size_table().len(),
        forall|i: int|
            0 <= i < r@.len() ==> (#[trigger] r@[i]).0@ == icon_size_table()[i].0 && r@[i].1@
                == icon_size_table()[i].1,
{
    &[
        ("Tiny", "size.tiny"),
        ("Small", "size.small"),
        ("Medium", "size.medium"),
        ("Large", "size.large"),
        ("Huge", "size.huge"),
    ]
}

pub fn icon_spacings() -> (r: &'static [(i32, &'static str)])
    ensures
        r@.len() == icon_spacing_table().len(),
        forall|i: int|
            0 <= i < r@.len() ==> (#[trigger] r@[i]).0 == icon_spacing_table()[i].0 && r@[i].1@
                == icon_spacing_table()[i].1,
{
    &[(0, "0 px"), (3, "3 px"), (5, "5 px"), (8, "8 px"), (12, "12 px"), (16, "16 px")]
}

pub fn title_aligns() -> (r: &'static [(&'static str, &'static str)])
    ensures
        r@.len() == title_align_table().len(),
        forall|i: int|
            0 <= i < r@.len() ==> (#[trigger] r@[i]).0@ == title_align_table()[i].0 && r@[i].1@
                == title_align_table()[i].1,
{
    &[("Left", "align.left"), ("Center", "align.center"), ("Right", "align.right")]
}

pub fn bg_opacity_labels() -> (r: &'static [&'static str])
    ensures
        r@.len() == bg_opacity_label_table().len(),
        forall|i: int| 0 <= i < r@.len() ==> (#[trigger] r@[i])@ == bg_opacity_label_table()[i],
{
    &[
        "opacity.transparent",
        "15%",
        "30%",
        "opacity.default",
        "60%",
        "80%",
        "opacity.solid",
    ]
}

// ---------------------------------------------------------------------------
// Labels
// ---------------------------------------------------------------------------

/// The text shown for a choice label: labels that name a translated string
/// are translated, literal labels such as `"15%"` are shown as they are.
pub open spec fn resolved_label(code: Seq<char>, label: Seq<char>) -> Seq<char> {
    if label == keys::COLOR_DEFAULT@ || label == keys::COLOR_RED@ || label == keys::COLOR_GREEN@
        || label == keys::COLOR_BLUE@ || label == keys::COLOR_TEAL@ || label == keys::COLOR_PURPLE@
        || label == keys::COLOR_ORANGE@ || label == keys::COLOR_PINK@ || label
        == keys::COLOR_YELLOW@ || label == keys::COLOR_GRAY@ || label == keys::COLOR_BLACK@
        || label == keys::COLOR_WHITE@ || label == keys::SIZE_TINY@ || label == keys::SIZE_SMALL@
        || label == keys::SIZE_MEDIUM@ || label == keys::SIZE_LARGE@ || label == keys::SIZE_HUGE@
        || label == keys::OPACITY_TRANSPARENT@ || label == keys::OPACITY_DEFAULT@ || label
        == keys::OPACITY_SOLID@ || label == keys::ALIGN_LEFT@ || label == keys::ALIGN_CENTER@
        || label == keys::ALIGN_RIGHT@ {
        translated(code, label)
    } else {
        label
    }
}

fn is_translated_label(label: &str) -> (r: bool)
    ensures
        r == (label@ == keys::COLOR_DEFAULT@ || label@ == keys::COLOR_RED@ || label@
            == keys::COLOR_GREEN@ || label@ == keys::COLOR_BLUE@ || label@ == keys::COLOR_TEAL@
            || label@ == keys::COLOR_PURPLE@ || label@ == keys::COLOR_ORANGE@ || label@
            == keys::COLOR_PINK@ || label@ == keys::COLOR_YELLOW@ || label@ == keys::COLOR_GRAY@
            || label@ == keys::COLOR_BLACK@ || label@ == keys::COLOR_WHITE@ || label@
            == keys::SIZE_TINY@ || label@ == keys::SIZE_SMALL@ || label@ == keys::SIZE_MEDIUM@
            || label@ == keys::SIZE_LARGE@ || label@ == keys::SIZE_HUGE@ || label@
            == keys::OPACITY_TRANSPARENT@ || label@ == keys::OPACITY_DEFAULT@ || label@
            == keys::OPACITY_SOLID@ || label@ == keys::ALIGN_LEFT@ || label@ == keys::ALIGN_CENTER@
            || label@ == keys::ALIGN_RIGHT@),
{
    str_eq(label, keys::COLOR_DEFAULT) || str_eq(label, keys::COLOR_RED) || str_eq(
        label,
        keys::COLOR_GREEN,
    ) || str_eq(label, keys::COLOR_BLUE) || str_eq(label, keys::COLOR_TEAL) || str_eq(
        label,
        keys::COLOR_PURPLE,
    ) || str_eq(label, keys::COLOR_ORANGE) || str_eq(label, keys::COLOR_PINK) || str_eq(
        label,
        keys::COLOR_YELLOW,
    ) || str_eq(label, keys::COLOR_GRAY) || str_eq(label, keys::COLOR_BLACK) || str_eq(
        label,
        keys::COLOR_WHITE,
    ) || str_eq(label, keys::SIZE_TINY) || str_eq(label, keys::SIZE_SMALL) || str_eq(
        label,
        keys::SIZE_MEDIUM,
    ) || str_eq(label, keys::SIZE_LARGE) || str_eq(label, keys::SIZE_HUGE) || str_eq(
        label,
        keys::OPACITY_TRANSPARENT,
    ) || str_eq(label, keys::OPACITY_DEFAULT) || str_eq(label, keys::OPACITY_SOLID) || str_eq(
        label,
        keys::ALIGN_LEFT,
    ) || str_eq(label, keys::ALIGN_CENTER) || str_eq(label, keys::ALIGN_RIGHT)
}

/// Resolve a choice label: translate it when it names a translated string,
/// otherwise show it as it is.
pub fn resolve_label(locale: &Locale, label: &'static str) -> (r: &'static str)
    ensures
        r@ == resolved_label(locale.code(), label@),
{
    if is_translated_label(label) {
        t(locale, label)
    } else {
        label
    }
}

/// `"<translated label_key>: <current_label>"`, the title of a submenu.
pub fn label_with_current(locale: &Locale, label_key: &'static str, current_label: &str) -> (r:
    String)
    ensures
        r@ == translated(locale.code(), label_key@) + ": "@ + current_label@,
{
    concat3(t(locale, label_key), ": ", current_label)
}

// ---------------------------------------------------------------------------
// The menu
// ---------------------------------------------------------------------------

/// What the Customize menu shows for one fence or for the defaults.
/// `bg_opacity_choice` is the index of the opacity preset equal to the
/// current opacity, if there is one.
#[derive(Debug)]
pub struct CustomizeView {
    pub bg_color: String,
    pub border_color: String,
    pub title_color: String,
    pub text_color: String,
    pub border_thick: i32,
    pub icon_size: String,
    pub icon_spacing: i32,
    pub bold: bool,
    pub blur_enabled: bool,
    pub bg_opacity_choice: Option<usize>,
    pub labels: bool,
    pub text_outline: bool,
    pub title_align: String,
    /// Present only for note fences, whose text alignment is offered too.
    pub note_align: Option<String>,
}

/// The contents of a [`CustomizeView`].
pub struct CustomizeSpec {
    pub bg_color: Seq<char>,
    pub border_color: Seq<char>,
    pub title_color: Seq<char>,
    pub text_color: Seq<char>,
    pub border_thick: i32,
    pub icon_size: Seq<char>,
    pub icon_spacing: i32,
    pub bold: bool,
    pub blur_enabled: bool,
    pub bg_opacity_choice: Option<usize>,
    pub labels: bool,
    pub text_outline: bool,
    pub title_align: Seq<char>,
    pub note_align: Option<Seq<char>>,
}

impl View for CustomizeView {
    type V = CustomizeSpec;

    open spec fn view(&self) -> CustomizeSpec {
        CustomizeSpec {
            bg_color: self.bg_color@,
            border_color: self.border_color@,
            title_color: self.title_color@,
            text_color: self.text_color@,
            border_thick: self.border_thick,
            icon_size: self.icon_size@,
            icon_spacing: self.icon_spacing,
            bold: self.bold,
            blur_enabled: self.blur_enabled,
            bg_opacity_choice: self.bg_opacity_choice,
            labels: self.labels,
            text_outline: self.text_outline,
            title_align: self.title_align@,
            note_align: crate::fence::opt_chars(self.note_align),
        }
    }
}

/// What the Customize menu of fence `f` shows.
pub open spec fn fence_customize_view(f: FenceView, bg_opacity_choice: Option<usize>) -> CustomizeSpec {
    CustomizeSpec {
        bg_color: or_empty(f.custom_color),
        border_color: or_empty(f.fence_border_color),
        title_color: or_empty(f.title_text_color),
        text_color: or_empty(f.text_color),
        border_thick: f.fence_border_thickness,
        icon_size: f.icon_size,
        icon_spacing: f.icon_spacing,
        bold: f.bold_title_text == "true"@,
        blur_enabled: f.blur_enabled == "true"@,
        bg_opacity_choice,
        labels: f.show_item_labels == "true"@,
        text_outline: f.text_outline_enabled == "true"@,
        title_align: f.title_text_align,
        note_align: if f.items_type == "Note"@ { Some(f.note_text_align) } else { None },
    }
}

/// What the defaults menu shows for template `d`.
pub open spec fn defaults_customize_view(d: FenceDefaultsView, bg_opacity_choice: Option<usize>) -> CustomizeSpec {
    CustomizeSpec {
        bg_color: or_empty(d.custom_color),
        border_color: or_empty(d.fence_border_color),
        title_color: or_empty(d.title_text_color),
        text_color: or_empty(d.text_color),
        border_thick: d.fence_border_thickness,
        icon_size: d.icon_size,
        icon_spacing: d.icon_spacing,
        bold: d.bold_title_text == "true"@,
        blur_enabled: d.blur_enabled == "true"@,
        bg_opacity_choice,
        labels: d.show_item_labels == "true"@,
        text_outline: d.text_outline_enabled == "true"@,
        title_align: d.title_text_align,
        note_align: None,
    }
}

/// The characters of an optional string, or nothing.
pub open spec fn or_empty(o: Option<Seq<char>>) -> Seq<char> {
    match o {
        Some(s) => s,
        None => Seq::empty(),
    }
}

fn copy_or_empty(o: &Option<String>) -> (r: String)
    ensures
        r@ == or_empty(crate::fence::opt_chars(*o)),
{
    match o {
        Some(s) => owned(s.as_str()),
        None => String::new(),
    }
}

impl CustomizeView {
    /// The view of a fence's settings.
    pub fn from_fence(f: &Fence, bg_opacity_choice: Option<usize>) -> (r: CustomizeView)
        ensures
            r@ == fence_customize_view(f@, bg_opacity_choice),
    {
        CustomizeView {
            bg_color: copy_or_empty(&f.custom_color),
            border_color: copy_or_empty(&f.fence_border_color),
            title_color: copy_or_empty(&f.title_text_color),
            text_color: copy_or_empty(&f.text_color),
            border_thick: f.fence_border_thickness,
            icon_size: owned(f.icon_size.as_str()),
            icon_spacing: f.icon_spacing,
            bold: str_eq(f.bold_title_text.as_str(), "true"),
            blur_enabled: str_eq(f.blur_enabled.as_str(), "true"),
            bg_opacity_choice,
            labels: str_eq(f.show_item_labels.as_str(), "true"),
            text_outline: str_eq(f.text_outline_enabled.as_str(), "true"),
            title_align: owned(f.title_text_align.as_str()),
            note_align: if str_eq(f.items_type.as_str(), "Note") {
                Some(owned(f.note_text_align.as_str()))
            } else {
                None
            },
        }
    }

    /// The view of the template for new fences; it has no note alignment.
    pub fn from_defaults(d: &FenceDefaults, bg_opacity_choice: Option<usize>) -> (r:
        CustomizeView)
        ensures
            r@ == defaults_customize_view(d@, bg_opacity_choice),
    {
        CustomizeView {
            bg_color: copy_or_empty(&d.custom_color),
            border_color: copy_or_empty(&d.fence_border_color),
            title_color: copy_or_empty(&d.title_text_color),
            text_color: copy_or_empty(&d.text_color),
            border_thick: d.fence_border_thickness,
            icon_size: owned(d.icon_size.as_str()),
            icon_spacing: d.icon_spacing,
            bold: str_eq(d.bold_title_text.as_str(), "true"),
            blur_enabled: str_eq(d.blur_enabled.as_str(), "true"),
            bg_opacity_choice,
            labels: str_eq(d.show_item_labels.as_str(), "true"),
            text_outline: str_eq(d.text_outline_enabled.as_str(), "true"),
            title_align: owned(d.title_text_align.as_str()),
            note_align: None,
        }
    }
}

/// The first position holding `true`, if any.
pub open spec fn first_checked(checks: Seq<bool>) -> Option<int>
    decreases checks.len(),
{
    if checks.len() == 0 {
        None
    } else if checks[0] {
        Some(0)
    } else {
        match first_checked(checks.drop_first()) {
            Some(i) => Some(i + 1),
            None => None,
        }
    }
}

proof fn lemma_first_checked(checks: Seq<bool>, i: int)
    requires
        0 <= i <= checks.len(),
        forall|j: int| 0 <= j < i ==> !checks[j],
    ensures
        i < checks.len() && checks[i] ==> first_checked(checks) == Some(i),
        i == checks.len() ==> first_checked(checks) is None,
    decreases i,
{
    if i > 0 {
        lemma_first_checked(checks.drop_first(), i - 1);
    }
}

/// The label shown after a submenu's title: the first checked choice's
/// label, or `fallback` when none is checked.
pub open spec fn current_label(
    code: Seq<char>,
    labels: Seq<Seq<char>>,
    checks: Seq<bool>,
    fallback: Seq<char>,
) -> Seq<char> {
    match first_checked(checks) {
        Some(i) => resolved_label(code, labels[i]),
        None => fallback,
    }
}

/// `e` is the submenu for `kind`: one item per choice, identified by
/// `id_base + kind * 64 + position`, labelled with the resolved choice
/// label and checked where `checks` says, titled with the translated
/// `label_key` followed by the current choice.
pub open spec fn is_choice_popup(
    e: MenuEntry,
    code: Seq<char>,
    id_base: int,
    kind: int,
    labels: Seq<Seq<char>>,
    checks: Seq<bool>,
    fallback: Seq<char>,
    label_key: Seq<char>,
) -> bool {
    match e {
        MenuEntry::Popup { label, entries } => {
            &&& label@ == translated(code, label_key) + ": "@ + current_label(
                code,
                labels,
                checks,
                fallback,
            )
            &&& entries@.len() == labels.len()
            &&& forall|i: int|
                0 <= i < labels.len() ==> is_item(
                    #[trigger] entries@[i],
                    encoded(id_base, kind, i),
                    resolved_label(code, labels[i]),
                    checks[i],
                )
        },
        _ => false,
    }
}

fn choice_popup(
    locale: &Locale,
    id_base: usize,
    kind: usize,
    labels: &Vec<&'static str>,
    checks: &Vec<bool>,
    fallback: &str,
    label_key: &'static str,
) -> (e: MenuEntry)
    requires
        labels@.len() == checks@.len(),
        labels@.len() <= 64,
        id_base + kind * 64 + 64 <= usize::MAX,
    ensures
        is_choice_popup(
            e,
            locale.code(),
            id_base as int,
            kind as int,
            labels@.map_values(|l: &'static str| l@),
            checks@,
            fallback@,
            label_key@,
        ),
{
    let ghost ls = labels@.map_values(|l: &'static str| l@);
    let mut entries: Vec<MenuEntry> = Vec::new();
    let mut current: Option<&'static str> = None;
    let mut i: usize = 0;
    while i < labels.len()
        invariant
            i <= labels@.len(),
            labels@.len() == checks@.len(),
            labels@.len() <= 64,
            id_base + kind * 64 + 64 <= usize::MAX,
            ls == labels@.map_values(|l: &'static str| l@),
            entries@.len() == i,
            forall|j: int|
                0 <= j < i ==> is_item(
                    #[trigger] entries@[j],
                    encoded(id_base as int, kind as int, j),
                    resolved_label(locale.code(), ls[j]),
                    checks@[j],
                ),
            match current {
                Some(c) => exists|j: int|
                    0 <= j < i && checks@[j] && (forall|k: int| 0 <= k < j ==> !checks@[k])
                        && c@ == resolved_label(locale.code(), ls[j]),
                None => forall|k: int| 0 <= k < i ==> !checks@[k],
            },
        decreases labels@.len() - i,
    {
        let label = resolve_label(locale, labels[i]);
        let id = encode(id_base, kind, i);
        entries.push(MenuEntry::Item { id, label: owned(label), checked: checks[i] });
        if current.is_none() && checks[i] {
            current = Some(label);
        }
        i = i + 1;
    }
    let shown: &str = match current {
        Some(c) => c,
        None => fallback,
    };
    proof {
        match current {
            Some(c) => {
                let j = choose|j: int|
                    0 <= j < labels@.len() && checks@[j] && (forall|k: int|
                        0 <= k < j ==> !checks@[k]) && c@ == resolved_label(locale.code(), ls[j]);
                lemma_first_checked(checks@, j);
            },
            None => {
                lemma_first_checked(checks@, checks@.len() as int);
            },
        }
    }
    let title = label_with_current(locale, label_key, shown);
    MenuEntry::Popup { label: title, entries }
}

/// Checks for a color submenu: a choice is checked when it names the
/// current color, ignoring ASCII case.
pub open spec fn color_checks(current: Seq<char>) -> Seq<bool> {
    named_color_table().map_values(|c: (Seq<char>, Seq<char>)| eq_ignore_ascii_case(c.0, current))
}

pub open spec fn int_checks(table: Seq<(i32, Seq<char>)>, current: i32) -> Seq<bool> {
    table.map_values(|c: (i32, Seq<char>)| c.0 == current)
}

pub open spec fn str_checks(table: Seq<(Seq<char>, Seq<char>)>, current: Seq<char>) -> Seq<bool> {
    table.map_values(|c: (Seq<char>, Seq<char>)| c.0 == current)
}

pub open spec fn opacity_checks(choice: Option<usize>) -> Seq<bool> {
    Seq::new(7, |i: int| choice == Some(i as usize))
}

pub open spec fn labels_of<T>(table: Seq<(T, Seq<char>)>) -> Seq<Seq<char>> {
    table.map_values(|c: (T, Seq<char>)| c.1)
}

fn color_popup(locale: &Locale, id_base: usize, kind: usize, current: &str, label_key: &'static str)
    -> (e: MenuEntry)
    requires
        id_base + kind * 64 + 64 <= usize::MAX,
    ensures
        is_choice_popup(
            e,
            locale.code(),
            id_base as int,
            kind as int,
            labels_of(named_color_table()),
            color_checks(current@),
            resolved_label(locale.code(), keys::COLOR_DEFAULT@),
            label_key@,
        ),
{
    let table = named_colors();
    let mut labels: Vec<&'static str> = Vec::new();
    let mut checks: Vec<bool> = Vec::new();
    let mut i: usize = 0;
    while i < table.len()
        invariant
            table@.len() == named_color_table().len(),
            forall|j: int|
                0 <= j < table@.len() ==> (#[trigger] table@[j]).0@ == named_color_table()[j].0
                    && table@[j].1@ == named_color_table()[j].1,
            i <= table@.len(),
            labels@.len() == i,
            checks@.len() == i,
            forall|j: int| 0 <= j < i ==> (#[trigger] labels@[j])@ == named_color_table()[j].1,
            forall|j: int|
                0 <= j < i ==> #[trigger] checks@[j] == eq_ignore_ascii_case(
                    named_color_table()[j].0,
                    current@,
                ),
        decreases table@.len() - i,
    {
        let (val, lab) = table[i];
        labels.push(lab);
        checks.push(same_ignoring_ascii_case(val, current));
        i = i + 1;
    }
    assert(labels@.map_values(|l: &'static str| l@) =~= labels_of(named_color_table()));
    assert(checks@ =~= color_checks(current@));
    let fallback = resolve_label(locale, "color.default");
    choice_popup(locale, id_base, kind, &labels, &checks, fallback, label_key)
}

fn int_popup(
    locale: &Locale,
    id_base: usize,
    kind: usize,
    table: &'static [(i32, &'static str)],
    current: i32,
    label_key: &'static str,
) -> (e: MenuEntry)
    requires
        id_base + kind * 64 + 64 <= usize::MAX,
        table@.len() <= 64,
    ensures
        is_choice_popup(
            e,
            locale.code(),
            id_base as int,
            kind as int,
            table@.map_values(|c: (i32, &'static str)| c.1@),
            table@.map_values(|c: (i32, &'static str)| c.0 == current),
            "?"@,
            label_key@,
        ),
{
    let mut labels: Vec<&'static str> = Vec::new();
    let mut checks: Vec<bool> = Vec::new();
    let mut i: usize = 0;
    while i < table.len()
        invariant
            i <= table@.len(),
            labels@.len() == i,
            checks@.len() == i,
            forall|j: int| 0 <= j < i ==> (#[trigger] labels@[j]) == table@[j].1,
            forall|j: int| 0 <= j < i ==> #[trigger] checks@[j] == (table@[j].0 == current),
        decreases table@.len() - i,
    {
        let (val, lab) = table[i];
        labels.push(lab);
        checks.push(val == current);
        i = i + 1;
    }
    assert(labels@.map_values(|l: &'static str| l@) =~= table@.map_values(
        |c: (i32, &'static str)| c.1@,
    ));
    assert(checks@ =~= table@.map_values(|c: (i32, &'static str)| c.0 == current));
    choice_popup(locale, id_base, kind, &labels, &checks, "?", label_key)
}

fn str_popup(
    locale: &Locale,
    id_base: usize,
    kind: usize,
    table: &'static [(&'static str, &'static str)],
    current: &str,
    label_key: &'static str,
) -> (e: MenuEntry)
    requires
        id_base + kind * 64 + 64 <= usize::MAX,
        table@.len() <= 64,
    ensures
        is_choice_popup(
            e,
            locale.code(),
            id_base as int,
            kind as int,
            table@.map_values(|c: (&'static str, &'static str)| c.1@),
            table@.map_values(|c: (&'static str, &'static str)| c.0@ == current@),
            "?"@,
            label_key@,
        ),
{
    let mut labels: Vec<&'static str> = Vec::new();
    let mut checks: Vec<bool> = Vec::new();
    let mut i: usize = 0;
    while i < table.len()
        invariant
            i <= table@.len(),
            labels@.len() == i,
            checks@.len() == i,
            forall|j: int| 0 <= j < i ==> (#[trigger] labels@[j]) == table@[j].1,
            forall|j: int| 0 <= j < i ==> #[trigger] checks@[j] == (table@[j].0@ == current@),
        decreases table@.len() - i,
    {
        let (val, lab) = table[i];
        labels.push(lab);
        checks.push(str_eq(val, current));
        i = i + 1;
    }
    assert(labels@.map_values(|l: &'static str| l@) =~= table@.map_values(
        |c: (&'static str, &'static str)| c.1@,
    ));
    assert(checks@ =~= table@.map_values(|c: (&'static str, &'static str)| c.0@ == current@));
    choice_popup(locale, id_base, kind, &labels, &checks, "?", label_key)
}

fn opacity_popup(locale: &Locale, id_base: usize, choice: Option<usize>) -> (e: MenuEntry)
    requires
        id_base + 9 * 64 + 64 <= usize::MAX,
    ensures
        is_choice_popup(
            e,
            locale.code(),
            id_base as int,
            9,
            bg_opacity_label_table(),
            opacity_checks(choice),
            "?"@,
            keys::CUSTOMIZE_BG_OPACITY@,
        ),
{
    let table = bg_opacity_labels();
    let mut labels: Vec<&'static str> = Vec::new();
    let mut checks: Vec<bool> = Vec::new();
    let mut i: usize = 0;
    while i < table.len()
        invariant
            table@.len() == 7,
            forall|j: int| 0 <= j < 7 ==> (#[trigger] table@[j])@ == bg_opacity_label_table()[j],
            i <= 7,
            labels@.len() == i,
            checks@.len() == i,
            forall|j: int| 0 <= j < i ==> (#[trigger] labels@[j])@ == bg_opacity_label_table()[j],
            forall|j: int| 0 <= j < i ==> #[trigger] checks@[j] == (choice == Some(j as usize)),
        decreases 7 - i,
    {
        labels.push(table[i]);
        checks.push(choice == Some(i));
        i = i + 1;
    }
    assert(labels@.map_values(|l: &'static str| l@) =~= bg_opacity_label_table());
    assert(checks@ =~= opacity_checks(choice));
    choice_popup(locale, id_base, KIND_BG_OPACITY, &labels, &checks, "?", keys::CUSTOMIZE_BG_OPACITY)
}

/// `e` is a checkable command for a toggle kind.
pub open spec fn is_toggle(e: MenuEntry, code: Seq<char>, id_base: int, kind: int, on: bool, key: Seq<char>) -> bool {
    is_item(e, encoded(id_base, kind, 0), translated(code, key), on)
}

/// The whole Customize menu for `v`, in display order.
pub open spec fn is_customize_menu(
    code: Seq<char>,
    v: CustomizeSpec,
    id_base: int,
    prompt_id: int,
    m: Seq<MenuEntry>,
) -> bool {
    let k: int = if v.note_align is Some { 10 } else { 9 };
    &&& m.len() == k + 5
    &&& is_choice_popup(m[0], code, id_base, 0, labels_of(named_color_table()), color_checks(v.bg_color), resolved_label(code, keys::COLOR_DEFAULT@), keys::CUSTOMIZE_BG_COLOR@)
    &&& is_choice_popup(m[1], code, id_base, 1, labels_of(named_color_table()), color_checks(v.border_color), resolved_label(code, keys::COLOR_DEFAULT@), keys::CUSTOMIZE_BORDER_COLOR@)
    &&& is_choice_popup(m[2], code, id_base, 2, labels_of(named_color_table()), color_checks(v.title_color), resolved_label(code, keys::COLOR_DEFAULT@), keys::CUSTOMIZE_TITLE_COLOR@)
    &&& is_choice_popup(m[3], code, id_base, 3, labels_of(named_color_table()), color_checks(v.text_color), resolved_label(code, keys::COLOR_DEFAULT@), keys::CUSTOMIZE_LABEL_COLOR@)
    &&& is_choice_popup(m[4], code, id_base, 4, labels_of(border_thickness_table()), int_checks(border_thickness_table(), v.border_thick), "?"@, keys::CUSTOMIZE_BORDER_THICK@)
    &&& is_choice_popup(m[5], code, id_base, 5, labels_of(icon_size_table()), str_checks(icon_size_table(), v.icon_size), "?"@, keys::CUSTOMIZE_ICON_SIZE@)
    &&& is_choice_popup(m[6], code, id_base, 6, labels_of(icon_spacing_table()), int_checks(icon_spacing_table(), v.icon_spacing), "?"@, keys::CUSTOMIZE_ICON_SPACING@)
    &&& is_toggle(m[7], code, id_base, 7, v.bold, keys::CUSTOMIZE_BOLD_TITLE@)
    &&& is_choice_popup(m[8], code, id_base, 11, labels_of(title_align_table()), str_checks(title_align_table(), v.title_align), "?"@, keys::CUSTOMIZE_TITLE_ALIGN@)
    &&& (v.note_align matches Some(a) ==> is_choice_popup(m[9], code, id_base, 12, labels_of(title_align_table()), str_checks(title_align_table(), a), "?"@, keys::CUSTOMIZE_NOTE_ALIGN@))
    &&& is_toggle(m[k], code, id_base, 10, v.labels, keys::CUSTOMIZE_SHOW_LABELS@)
    &&& is_toggle(m[k + 1], code, id_base, 13, v.text_outline, keys::CUSTOMIZE_TEXT_OUTLINE@)
    &&& is_toggle(m[k + 2], code, id_base, 8, v.blur_enabled, keys::CUSTOMIZE_BG_BLUR@)
    &&& is_item(m[k + 3], prompt_id, translated(code, keys::CUSTOMIZE_BLUR_RADIUS@), false)
    &&& is_choice_popup(m[k + 4], code, id_base, 9, bg_opacity_label_table(), opacity_checks(v.bg_opacity_choice), "?"@, keys::CUSTOMIZE_BG_OPACITY@)
}

fn toggle(locale: &Locale, id_base: usize, kind: usize, on: bool, key: &'static str) -> (e: MenuEntry)
    requires
        id_base + kind * 64 <= usize::MAX,
    ensures
        is_toggle(e, locale.code(), id_base as int, kind as int, on, key@),
{
    let id = encode(id_base, kind, 0);
    MenuEntry::Item { id, label: owned(t(locale, key)), checked: on }
}

/// Build the Customize menu for `view`. Choices report
/// `id_base + kind * 64 + choice`; the blur-radius command reports
/// `blur_radius_prompt_id`.
pub fn build_customize_menu(
    locale: &Locale,
    view: &CustomizeView,
    id_base: usize,
    blur_radius_prompt_id: usize,
) -> (r: Vec<MenuEntry>)
    requires
        id_base + KIND_COUNT * KIND_STRIDE <= usize::MAX,
    ensures
        is_customize_menu(locale.code(), view@, id_base as int, blur_radius_prompt_id as int, r@),
{
    proof {
        reveal_strlit("color.default");
    }
    let mut m: Vec<MenuEntry> = Vec::new();
    m.push(color_popup(locale, id_base, KIND_BG_COLOR, view.bg_color.as_str(), keys::CUSTOMIZE_BG_COLOR));
    m.push(color_popup(locale, id_base, KIND_BORDER_COLOR, view.border_color.as_str(), keys::CUSTOMIZE_BORDER_COLOR));
    m.push(color_popup(locale, id_base, KIND_TITLE_COLOR, view.title_color.as_str(), keys::CUSTOMIZE_TITLE_COLOR));
    m.push(color_popup(locale, id_base, KIND_TEXT_COLOR, view.text_color.as_str(), keys::CUSTOMIZE_LABEL_COLOR));
    let bt = border_thicknesses();
    let is = icon_sizes();
    let sp = icon_spacings();
    let ta = title_aligns();
    proof {
        assert(bt@.map_values(|c: (i32, &'static str)| c.1@) =~= labels_of(border_thickness_table()));
        assert(bt@.map_values(|c: (i32, &'static str)| c.0 == view.border_thick) =~= int_checks(border_thickness_table(), view.border_thick));
        assert(is@.map_values(|c: (&'static str, &'static str)| c.1@) =~= labels_of(icon_size_table()));
        assert(is@.map_values(|c: (&'static str, &'static str)| c.0@ == view.icon_size@) =~= str_checks(icon_size_table(), view.icon_size@));
        assert(sp@.map_values(|c: (i32, &'static str)| c.1@) =~= labels_of(icon_spacing_table()));
        assert(sp@.map_values(|c: (i32, &'static str)| c.0 == view.icon_spacing) =~= int_checks(icon_spacing_table(), view.icon_spacing));
        assert(ta@.map_values(|c: (&'static str, &'static str)| c.1@) =~= labels_of(title_align_table()));
        assert(ta@.map_values(|c: (&'static str, &'static str)| c.0@ == view.title_align@) =~= str_checks(title_align_table(), view.title_align@));
    }
    m.push(int_popup(locale, id_base, KIND_BORDER_THICK, bt, view.border_thick, keys::CUSTOMIZE_BORDER_THICK));
    m.push(str_popup(locale, id_base, KIND_ICON_SIZE, is, view.icon_size.as_str(), keys::CUSTOMIZE_ICON_SIZE));
    m.push(int_popup(locale, id_base, KIND_ICON_SPACING, sp, view.icon_spacing, keys::CUSTOMIZE_ICON_SPACING));
    m.push(toggle(locale, id_base, KIND_BOLD_TOGGLE, view.bold, keys::CUSTOMIZE_BOLD_TITLE));
    m.push(str_popup(locale, id_base, KIND_TITLE_ALIGN, ta, view.title_align.as_str(), keys::CUSTOMIZE_TITLE_ALIGN));
    match &view.note_align {
        Some(a) => {
            assert(ta@.map_values(|c: (&'static str, &'static str)| c.0@ == a@) =~= str_checks(title_align_table(), a@));
            m.push(str_popup(locale, id_base, KIND_NOTE_ALIGN, ta, a.as_str(), keys::CUSTOMIZE_NOTE_ALIGN));
        },
        None => {},
    }
    m.push(toggle(locale, id_base, KIND_LABELS_TOGGLE, view.labels, keys::CUSTOMIZE_SHOW_LABELS));
    m.push(toggle(locale, id_base, KIND_TEXT_OUTLINE_TOGGLE, view.text_outline, keys::CUSTOMIZE_TEXT_OUTLINE));
    m.push(toggle(locale, id_base, KIND_BLUR_TOGGLE, view.blur_enabled, keys::CUSTOMIZE_BG_BLUR));
    m.push(MenuEntry::Item {
        id: blur_radius_prompt_id,
        label: owned(t(locale, keys::CUSTOMIZE_BLUR_RADIUS)),
        checked: false,
    });
    m.push(opacity_popup(locale, id_base, view.bg_opacity_choice));
    m
}


// ---------------------------------------------------------------------------
// What a click changes
// ---------------------------------------------------------------------------

/// The stored color for choice `value` (`None` = inherit the default look),
/// or nothing when the value is out of range.
pub open spec fn color_choice(value: int) -> Option<Option<Seq<char>>> {
    if 0 <= value < named_color_table().len() {
        let v = named_color_table()[value].0;
        Some(if v.len() == 0 { None } else { Some(v) })
    } else {
        None
    }
}

pub open spec fn int_choice(table: Seq<(i32, Seq<char>)>, value: int) -> Option<i32> {
    if 0 <= value < table.len() {
        Some(table[value].0)
    } else {
        None
    }
}

pub open spec fn str_choice(table: Seq<(Seq<char>, Seq<char>)>, value: int) -> Option<Seq<char>> {
    if 0 <= value < table.len() {
        Some(table[value].0)
    } else {
        None
    }
}

/// `"false"` for `"true"`, `"true"` for anything else.
pub open spec fn toggled(s: Seq<char>) -> Seq<char> {
    if s == "true"@ {
        "false"@
    } else {
        "true"@
    }
}

/// Resolve a color choice to its stored value: `Some(None)` for the
/// default entry, `Some(Some(name))` for a named color, `None` when the
/// index is out of range (the click is then ignored).
pub fn decoded_color(value: usize) -> (r: Option<Option<String>>)
    ensures
        match r {
            None => color_choice(value as int) is None,
            Some(o) => color_choice(value as int) == Some(crate::fence::opt_chars(o)),
        },
{
    let table = named_colors();
    if value >= table.len() {
        return None;
    }
    let v = table[value].0;
    Some(
        if v.is_empty() {
            None
        } else {
            Some(owned(v))
        },
    )
}

pub fn decoded_border_thick(value: usize) -> (r: Option<i32>)
    ensures
        r == int_choice(border_thickness_table(), value as int),
{
    let table = border_thicknesses();
    if value < table.len() {
        Some(table[value].0)
    } else {
        None
    }
}

pub fn decoded_icon_size(value: usize) -> (r: Option<String>)
    ensures
        crate::fence::opt_chars(r) == str_choice(icon_size_table(), value as int),
{
    let table = icon_sizes();
    if value < table.len() {
        Some(owned(table[value].0))
    } else {
        None
    }
}

pub fn decoded_icon_spacing(value: usize) -> (r: Option<i32>)
    ensures
        r == int_choice(icon_spacing_table(), value as int),
{
    let table = icon_spacings();
    if value < table.len() {
        Some(table[value].0)
    } else {
        None
    }
}

pub fn decoded_title_align(value: usize) -> (r: Option<String>)
    ensures
        crate::fence::opt_chars(r) == str_choice(title_align_table(), value as int),
{
    let table = title_aligns();
    if value < table.len() {
        Some(owned(table[value].0))
    } else {
        None
    }
}

/// Note alignment uses the same values as title alignment.
pub fn decoded_note_align(value: usize) -> (r: Option<String>)
    ensures
        crate::fence::opt_chars(r) == str_choice(title_align_table(), value as int),
{
    decoded_title_align(value)
}

/// Flip a `"true"` / `"false"` setting.
pub fn toggle_bool_str(s: &str) -> (r: String)
    ensures
        r@ == toggled(s@),
{
    if str_eq(s, "true") {
        owned("false")
    } else {
        owned("true")
    }
}

/// What the caller still has to do after a Customize click.
#[derive(Debug, PartialEq, Eq)]
pub enum CustomizeEffect {
    /// The choice was out of range: nothing changed, nothing to save.
    Ignored,
    /// A setting changed: repaint and save.
    Applied,
    /// The icon size changed: drop cached icons, repaint and save.
    AppliedIconSize,
    /// The blur switch changed to the given state: update the window's
    /// backdrop, repaint and save.
    AppliedBlur(bool),
    /// Opacity preset number `n` was chosen: store its value, repaint and save.
    AppliedOpacity(usize),
}

/// The fence after a click on Customize entry `code` (relative to the
/// menu's base).
pub open spec fn customized(f: FenceView, code: int) -> FenceView {
    let kind = code / 64;
    let value = code % 64;
    if kind <= 3 {
        match color_choice(value) {
            None => f,
            Some(c) => if kind == 0 {
                FenceView { custom_color: c, ..f }
            } else if kind == 1 {
                FenceView { fence_border_color: c, ..f }
            } else if kind == 2 {
                FenceView { title_text_color: c, ..f }
            } else {
                FenceView { text_color: c, ..f }
            },
        }
    } else if kind == 4 {
        match int_choice(border_thickness_table(), value) {
            None => f,
            Some(v) => FenceView { fence_border_thickness: v, ..f },
        }
    } else if kind == 5 {
        match str_choice(icon_size_table(), value) {
            None => f,
            Some(v) => FenceView { icon_size: v, ..f },
        }
    } else if kind == 6 {
        match int_choice(icon_spacing_table(), value) {
            None => f,
            Some(v) => FenceView { icon_spacing: v, ..f },
        }
    } else if kind == 7 {
        FenceView { bold_title_text: toggled(f.bold_title_text), ..f }
    } else if kind == 8 {
        FenceView { blur_enabled: toggled(f.blur_enabled), ..f }
    } else if kind == 10 {
        FenceView { show_item_labels: toggled(f.show_item_labels), ..f }
    } else if kind == 11 {
        match str_choice(title_align_table(), value) {
            None => f,
            Some(v) => FenceView { title_text_align: v, ..f },
        }
    } else if kind == 12 {
        match str_choice(title_align_table(), value) {
            None => f,
            Some(v) => FenceView { note_text_align: v, ..f },
        }
    } else if kind == 13 {
        FenceView { text_outline_enabled: toggled(f.text_outline_enabled), ..f }
    } else {
        f
    }
}

/// What is left to do after a click on Customize entry `code`.
pub open spec fn customize_effect(f: FenceView, code: int) -> CustomizeEffect {
    let kind = code / 64;
    let value = code % 64;
    if kind <= 3 {
        if color_choice(value) is None { CustomizeEffect::Ignored } else { CustomizeEffect::Applied }
    } else if kind == 4 {
        if int_choice(border_thickness_table(), value) is None { CustomizeEffect::Ignored } else { CustomizeEffect::Applied }
    } else if kind == 5 {
        if str_choice(icon_size_table(), value) is None { CustomizeEffect::Ignored } else { CustomizeEffect::AppliedIconSize }
    } else if kind == 6 {
        if int_choice(icon_spacing_table(), value) is None { CustomizeEffect::Ignored } else { CustomizeEffect::Applied }
    } else if kind == 8 {
        CustomizeEffect::AppliedBlur(f.blur_enabled != "true"@)
    } else if kind == 9 {
        if value < bg_opacity_label_table().len() { CustomizeEffect::AppliedOpacity(value as usize) } else { CustomizeEffect::Ignored }
    } else if kind == 11 || kind == 12 {
        if str_choice(title_align_table(), value) is None { CustomizeEffect::Ignored } else { CustomizeEffect::Applied }
    } else {
        CustomizeEffect::Applied
    }
}

/// Apply a click on the fence's Customize entry `code` (relative to the
/// menu's base) to the fence.
pub fn apply_customize(fence: &mut Fence, code: usize) -> (e: CustomizeEffect)
    ensures
        final(fence)@ == customized(old(fence)@, code as int),
        e == customize_effect(old(fence)@, code as int),
{
    let kind = code / KIND_STRIDE;
    let value = code % KIND_STRIDE;
    if kind <= KIND_TEXT_COLOR {
        let Some(opt) = decoded_color(value) else {
            return CustomizeEffect::Ignored;
        };
        if kind == KIND_BG_COLOR {
            fence.custom_color = opt;
        } else if kind == KIND_BORDER_COLOR {
            fence.fence_border_color = opt;
        } else if kind == KIND_TITLE_COLOR {
            fence.title_text_color = opt;
        } else {
            fence.text_color = opt;
        }
        CustomizeEffect::Applied
    } else if kind == KIND_BORDER_THICK {
        let Some(v) = decoded_border_thick(value) else {
            return CustomizeEffect::Ignored;
        };
        fence.fence_border_thickness = v;
        CustomizeEffect::Applied
    } else if kind == KIND_ICON_SIZE {
        let Some(v) = decoded_icon_size(value) else {
            return CustomizeEffect::Ignored;
        };
        fence.icon_size = v;
        CustomizeEffect::AppliedIconSize
    } else if kind == KIND_ICON_SPACING {
        let Some(v) = decoded_icon_spacing(value) else {
            return CustomizeEffect::Ignored;
        };
        fence.icon_spacing = v;
        CustomizeEffect::Applied
    } else if kind == KIND_BOLD_TOGGLE {
        fence.bold_title_text = toggle_bool_str(fence.bold_title_text.as_str());
        CustomizeEffect::Applied
    } else if kind == KIND_BLUR_TOGGLE {
        let new_state = !str_eq(fence.blur_enabled.as_str(), "true");
        fence.blur_enabled = if new_state {
            owned("true")
        } else {
            owned("false")
        };
        CustomizeEffect::AppliedBlur(new_state)
    } else if kind == KIND_BG_OPACITY {
        if value < bg_opacity_labels().len() {
            CustomizeEffect::AppliedOpacity(value)
        } else {
            CustomizeEffect::Ignored
        }
    } else if kind == KIND_LABELS_TOGGLE {
        fence.show_item_labels = toggle_bool_str(fence.show_item_labels.as_str());
        CustomizeEffect::Applied
    } else if kind == KIND_TEXT_OUTLINE_TOGGLE {
        fence.text_outline_enabled = toggle_bool_str(fence.text_outline_enabled.as_str());
        CustomizeEffect::Applied
    } else if kind == KIND_TITLE_ALIGN {
        let Some(v) = decoded_title_align(value) else {
            return CustomizeEffect::Ignored;
        };
        fence.title_text_align = v;
        CustomizeEffect::Applied
    } else if kind == KIND_NOTE_ALIGN {
        let Some(v) = decoded_note_align(value) else {
            return CustomizeEffect::Ignored;
        };
        fence.note_text_align = v;
        CustomizeEffect::Applied
    } else {
        CustomizeEffect::Applied
    }
}

/// The template after a click on the defaults menu's entry `code`, as the
/// same click changes a fence. Only the kinds the template carries change
/// it (it has no note alignment); the others leave it as it was.
pub open spec fn customized_defaults(d: FenceDefaultsView, code: int) -> FenceDefaultsView {
    let kind = code / 64;
    let value = code % 64;
    if kind <= 3 {
        match color_choice(value) {
            None => d,
            Some(c) => if kind == 0 {
                FenceDefaultsView { custom_color: c, ..d }
            } else if kind == 1 {
                FenceDefaultsView { fence_border_color: c, ..d }
            } else if kind == 2 {
                FenceDefaultsView { title_text_color: c, ..d }
            } else {
                FenceDefaultsView { text_color: c, ..d }
            },
        }
    } else if kind == 4 {
        match int_choice(border_thickness_table(), value) {
            None => d,
            Some(v) => FenceDefaultsView { fence_border_thickness: v, ..d },
        }
    } else if kind == 5 {
        match str_choice(icon_size_table(), value) {
            None => d,
            Some(v) => FenceDefaultsView { icon_size: v, ..d },
        }
    } else if kind == 6 {
        match int_choice(icon_spacing_table(), value) {
            None => d,
            Some(v) => FenceDefaultsView { icon_spacing: v, ..d },
        }
    } else if kind == 7 {
        FenceDefaultsView { bold_title_text: toggled(d.bold_title_text), ..d }
    } else if kind == 8 {
        FenceDefaultsView { blur_enabled: toggled(d.blur_enabled), ..d }
    } else if kind == 10 {
        FenceDefaultsView { show_item_labels: toggled(d.show_item_labels), ..d }
    } else if kind == 11 {
        match str_choice(title_align_table(), value) {
            None => d,
            Some(v) => FenceDefaultsView { title_text_align: v, ..d },
        }
    } else if kind == 13 {
        FenceDefaultsView { text_outline_enabled: toggled(d.text_outline_enabled), ..d }
    } else {
        d
    }
}

/// What is left to do after a click on the defaults menu's entry `code`:
/// `Ignored` (nothing to save), `AppliedOpacity(n)` (store preset `n`'s
/// value, then save) or `Applied` (save).
pub open spec fn defaults_effect(code: int) -> CustomizeEffect {
    let kind = code / 64;
    let value = code % 64;
    if kind <= 3 {
        if color_choice(value) is None { CustomizeEffect::Ignored } else { CustomizeEffect::Applied }
    } else if kind == 4 {
        if int_choice(border_thickness_table(), value) is None { CustomizeEffect::Ignored } else { CustomizeEffect::Applied }
    } else if kind == 5 {
        if str_choice(icon_size_table(), value) is None { CustomizeEffect::Ignored } else { CustomizeEffect::Applied }
    } else if kind == 6 {
        if int_choice(icon_spacing_table(), value) is None { CustomizeEffect::Ignored } else { CustomizeEffect::Applied }
    } else if kind == 9 {
        if value < bg_opacity_label_table().len() { CustomizeEffect::AppliedOpacity(value as usize) } else { CustomizeEffect::Ignored }
    } else if kind == 11 {
        if str_choice(title_align_table(), value) is None { CustomizeEffect::Ignored } else { CustomizeEffect::Applied }
    } else {
        CustomizeEffect::Applied
    }
}

/// Apply a click on the "Default fence settings" entry `code` (relative
/// to the menu's base) to the template for new fences.
pub fn apply_defaults(d: &mut FenceDefaults, code: usize) -> (e: CustomizeEffect)
    ensures
        final(d)@ == customized_defaults(old(d)@, code as int),
        e == defaults_effect(code as int),
{
    let kind = code / KIND_STRIDE;
    let value = code % KIND_STRIDE;
    if kind <= KIND_TEXT_COLOR {
        let Some(opt) = decoded_color(value) else {
            return CustomizeEffect::Ignored;
        };
        if kind == KIND_BG_COLOR {
            d.custom_color = opt;
        } else if kind == KIND_BORDER_COLOR {
            d.fence_border_color = opt;
        } else if kind == KIND_TITLE_COLOR {
            d.title_text_color = opt;
        } else {
            d.text_color = opt;
        }
        CustomizeEffect::Applied
    } else if kind == KIND_BORDER_THICK {
        let Some(v) = decoded_border_thick(value) else {
            return CustomizeEffect::Ignored;
        };
        d.fence_border_thickness = v;
        CustomizeEffect::Applied
    } else if kind == KIND_ICON_SIZE {
        let Some(v) = decoded_icon_size(value) else {
            return CustomizeEffect::Ignored;
        };
        d.icon_size = v;
        CustomizeEffect::Applied
    } else if kind == KIND_ICON_SPACING {
        let Some(v) = decoded_icon_spacing(value) else {
            return CustomizeEffect::Ignored;
        };
        d.icon_spacing = v;
        CustomizeEffect::Applied
    } else if kind == KIND_BOLD_TOGGLE {
        d.bold_title_text = toggle_bool_str(d.bold_title_text.as_str());
        CustomizeEffect::Applied
    } else if kind == KIND_BLUR_TOGGLE {
        d.blur_enabled = toggle_bool_str(d.blur_enabled.as_str());
        CustomizeEffect::Applied
    } else if kind == KIND_BG_OPACITY {
        if value < bg_opacity_labels().len() {
            CustomizeEffect::AppliedOpacity(value)
        } else {
            CustomizeEffect::Ignored
        }
    } else if kind == KIND_LABELS_TOGGLE {
        d.show_item_labels = toggle_bool_str(d.show_item_labels.as_str());
        CustomizeEffect::Applied
    } else if kind == KIND_TITLE_ALIGN {
        let Some(v) = decoded_title_align(value) else {
            return CustomizeEffect::Ignored;
        };
        d.title_text_align = v;
        CustomizeEffect::Applied
    } else if kind == KIND_TEXT_OUTLINE_TOGGLE {
        d.text_outline_enabled = toggle_bool_str(d.text_outline_enabled.as_str());
        CustomizeEffect::Applied
    } else {
        CustomizeEffect::Applied
    }
}


// ---------------------------------------------------------------------------
// Laws
// ---------------------------------------------------------------------------

/// The color field a color kind (0 to 3) sets.
pub open spec fn color_field(f: FenceView, kind: int) -> Option<Seq<char>> {
    if kind == 0 {
        f.custom_color
    } else if kind == 1 {
        f.fence_border_color
    } else if kind == 2 {
        f.title_text_color
    } else {
        f.text_color
    }
}

proof fn lemma_code_parts(kind: int, i: int)
    requires
        0 <= kind,
        0 <= i < 64,
    ensures
        (kind * 64 + i) / 64 == kind,
        (kind * 64 + i) % 64 == i,
{
    lemma_encode_decode(0, kind, i, 0);
}

/// Choosing an entry of a choice submenu makes that entry the checked one
/// the next time the menu is built from the fence.
pub proof fn lemma_choice_checked_after_click(f: FenceView, kind: int, i: int)
    requires
        0 <= i < 64,
    ensures
        0 <= kind <= 3 && i < 12 ==> color_checks(or_empty(color_field(customized(f, kind * 64 + i), kind)))[i],
        kind == 4 && i < 6 ==> int_checks(border_thickness_table(), customized(f, kind * 64 + i).fence_border_thickness)[i],
        kind == 5 && i < 5 ==> str_checks(icon_size_table(), customized(f, kind * 64 + i).icon_size)[i],
        kind == 6 && i < 6 ==> int_checks(icon_spacing_table(), customized(f, kind * 64 + i).icon_spacing)[i],
        kind == 11 && i < 3 ==> str_checks(title_align_table(), customized(f, kind * 64 + i).title_text_align)[i],
        kind == 12 && i < 3 ==> str_checks(title_align_table(), customized(f, kind * 64 + i).note_text_align)[i],
{
    if 0 <= kind {
        lemma_code_parts(kind, i);
    }
    if 0 <= kind <= 3 && i < 12 {
        let v = named_color_table()[i].0;
        let shown = or_empty(color_field(customized(f, kind * 64 + i), kind));
        if v.len() == 0 {
            assert(v =~= Seq::<char>::empty());
        }
        assert(shown == v);
        assert(color_checks(shown)[i] == eq_ignore_ascii_case(v, shown));
    }
}

/// Applying the same toggle twice restores a fence whose toggled setting
/// held `"true"` or `"false"`.
pub proof fn lemma_toggle_twice(f: FenceView, kind: int)
    requires
        kind == 7 ==> f.bold_title_text == "true"@ || f.bold_title_text == "false"@,
        kind == 8 ==> f.blur_enabled == "true"@ || f.blur_enabled == "false"@,
        kind == 10 ==> f.show_item_labels == "true"@ || f.show_item_labels == "false"@,
        kind == 13 ==> f.text_outline_enabled == "true"@ || f.text_outline_enabled == "false"@,
        kind == 7 || kind == 8 || kind == 10 || kind == 13,
    ensures
        customized(customized(f, kind * 64), kind * 64) == f,
{
    lemma_code_parts(kind, 0);
    reveal_strlit("true");
    reveal_strlit("false");
    assert("true"@.len() != "false"@.len());
    let g = customized(f, kind * 64);
    let h = customized(g, kind * 64);
    assert(h == f);
}

/// The on/off setting of a fence that toggle kind `kind` switches (bold
/// title 7, blur 8, item labels 10, text outline 13).
pub open spec fn toggle_setting(f: FenceView, kind: int) -> Seq<char> {
    if kind == 7 {
        f.bold_title_text
    } else if kind == 8 {
        f.blur_enabled
    } else if kind == 10 {
        f.show_item_labels
    } else {
        f.text_outline_enabled
    }
}

/// `f` with the on/off setting of toggle kind `kind` set to `v`.
pub open spec fn with_toggle_setting(f: FenceView, kind: int, v: Seq<char>) -> FenceView {
    if kind == 7 {
        FenceView { bold_title_text: v, ..f }
    } else if kind == 8 {
        FenceView { blur_enabled: v, ..f }
    } else if kind == 10 {
        FenceView { show_item_labels: v, ..f }
    } else {
        FenceView { text_outline_enabled: v, ..f }
    }
}

/// One click on a toggle entry switches its setting: on (`"true"`) becomes
/// `"false"`, anything else becomes `"true"`. The other toggles and the
/// rest of the fence stay as they were.
pub proof fn lemma_toggle_click_switches(f: FenceView, kind: int)
    requires
        kind == 7 || kind == 8 || kind == 10 || kind == 13,
    ensures
        toggle_setting(f, kind) == "true"@ ==> toggle_setting(customized(f, kind * 64), kind)
            == "false"@,
        toggle_setting(f, kind) != "true"@ ==> toggle_setting(customized(f, kind * 64), kind)
            == "true"@,
        with_toggle_setting(customized(f, kind * 64), kind, toggle_setting(f, kind)) == f,
        customize_effect(f, kind * 64) !is Ignored,
{
    lemma_code_parts(kind, 0);
}

/// The on/off setting of the new-fence template that toggle kind `kind`
/// switches.
pub open spec fn default_toggle_setting(d: FenceDefaultsView, kind: int) -> Seq<char> {
    if kind == 7 {
        d.bold_title_text
    } else if kind == 8 {
        d.blur_enabled
    } else if kind == 10 {
        d.show_item_labels
    } else {
        d.text_outline_enabled
    }
}

/// The template with the setting of toggle kind `kind` set to `v`.
pub open spec fn with_default_toggle_setting(d: FenceDefaultsView, kind: int, v: Seq<char>) -> FenceDefaultsView {
    if kind == 7 {
        FenceDefaultsView { bold_title_text: v, ..d }
    } else if kind == 8 {
        FenceDefaultsView { blur_enabled: v, ..d }
    } else if kind == 10 {
        FenceDefaultsView { show_item_labels: v, ..d }
    } else {
        FenceDefaultsView { text_outline_enabled: v, ..d }
    }
}

/// One click on a toggle entry of the defaults menu switches that setting
/// of the template, as it does for a fence, and changes nothing else.
pub proof fn lemma_default_toggle_click_switches(d: FenceDefaultsView, kind: int)
    requires
        kind == 7 || kind == 8 || kind == 10 || kind == 13,
    ensures
        default_toggle_setting(d, kind) == "true"@ ==> default_toggle_setting(
            customized_defaults(d, kind * 64),
            kind,
        ) == "false"@,
        default_toggle_setting(d, kind) != "true"@ ==> default_toggle_setting(
            customized_defaults(d, kind * 64),
            kind,
        ) == "true"@,
        with_default_toggle_setting(customized_defaults(d, kind * 64), kind, default_toggle_setting(d, kind))
            == d,
        defaults_effect(kind * 64) !is Ignored,
{
    lemma_code_parts(kind, 0);
}

/// A click that is ignored leaves the fence as it was.
pub proof fn lemma_ignored_click_changes_nothing(f: FenceView, code: int)
    requires
        0 <= code,
        customize_effect(f, code) is Ignored,
    ensures
        customized(f, code) == f,
{
}

} // verus!
