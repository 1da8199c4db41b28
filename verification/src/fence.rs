//! The data a fence is made of: its items, tabs, note rows and settings.
//!
//! Geometry, blur radius and background opacity are real numbers and are
//! kept beside these records by the program that stores them; everything
//! else a fence carries is here.

use vstd::prelude::*;

use crate::text::owned;

verus! {

// ---------------------------------------------------------------------------
// Records
// ---------------------------------------------------------------------------

/// One shortcut, file or folder shown in a fence.
#[derive(Debug)]
pub struct FenceItem {
    pub filename: String,
    pub display_name: String,
    pub is_folder: bool,
    pub is_link: bool,
    pub display_order: i32,
    pub arguments: Option<String>,
    /// Where the file lived before it was taken into the fence's storage;
    /// `None` when it was left where it was dropped from.
    pub original_path: Option<String>,
}

/// A named page of items.
#[derive(Debug)]
pub struct Tab {
    pub tab_name: String,
    pub items: Vec<FenceItem>,
}

/// One row of a to-do style note fence.
#[derive(Debug)]
pub struct NoteItem {
    pub text: String,
    pub checked: bool,
}

/// A fence: a titled panel on the desktop holding items or a note.
#[derive(Debug)]
pub struct Fence {
    pub id: String,
    pub title: String,
    pub items_type: String,
    pub items: Vec<FenceItem>,
    pub is_locked: String,
    pub is_hidden: String,
    pub is_rolled: String,
    pub tabs_enabled: String,
    pub current_tab: i32,
    pub tabs: Vec<Tab>,
    pub custom_color: Option<String>,
    pub fence_border_thickness: i32,
    pub icon_size: String,
    pub icon_spacing: i32,
    pub custom_launch_effect: Option<String>,
    pub text_color: Option<String>,
    pub title_text_color: Option<String>,
    pub title_text_size: String,
    pub bold_title_text: String,
    pub disable_text_shadow: String,
    pub grayscale_icons: String,
    pub fence_border_color: Option<String>,
    pub note_content: Option<String>,
    pub note_font_size: String,
    pub note_font_family: Option<String>,
    pub word_wrap: String,
    /// `"text"` for a plain note, `"todo"` for a checklist.
    pub note_mode: String,
    pub note_items: Vec<NoteItem>,
    pub blur_enabled: String,
    pub show_item_labels: String,
    pub title_text_align: String,
    pub note_text_align: String,
    pub text_outline_enabled: String,
}

// ---------------------------------------------------------------------------
// Views
// ---------------------------------------------------------------------------

/// The characters of an optional string.
pub open spec fn opt_chars(o: Option<String>) -> Option<Seq<char>> {
    match o {
        Some(s) => Some(s@),
        None => None,
    }
}

pub struct FenceItemView {
    pub filename: Seq<char>,
    pub display_name: Seq<char>,
    pub is_folder: bool,
    pub is_link: bool,
    pub display_order: i32,
    pub arguments: Option<Seq<char>>,
    pub original_path: Option<Seq<char>>,
}

impl View for FenceItem {
    type V = FenceItemView;

    open spec fn view(&self) -> FenceItemView {
        FenceItemView {
            filename: self.filename@,
            display_name: self.display_name@,
            is_folder: self.is_folder,
            is_link: self.is_link,
            display_order: self.display_order,
            arguments: opt_chars(self.arguments),
            original_path: opt_chars(self.original_path),
        }
    }
}

/// The views of a run of items.
pub open spec fn items_view(items: Seq<FenceItem>) -> Seq<FenceItemView> {
    items.map_values(|it: FenceItem| it@)
}

pub struct TabView {
    pub tab_name: Seq<char>,
    pub items: Seq<FenceItemView>,
}

impl View for Tab {
    type V = TabView;

    open spec fn view(&self) -> TabView {
        TabView { tab_name: self.tab_name@, items: items_view(self.items@) }
    }
}

pub struct NoteItemView {
    pub text: Seq<char>,
    pub checked: bool,
}

impl View for NoteItem {
    type V = NoteItemView;

    open spec fn view(&self) -> NoteItemView {
        NoteItemView { text: self.text@, checked: self.checked }
    }
}

/// The views of a run of note rows.
pub open spec fn notes_view(notes: Seq<NoteItem>) -> Seq<NoteItemView> {
    notes.map_values(|n: NoteItem| n@)
}

pub struct FenceView {
    pub id: Seq<char>,
    pub title: Seq<char>,
    pub items_type: Seq<char>,
    pub items: Seq<FenceItemView>,
    pub is_locked: Seq<char>,
    pub is_hidden: Seq<char>,
    pub is_rolled: Seq<char>,
    pub tabs_enabled: Seq<char>,
    pub current_tab: i32,
    pub tabs: Seq<TabView>,
    pub custom_color: Option<Seq<char>>,
    pub fence_border_thickness: i32,
    pub icon_size: Seq<char>,
    pub icon_spacing: i32,
    pub custom_launch_effect: Option<Seq<char>>,
    pub text_color: Option<Seq<char>>,
    pub title_text_color: Option<Seq<char>>,
    pub title_text_size: Seq<char>,
    pub bold_title_text: Seq<char>,
    pub disable_text_shadow: Seq<char>,
    pub grayscale_icons: Seq<char>,
    pub fence_border_color: Option<Seq<char>>,
    pub note_content: Option<Seq<char>>,
    pub note_font_size: Seq<char>,
    pub note_font_family: Option<Seq<char>>,
    pub word_wrap: Seq<char>,
    pub note_mode: Seq<char>,
    pub note_items: Seq<NoteItemView>,
    pub blur_enabled: Seq<char>,
    pub show_item_labels: Seq<char>,
    pub title_text_align: Seq<char>,
    pub note_text_align: Seq<char>,
    pub text_outline_enabled: Seq<char>,
}

impl View for Fence {
    type V = FenceView;

    open spec fn view(&self) -> FenceView {
        FenceView {
            id: self.id@,
            title: self.title@,
            items_type: self.items_type@,
            items: items_view(self.items@),
            is_locked: self.is_locked@,
            is_hidden: self.is_hidden@,
            is_rolled: self.is_rolled@,
            tabs_enabled: self.tabs_enabled@,
            current_tab: self.current_tab,
            tabs: self.tabs@.map_values(|t: Tab| t@),
            custom_color: opt_chars(self.custom_color),
            fence_border_thickness: self.fence_border_thickness,
            icon_size: self.icon_size@,
            icon_spacing: self.icon_spacing,
            custom_launch_effect: opt_chars(self.custom_launch_effect),
            text_color: opt_chars(self.text_color),
            title_text_color: opt_chars(self.title_text_color),
            title_text_size: self.title_text_size@,
            bold_title_text: self.bold_title_text@,
            disable_text_shadow: self.disable_text_shadow@,
            grayscale_icons: self.grayscale_icons@,
            fence_border_color: opt_chars(self.fence_border_color),
            note_content: opt_chars(self.note_content),
            note_font_size: self.note_font_size@,
            note_font_family: opt_chars(self.note_font_family),
            word_wrap: self.word_wrap@,
            note_mode: self.note_mode@,
            note_items: notes_view(self.note_items@),
            blur_enabled: self.blur_enabled@,
            show_item_labels: self.show_item_labels@,
            title_text_align: self.title_text_align@,
            note_text_align: self.note_text_align@,
            text_outline_enabled: self.text_outline_enabled@,
        }
    }
}

// ---------------------------------------------------------------------------
// Field defaults used when a stored fence leaves a field out
// ---------------------------------------------------------------------------

pub fn default_false() -> (r: String)
    ensures
        r@ == "false"@,
{
    owned("false")
}

pub fn default_true() -> (r: String)
    ensures
        r@ == "true"@,
{
    owned("true")
}

pub fn default_icon_size() -> (r: String)
    ensures
        r@ == "Medium"@,
{
    owned("Medium")
}

pub fn default_icon_spacing() -> (r: i32)
    ensures
        r == 5,
{
    5
}

pub fn default_border_thickness() -> (r: i32)
    ensures
        r == 2,
{
    2
}

pub fn default_empty_items() -> (r: Vec<FenceItem>)
    ensures
        r@.len() == 0,
{
    Vec::new()
}

pub fn default_empty_tabs() -> (r: Vec<Tab>)
    ensures
        r@.len() == 0,
{
    Vec::new()
}

pub fn default_current_tab() -> (r: i32)
    ensures
        r == 0,
{
    0
}

pub fn default_empty_note_items() -> (r: Vec<NoteItem>)
    ensures
        r@.len() == 0,
{
    Vec::new()
}

pub fn default_note_mode() -> (r: String)
    ensures
        r@ == "text"@,
{
    owned("text")
}

pub fn default_title_align() -> (r: String)
    ensures
        r@ == "Center"@,
{
    owned("Center")
}

pub fn default_note_align() -> (r: String)
    ensures
        r@ == "Left"@,
{
    owned("Left")
}

// ---------------------------------------------------------------------------
// Item names
// ---------------------------------------------------------------------------

/// What `std::path::Path::file_stem` gives for a path: its final component
/// without the extension, if there is a final component. Paths are split
/// by the compile target's rules (on Windows `\` and `/` separate and
/// drive prefixes count; elsewhere only `/`), so the result is fixed per
/// target.
pub uninterp spec fn path_file_stem(path: Seq<char>) -> Option<Seq<char>>;

/// `Path::new(path).file_stem()` as a string slice. The stem of a path made
/// from a `str` is always valid Unicode, so nothing is lost on the way. A
/// stem is never empty: it is the whole (non-empty) file name, or the part
/// before its last dot where the name does not start with that dot.
#[verifier::external_body]
pub(crate) fn file_stem_of<'a>(path: &'a str) -> (r: Option<&'a str>)
    ensures
        match r {
            Some(s) => path_file_stem(path@) == Some(s@) && s@.len() > 0,
            None => path_file_stem(path@) is None,
        },
{
    match std::path::Path::new(path).file_stem() {
        Some(s) => s.to_str(),
        None => None,
    }
}

impl FenceItem {
    /// The label shown for the item: its display name, or when that is
    /// empty the stem of its file name, or failing that the file name.
    pub open spec fn shown_name(self) -> Seq<char> {
        if self.display_name@.len() == 0 {
            match path_file_stem(self.filename@) {
                Some(s) => s,
                None => self.filename@,
            }
        } else {
            self.display_name@
        }
    }

    pub fn display_name_or_filename(&self) -> (r: &str)
        ensures
            r@ == self.shown_name(),
            self.display_name@.len() > 0 || self.filename@.len() > 0 ==> r@.len() > 0,
    {
        if self.display_name.as_str().is_empty() {
            match file_stem_of(self.filename.as_str()) {
                Some(s) => s,
                None => self.filename.as_str(),
            }
        } else {
            self.display_name.as_str()
        }
    }
}

} // verus!
