//! Application-wide settings and the template for new fences.

use vstd::prelude::*;

use crate::fence::opt_chars;
use crate::storage::path_join;
use crate::text::owned;

verus! {

/// The settings applied to every fence created from the tray menu
/// (the fields of the template that are not real numbers).
#[derive(Debug)]
pub struct FenceDefaults {
    pub blur_enabled: String,
    pub custom_color: Option<String>,
    pub fence_border_color: Option<String>,
    pub fence_border_thickness: i32,
    pub title_text_color: Option<String>,
    pub text_color: Option<String>,
    pub title_text_size: String,
    pub bold_title_text: String,
    pub icon_size: String,
    pub icon_spacing: i32,
    pub show_item_labels: String,
    pub text_outline_enabled: String,
    pub title_text_align: String,
}

pub struct FenceDefaultsView {
    pub blur_enabled: Seq<char>,
    pub custom_color: Option<Seq<char>>,
    pub fence_border_color: Option<Seq<char>>,
    pub fence_border_thickness: i32,
    pub title_text_color: Option<Seq<char>>,
    pub text_color: Option<Seq<char>>,
    pub title_text_size: Seq<char>,
    pub bold_title_text: Seq<char>,
    pub icon_size: Seq<char>,
    pub icon_spacing: i32,
    pub show_item_labels: Seq<char>,
    pub text_outline_enabled: Seq<char>,
    pub title_text_align: Seq<char>,
}

impl View for FenceDefaults {
    type V = FenceDefaultsView;

    open spec fn view(&self) -> FenceDefaultsView {
        FenceDefaultsView {
            blur_enabled: self.blur_enabled@,
            custom_color: opt_chars(self.custom_color),
            fence_border_color: opt_chars(self.fence_border_color),
            fence_border_thickness: self.fence_border_thickness,
            title_text_color: opt_chars(self.title_text_color),
            text_color: opt_chars(self.text_color),
            title_text_size: self.title_text_size@,
            bold_title_text: self.bold_title_text@,
            icon_size: self.icon_size@,
            icon_spacing: self.icon_spacing,
            show_item_labels: self.show_item_labels@,
            text_outline_enabled: self.text_outline_enabled@,
            title_text_align: self.title_text_align@,
        }
    }
}

/// The template as shipped.
pub open spec fn factory_defaults() -> FenceDefaultsView {
    FenceDefaultsView {
        blur_enabled: "true"@,
        custom_color: None,
        fence_border_color: None,
        fence_border_thickness: 2,
        title_text_color: None,
        text_color: None,
        title_text_size: "Medium"@,
        bold_title_text: "false"@,
        icon_size: "Medium"@,
        icon_spacing: 5,
        show_item_labels: "true"@,
        text_outline_enabled: "false"@,
        title_text_align: "Center"@,
    }
}

pub fn default_def_title_align() -> (r: String)
    ensures
        r@ == "Center"@,
{
    owned("Center")
}

pub fn default_def_border_thickness() -> (r: i32)
    ensures
        r == 2,
{
    2
}

pub fn default_def_title_size() -> (r: String)
    ensures
        r@ == "Medium"@,
{
    owned("Medium")
}

pub fn default_def_icon_size() -> (r: String)
    ensures
        r@ == "Medium"@,
{
    owned("Medium")
}

pub fn default_def_icon_spacing() -> (r: i32)
    ensures
        r == 5,
{
    5
}

pub fn default_def_true() -> (r: String)
    ensures
        r@ == "true"@,
{
    owned("true")
}

pub fn default_def_false() -> (r: String)
    ensures
        r@ == "false"@,
{
    owned("false")
}

impl Default for FenceDefaults {
    fn default() -> (r: FenceDefaults)
        ensures
            r@ == factory_defaults(),
    {
        FenceDefaults {
            blur_enabled: default_def_true(),
            custom_color: None,
            fence_border_color: None,
            fence_border_thickness: default_def_border_thickness(),
            title_text_color: None,
            text_color: None,
            title_text_size: default_def_title_size(),
            bold_title_text: default_def_false(),
            icon_size: default_def_icon_size(),
            icon_spacing: default_def_icon_spacing(),
            show_item_labels: default_def_true(),
            text_outline_enabled: default_def_false(),
            title_text_align: default_def_title_align(),
        }
    }
}

/// App-wide preferences kept beside the fences.
#[derive(Debug)]
pub struct AppSettings {
    /// Animation frame rate; 0 turns animation off.
    pub anim_fps: i32,
    pub fence_defaults: FenceDefaults,
    /// UI language chosen by the user; `None` follows the system language.
    pub language: Option<String>,
}

pub fn default_anim_fps() -> (r: i32)
    ensures
        r == 60,
{
    60
}

impl Default for AppSettings {
    fn default() -> (r: AppSettings)
        ensures
            r.anim_fps == 60,
            r.fence_defaults@ == factory_defaults(),
            r.language is None,
    {
        AppSettings {
            anim_fps: default_anim_fps(),
            fence_defaults: FenceDefaults::default(),
            language: None,
        }
    }
}

/// The directory holding the fences and settings: the `DESKGATE_PROFILE`
/// override when set, else `DeskGate` under the roaming application data
/// directory, else `Profiles` relative to the working directory.
pub open spec fn profile_dir_of(override_dir: Option<Seq<char>>, appdata: Option<Seq<char>>) -> Seq<char> {
    match override_dir {
        Some(p) => p,
        None => match appdata {
            Some(a) => path_join(a, "DeskGate"@),
            None => "Profiles"@,
        },
    }
}

/// Choose the profile directory from the two environment variables that
/// can name it (each given when it is set).
pub fn profile_dir_from(override_dir: Option<String>, appdata: Option<String>) -> (r: String)
    ensures
        r@ == profile_dir_of(opt_chars(override_dir), opt_chars(appdata)),
{
    match override_dir {
        Some(p) => p,
        None => match appdata {
            Some(a) => crate::storage::join_under(a.as_str(), "DeskGate"),
            None => owned("Profiles"),
        },
    }
}

} // verus!
