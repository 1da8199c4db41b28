//! The notification-area icon: its menu, what the menu's commands mean,
//! new fences made from the template, and showing or hiding all fences.

use vstd::prelude::*;

use crate::config::{FenceDefaults, FenceDefaultsView};
use crate::customize::{
    build_customize_menu, defaults_customize_view, is_customize_menu, CustomizeView, KIND_COUNT,
    KIND_STRIDE,
};
use crate::fence::{default_note_align, opt_chars, Fence, FenceView};
use crate::locales::{keys, lang, language_list, languages, t, translate, translated, Locale};
use crate::menu::{is_item, is_popup_titled, is_separator, popup_entries, MenuEntry};
use crate::text::str_eq;
use crate::window::{anim_fps_preset_list, anim_fps_presets, fps_label, fps_label_text};

verus! {

pub const ID_TRAY_EXIT: usize = 1001;
pub const ID_TRAY_NEW_FENCE: usize = 1002;
pub const ID_TRAY_RELOAD: usize = 1003;
/// Base of the animation frame-rate choices: base + preset index.
pub const ID_TRAY_ANIM_FPS_BASE: usize = 1100;
/// The command asking for the blur radius of new fences.
pub const ID_TRAY_DEFAULTS_BLUR_RADIUS: usize = 1199;
/// Base of the "Default fence settings" submenu.
pub const ID_TRAY_DEFAULTS_BASE: usize = 1200;
/// Base of the language choices: base + language index.
pub const ID_TRAY_LANG_BASE: usize = 1300;

// ---------------------------------------------------------------------------
// The menu
// ---------------------------------------------------------------------------

/// The frame-rate submenu: one checkable entry per preset, labelled by
/// the preset's label looked up once more as a key (a label that is no
/// key shows as it is), the current rate checked.
pub open spec fn is_fps_menu(code: Seq<char>, current: i32, m: Seq<MenuEntry>) -> bool {
    &&& m.len() == anim_fps_preset_list().len()
    &&& forall|i: int|
        0 <= i < m.len() ==> is_item(
            #[trigger] m[i],
            ID_TRAY_ANIM_FPS_BASE + i,
            translated(code, fps_label_text(code, anim_fps_preset_list()[i])),
            anim_fps_preset_list()[i] == current,
        )
}

/// The language submenu: one entry per language, the current one checked.
pub open spec fn is_lang_menu(code: Seq<char>, m: Seq<MenuEntry>) -> bool {
    &&& m.len() == language_list().len()
    &&& forall|i: int|
        0 <= i < m.len() ==> is_item(
            #[trigger] m[i],
            ID_TRAY_LANG_BASE + i,
            translated(code, language_list()[i].1),
            language_list()[i].0 == code,
        )
}

/// The whole tray menu.
pub open spec fn is_tray_menu(
    code: Seq<char>,
    anim_fps: i32,
    d: FenceDefaultsView,
    bg_opacity_choice: Option<usize>,
    m: Seq<MenuEntry>,
) -> bool {
    &&& m.len() == 8
    &&& is_item(m[0], ID_TRAY_NEW_FENCE as int, translated(code, keys::TRAY_NEW_FENCE@), false)
    &&& is_item(m[1], ID_TRAY_RELOAD as int, translated(code, keys::TRAY_RELOAD@), false)
    &&& is_separator(m[2])
    &&& is_popup_titled(m[3], translated(code, keys::TRAY_ANIM_FPS@))
    &&& is_fps_menu(code, anim_fps, popup_entries(m[3]))
    &&& is_popup_titled(m[4], translated(code, keys::TRAY_DEFAULT_SETTINGS@))
    &&& is_customize_menu(code, defaults_customize_view(d, bg_opacity_choice), ID_TRAY_DEFAULTS_BASE as int, ID_TRAY_DEFAULTS_BLUR_RADIUS as int, popup_entries(m[4]))
    &&& is_popup_titled(m[5], translated(code, keys::LANG_LABEL@))
    &&& is_lang_menu(code, popup_entries(m[5]))
    &&& is_separator(m[6])
    &&& is_item(m[7], ID_TRAY_EXIT as int, translated(code, keys::TRAY_EXIT@), false)
}

fn fps_menu(locale: &Locale, current: i32) -> (m: Vec<MenuEntry>)
    ensures
        is_fps_menu(locale.code(), current, m@),
{
    let presets = anim_fps_presets();
    let mut m: Vec<MenuEntry> = Vec::new();
    let mut i: usize = 0;
    while i < presets.len()
        invariant
            i <= presets@.len(),
            presets@ == anim_fps_preset_list(),
            m@.len() == i,
            forall|k: int|
                0 <= k < i ==> is_item(
                    #[trigger] m@[k],
                    ID_TRAY_ANIM_FPS_BASE + k,
                    translated(locale.code(), fps_label_text(locale.code(), anim_fps_preset_list()[k])),
                    anim_fps_preset_list()[k] == current,
                ),
        decreases presets@.len() - i,
    {
        let v = presets[i];
        let label = translate(lang(locale), fps_label(locale, v));
        m.push(MenuEntry::Item {
            id: ID_TRAY_ANIM_FPS_BASE + i,
            label: String::from_str(label),
            checked: v == current,
        });
        i = i + 1;
    }
    m
}

fn lang_menu(locale: &Locale) -> (m: Vec<MenuEntry>)
    ensures
        is_lang_menu(locale.code(), m@),
{
    let langs = languages();
    let current = lang(locale);
    let mut m: Vec<MenuEntry> = Vec::new();
    let mut i: usize = 0;
    while i < langs.len()
        invariant
            i <= langs@.len(),
            langs@.len() == language_list().len(),
            forall|k: int|
                0 <= k < langs@.len() ==> (#[trigger] langs@[k]).0@ == language_list()[k].0
                    && langs@[k].1@ == language_list()[k].1,
            current@ == locale.code(),
            m@.len() == i,
            forall|k: int|
                0 <= k < i ==> is_item(
                    #[trigger] m@[k],
                    ID_TRAY_LANG_BASE + k,
                    translated(locale.code(), language_list()[k].1),
                    language_list()[k].0 == locale.code(),
                ),
        decreases langs@.len() - i,
    {
        let (code, key) = langs[i];
        m.push(MenuEntry::Item {
            id: ID_TRAY_LANG_BASE + i,
            label: String::from_str(t(locale, key)),
            checked: str_eq(code, current),
        });
        i = i + 1;
    }
    m
}

fn command(locale: &Locale, id: usize, key: &'static str) -> (e: MenuEntry)
    ensures
        is_item(e, id as int, translated(locale.code(), key@), false),
{
    MenuEntry::Item { id, label: String::from_str(t(locale, key)), checked: false }
}

/// Build the tray menu: new fence, reload, the animation frame rate, the
/// template for new fences, the language, and exit. `bg_opacity_choice`
/// is the opacity preset matching the template's opacity, if one does.
pub fn tray_menu(
    locale: &Locale,
    anim_fps: i32,
    defaults: &FenceDefaults,
    bg_opacity_choice: Option<usize>,
) -> (m: Vec<MenuEntry>)
    ensures
        is_tray_menu(locale.code(), anim_fps, defaults@, bg_opacity_choice, m@),
{
    let mut m: Vec<MenuEntry> = Vec::new();
    m.push(command(locale, ID_TRAY_NEW_FENCE, keys::TRAY_NEW_FENCE));
    m.push(command(locale, ID_TRAY_RELOAD, keys::TRAY_RELOAD));
    m.push(MenuEntry::Separator);
    let fps = fps_menu(locale, anim_fps);
    m.push(MenuEntry::Popup { label: String::from_str(t(locale, keys::TRAY_ANIM_FPS)), entries: fps });
    let view = CustomizeView::from_defaults(defaults, bg_opacity_choice);
    let entries = build_customize_menu(
        locale,
        &view,
        ID_TRAY_DEFAULTS_BASE,
        ID_TRAY_DEFAULTS_BLUR_RADIUS,
    );
    m.push(MenuEntry::Popup {
        label: String::from_str(t(locale, keys::TRAY_DEFAULT_SETTINGS)),
        entries,
    });
    let langs = lang_menu(locale);
    m.push(MenuEntry::Popup { label: String::from_str(t(locale, keys::LANG_LABEL)), entries: langs });
    m.push(MenuEntry::Separator);
    m.push(command(locale, ID_TRAY_EXIT, keys::TRAY_EXIT));
    m
}

// ---------------------------------------------------------------------------
// Commands
// ---------------------------------------------------------------------------

/// What a command chosen from the tray menu asks for.
#[derive(Debug, Clone, Copy, PartialEq, Eq)]
pub enum TrayCommand {
    Exit,
    NewFence,
    Reload,
    PromptDefaultBlurRadius,
    /// Use this animation frame rate.
    SetAnimFps(i32),
    /// A choice in the template submenu, relative to its base.
    Defaults(usize),
    /// Switch to language number `n` of the language list.
    SetLanguage(usize),
    Nothing,
}

/// The command identifier `id` stands for.
pub open spec fn tray_command_of(id: int) -> TrayCommand {
    if id == ID_TRAY_EXIT {
        TrayCommand::Exit
    } else if id == ID_TRAY_NEW_FENCE {
        TrayCommand::NewFence
    } else if id == ID_TRAY_RELOAD {
        TrayCommand::Reload
    } else if id == ID_TRAY_DEFAULTS_BLUR_RADIUS {
        TrayCommand::PromptDefaultBlurRadius
    } else if ID_TRAY_ANIM_FPS_BASE <= id < ID_TRAY_ANIM_FPS_BASE + anim_fps_preset_list().len() {
        TrayCommand::SetAnimFps(anim_fps_preset_list()[id - ID_TRAY_ANIM_FPS_BASE])
    } else if ID_TRAY_LANG_BASE <= id < ID_TRAY_LANG_BASE + language_list().len() {
        TrayCommand::SetLanguage((id - ID_TRAY_LANG_BASE) as usize)
    } else if ID_TRAY_DEFAULTS_BASE <= id < ID_TRAY_DEFAULTS_BASE + KIND_COUNT * KIND_STRIDE {
        TrayCommand::Defaults((id - ID_TRAY_DEFAULTS_BASE) as usize)
    } else {
        TrayCommand::Nothing
    }
}

/// Decode the identifier returned by the tray menu.
pub fn decode_tray_command(id: usize) -> (c: TrayCommand)
    ensures
        c == tray_command_of(id as int),
{
    let presets = anim_fps_presets();
    let langs = languages();
    if id == ID_TRAY_EXIT {
        TrayCommand::Exit
    } else if id == ID_TRAY_NEW_FENCE {
        TrayCommand::NewFence
    } else if id == ID_TRAY_RELOAD {
        TrayCommand::Reload
    } else if id == ID_TRAY_DEFAULTS_BLUR_RADIUS {
        TrayCommand::PromptDefaultBlurRadius
    } else if ID_TRAY_ANIM_FPS_BASE <= id && id < ID_TRAY_ANIM_FPS_BASE + presets.len() {
        TrayCommand::SetAnimFps(presets[id - ID_TRAY_ANIM_FPS_BASE])
    } else if ID_TRAY_LANG_BASE <= id && id < ID_TRAY_LANG_BASE + langs.len() {
        TrayCommand::SetLanguage(id - ID_TRAY_LANG_BASE)
    } else if ID_TRAY_DEFAULTS_BASE <= id && id < ID_TRAY_DEFAULTS_BASE + KIND_COUNT * KIND_STRIDE {
        TrayCommand::Defaults(id - ID_TRAY_DEFAULTS_BASE)
    } else {
        TrayCommand::Nothing
    }
}

/// Every entry of the frame-rate submenu decodes to setting the rate it
/// shows.
pub proof fn lemma_fps_entries_decode(i: int)
    requires
        0 <= i < anim_fps_preset_list().len(),
    ensures
        tray_command_of(ID_TRAY_ANIM_FPS_BASE + i) == TrayCommand::SetAnimFps(
            anim_fps_preset_list()[i],
        ),
{
}

/// Every entry of the language submenu decodes to switching to the
/// language it shows.
pub proof fn lemma_lang_entries_decode(i: int)
    requires
        0 <= i < language_list().len(),
    ensures
        tray_command_of(ID_TRAY_LANG_BASE + i) == TrayCommand::SetLanguage(i as usize),
{
}

/// A template-submenu code whose choice is below 32 still decodes as a
/// click in that submenu: the language identifiers, which are tested
/// first, fall only on codes with larger choices.
pub proof fn lemma_defaults_entries_decode(kind: int, choice: int)
    requires
        0 <= kind < KIND_COUNT,
        0 <= choice < 32,
    ensures
        tray_command_of(ID_TRAY_DEFAULTS_BASE + kind * KIND_STRIDE + choice) == TrayCommand::Defaults(
            (kind * KIND_STRIDE + choice) as usize,
        ),
{
    assert(kind * 64 + choice < KIND_COUNT * 64) by (nonlinear_arith)
        requires
            0 <= kind < KIND_COUNT,
            0 <= choice < 32,
    ;
    if kind == 0 {
    } else {
        assert(kind * 64 >= 64) by (nonlinear_arith)
            requires
                kind >= 1,
        ;
        assert(kind * 64 + choice != 100 + 0 && kind * 64 + choice != 100 + 1 && kind * 64 + choice != 100 + 2) by (nonlinear_arith)
            requires
                1 <= kind,
                0 <= choice < 32,
        ;
    }
}

/// Switch to the language at position `idx` of the language list and
/// remember the choice; returns the chosen code.
pub fn choose_language(locale: &mut Locale, chosen: &mut Option<String>, idx: usize) -> (r: Option<&'static str>)
    ensures
        idx < language_list().len() ==> (r is Some && r->0@ == language_list()[idx as int].0
            && final(locale).code() == language_list()[idx as int].0 && opt_chars(*final(chosen))
            == Some(language_list()[idx as int].0)),
        idx >= language_list().len() ==> r is None && final(locale).code() == old(locale).code()
            && *final(chosen) == *old(chosen),
{
    let langs = languages();
    if idx >= langs.len() {
        return None;
    }
    let code = langs[idx].0;
    crate::locales::init(locale, code);
    proof {
        crate::locales::lemma_supported_is_fixed(code@);
    }
    *chosen = Some(String::from_str(code));
    Some(code)
}

/// The kind of tray-icon event carried in the low word of a callback.
#[derive(Debug, Clone, Copy, PartialEq, Eq, Structural)]
pub enum TrayEvent {
    /// Right button released: show the menu.
    ShowMenu,
    /// Double click: show or hide all fences.
    ToggleAll,
    Nothing,
}

pub const WM_LBUTTONDBLCLK: u32 = 0x0203;
pub const WM_RBUTTONUP: u32 = 0x0205;

/// What a tray-icon callback asks for, given its message parameter.
pub fn tray_event(lparam: u32) -> (r: TrayEvent)
    ensures
        r == (if lparam % 65536 == WM_RBUTTONUP {
            TrayEvent::ShowMenu
        } else if lparam % 65536 == WM_LBUTTONDBLCLK {
            TrayEvent::ToggleAll
        } else {
            TrayEvent::Nothing
        }),
{
    let event = lparam & 0xffff;
    assert(lparam & 0xffffu32 == lparam % 65536) by (bit_vector);
    if event == WM_RBUTTONUP {
        TrayEvent::ShowMenu
    } else if event == WM_LBUTTONDBLCLK {
        TrayEvent::ToggleAll
    } else {
        TrayEvent::Nothing
    }
}

// ---------------------------------------------------------------------------
// Fences
// ---------------------------------------------------------------------------

/// Whether a stored fence gets a window: it is not hidden and holds
/// items or a note.
pub open spec fn shown(f: FenceView) -> bool {
    f.is_hidden != "true"@ && (f.items_type == "Data"@ || f.items_type == "Note"@)
}

/// Whether a stored fence is shown.
pub fn should_show_fence(fence: &Fence) -> (r: bool)
    ensures
        r == shown(fence@),
{
    !str_eq(fence.is_hidden.as_str(), "true") && (str_eq(fence.items_type.as_str(), "Data")
        || str_eq(fence.items_type.as_str(), "Note"))
}

/// Showing or hiding all fences: hide them all when any is visible,
/// otherwise show them all. Returns whether to show.
pub fn show_all_fences(visible: &[bool]) -> (show: bool)
    ensures
        show == !(exists|i: int| 0 <= i < visible@.len() && visible@[i]),
{
    let mut i: usize = 0;
    while i < visible.len()
        invariant
            i <= visible@.len(),
            forall|k: int| 0 <= k < i ==> !visible@[k],
        decreases visible@.len() - i,
    {
        if visible[i] {
            return false;
        }
        i = i + 1;
    }
    true
}

/// A new fence made from the template: an empty, unlocked, shown,
/// unrolled item fence titled with the translated default title, taking
/// colours, border, icon, title and label settings from `d`.
pub open spec fn fence_from_template(code: Seq<char>, d: FenceDefaultsView, id: Seq<char>) -> FenceView {
    FenceView {
        id,
        title: translated(code, keys::NEW_FENCE_TITLE@),
        items_type: "Data"@,
        items: Seq::empty(),
        is_locked: "false"@,
        is_hidden: "false"@,
        is_rolled: "false"@,
        tabs_enabled: "false"@,
        current_tab: 0,
        tabs: Seq::empty(),
        custom_color: d.custom_color,
        fence_border_thickness: d.fence_border_thickness,
        icon_size: d.icon_size,
        icon_spacing: d.icon_spacing,
        custom_launch_effect: None,
        text_color: d.text_color,
        title_text_color: d.title_text_color,
        title_text_size: d.title_text_size,
        bold_title_text: d.bold_title_text,
        disable_text_shadow: "false"@,
        grayscale_icons: "false"@,
        fence_border_color: d.fence_border_color,
        note_content: None,
        note_font_size: "Medium"@,
        note_font_family: None,
        word_wrap: "true"@,
        note_mode: "text"@,
        note_items: Seq::empty(),
        blur_enabled: d.blur_enabled,
        show_item_labels: d.show_item_labels,
        title_text_align: d.title_text_align,
        note_text_align: "Left"@,
        text_outline_enabled: d.text_outline_enabled,
    }
}

fn copy_opt(o: &Option<String>) -> (r: Option<String>)
    ensures
        crate::fence::opt_chars(r) == crate::fence::opt_chars(*o),
{
    match o {
        Some(s) => Some(s.clone()),
        None => None,
    }
}

/// A new fence with identifier `id` made from template `d`.
pub fn fence_from_defaults(locale: &Locale, d: &FenceDefaults, id: String) -> (f: Fence)
    ensures
        f@ == fence_from_template(locale.code(), d@, id@),
{
    let f = Fence {
        id,
        title: String::from_str(t(locale, keys::NEW_FENCE_TITLE)),
        items_type: String::from_str("Data"),
        items: Vec::new(),
        is_locked: String::from_str("false"),
        is_hidden: String::from_str("false"),
        is_rolled: String::from_str("false"),
        tabs_enabled: String::from_str("false"),
        current_tab: 0,
        tabs: Vec::new(),
        custom_color: copy_opt(&d.custom_color),
        fence_border_thickness: d.fence_border_thickness,
        icon_size: d.icon_size.clone(),
        icon_spacing: d.icon_spacing,
        custom_launch_effect: None,
        text_color: copy_opt(&d.text_color),
        title_text_color: copy_opt(&d.title_text_color),
        title_text_size: d.title_text_size.clone(),
        bold_title_text: d.bold_title_text.clone(),
        disable_text_shadow: String::from_str("false"),
        grayscale_icons: String::from_str("false"),
        fence_border_color: copy_opt(&d.fence_border_color),
        note_content: None,
        note_font_size: String::from_str("Medium"),
        note_font_family: None,
        word_wrap: String::from_str("true"),
        note_mode: String::from_str("text"),
        note_items: Vec::new(),
        blur_enabled: d.blur_enabled.clone(),
        show_item_labels: d.show_item_labels.clone(),
        title_text_align: d.title_text_align.clone(),
        note_text_align: default_note_align(),
        text_outline_enabled: d.text_outline_enabled.clone(),
    };
    assert(f@.items =~= Seq::<crate::fence::FenceItemView>::empty());
    assert(f@.tabs =~= Seq::<crate::fence::TabView>::empty());
    assert(f@.note_items =~= Seq::<crate::fence::NoteItemView>::empty());
    f
}

/// The text of a random (version 4) identifier: 36 characters in five
/// hyphen-separated groups of lowercase hexadecimal digits (8-4-4-4-12),
/// with the version digit `4` and a variant digit of `8` to `b`.
pub open spec fn is_uuid_v4_text(s: Seq<char>) -> bool {
    &&& s.len() == 36
    &&& forall|i: int|
        0 <= i < 36 ==> (if i == 8 || i == 13 || i == 18 || i == 23 {
            s[i] == '-'
        } else {
            ('0' <= #[trigger] s[i] <= '9') || ('a' <= s[i] <= 'f')
        })
    &&& s[14] == '4'
    &&& (s[19] == '8' || s[19] == '9' || s[19] == 'a' || s[19] == 'b')
}

/// `uuid::Uuid::new_v4().to_string()`: a fresh random identifier in its
/// hyphenated lowercase form. The uuid crate sets the version and variant
/// bits and prints the value as 8-4-4-4-12 lowercase hex digits; which
/// identifier comes back is chance. (The crate panics if the system's
/// random source fails, which no argument can rule out.)
#[verifier::external_body]
fn new_uuid_v4() -> (r: String)
    ensures
        is_uuid_v4_text(r@),
{
    uuid::Uuid::new_v4().to_string()
}

/// A new fence made from the template, with a fresh random identifier.
pub fn new_fence_from_defaults(locale: &Locale, d: &FenceDefaults) -> (f: Fence)
    ensures
        is_uuid_v4_text(f@.id),
        f@ == fence_from_template(locale.code(), d@, f@.id),
{
    let id = new_uuid_v4();
    fence_from_defaults(locale, d, id)
}

} // verus!
