use deskgate::autostart::{is_enabled_from, quoted_exe_path, set_enabled_succeeded, EXE_PATH_CAPACITY};
use deskgate::config::{default_anim_fps, profile_dir_from, AppSettings, FenceDefaults};
use deskgate::customize::{
    apply_customize, apply_defaults, build_customize_menu, decode, decoded_border_thick,
    decoded_color, decoded_icon_size, decoded_note_align, encode, resolve_label, toggle_bool_str,
    CustomizeEffect, CustomizeView,
};
use deskgate::fence::{Fence, FenceItem};
use deskgate::geometry::{dip_to_px, grid_cell, grid_hit, nc_hit_test, snap_rect, HitZone, Point, Rect};
use deskgate::layout::{icon_size_px, note_metrics, TodoAlign};
use deskgate::locales::{
    init, lang, language_for_langid, languages, normalize_lang, t, t_named, translate, tw, tw_named,
    Locale,
};
use deskgate::locales::keys;
use deskgate::look::{accent_state, parse_fence_color, parse_named_color, parse_text_color, NamedColor};
use deskgate::menu::MenuEntry;
use deskgate::text::{decimal_string, replace, split_char, to_ascii_lowercase, trimmed, to_wide};
use deskgate::layout::{fence_body, note_alignment, note_font_size, title_alignment, title_font_size, FenceBody, TextAlign};

fn sample_fence() -> Fence {
    Fence {
        id: "f1".to_string(),
        title: "Work".to_string(),
        items_type: "Data".to_string(),
        items: Vec::new(),
        is_locked: "false".to_string(),
        is_hidden: "false".to_string(),
        is_rolled: "false".to_string(),
        tabs_enabled: "false".to_string(),
        current_tab: 0,
        tabs: Vec::new(),
        custom_color: None,
        fence_border_thickness: 2,
        icon_size: "Medium".to_string(),
        icon_spacing: 5,
        custom_launch_effect: None,
        text_color: None,
        title_text_color: None,
        title_text_size: "Medium".to_string(),
        bold_title_text: "false".to_string(),
        disable_text_shadow: "false".to_string(),
        grayscale_icons: "false".to_string(),
        fence_border_color: None,
        note_content: None,
        note_font_size: "Medium".to_string(),
        note_font_family: None,
        word_wrap: "true".to_string(),
        note_mode: "text".to_string(),
        note_items: Vec::new(),
        blur_enabled: "true".to_string(),
        show_item_labels: "true".to_string(),
        title_text_align: "Center".to_string(),
        note_text_align: "Left".to_string(),
        text_outline_enabled: "false".to_string(),
    }
}

#[test]
fn languages_resolve_and_translate() {
    assert_eq!(normalize_lang("zh-Hans"), "zh_CN");
    assert_eq!(normalize_lang("zh-TW"), "zh_TW");
    assert_eq!(normalize_lang("fr"), "en");
    let mut l = Locale::new();
    assert_eq!(lang(&l), "en");
    assert_eq!(t(&l, keys::TRAY_EXIT), "Exit");
    init(&mut l, "zh");
    assert_eq!(lang(&l), "zh_CN");
    init(&mut l, "de");
    assert_eq!(lang(&l), "en");
    assert_eq!(translate("en", keys::MODAL_OK), "OK");
    assert_eq!(translate("en", "no.such.key"), "no.such.key");
    assert_eq!(translate("en", keys::DROP_DESC_OPEN_WITH), "Open with %1");
    assert_eq!(translate("en", keys::DROP_DESC_ADD_TO), "Add to %1");
    assert!(translate("zh_CN", keys::DROP_DESC_ADD_TO).contains("%1"));
    assert!(translate("zh_TW", keys::DROP_DESC_OPEN_WITH).contains("%1"));
    assert_eq!(translate("xx", keys::MODAL_CANCEL), "Cancel");
    assert_eq!(
        t_named(&l, keys::DELETE_TITLE_NAMED, "Games"),
        "Delete the fence \u{201c}Games\u{201d}?"
    );
    let w = tw(&l, keys::MODAL_OK);
    assert_eq!(w, vec![b'O' as u16, b'K' as u16, 0]);
    let wn = tw_named(&l, keys::DELETE_TITLE_NAMED, "x");
    assert_eq!(*wn.last().unwrap(), 0);
    assert_eq!(languages().len(), 3);
    assert_eq!(languages()[1].0, "zh_CN");
}

#[test]
fn system_language_choice() {
    assert_eq!(language_for_langid(0x0804), "zh_CN");
    assert_eq!(language_for_langid(0x0404), "zh_TW");
    assert_eq!(language_for_langid(0x0C04), "zh_TW");
    assert_eq!(language_for_langid(0x0409), "en");
}

#[test]
fn text_helpers() {
    assert_eq!(to_ascii_lowercase("AbC.LNK"), "abc.lnk");
    assert_eq!(replace("a\r\nb\r\n", "\r\n", "\n"), "a\nb\n");
    assert_eq!(split_char("a\n\nb", '\n'), vec!["a", "", "b"]);
    assert_eq!(split_char("", '\n'), vec![""]);
    assert_eq!(trimmed("  x y \t"), "x y");
    assert_eq!(decimal_string(0), "0");
    assert_eq!(decimal_string(1207), "1207");
    assert_eq!(to_wide("é"), vec![0xe9, 0]);
    assert_eq!(to_wide("😀"), vec![0xd83d, 0xde00, 0]);
}

#[test]
fn item_labels() {
    let mut it = FenceItem {
        filename: "/home/me/Desktop/Report.final.docx".to_string(),
        display_name: String::new(),
        is_folder: false,
        is_link: false,
        display_order: 0,
        arguments: None,
        original_path: None,
    };
    assert_eq!(it.display_name_or_filename(), "Report.final");
    it.display_name = "Mine".to_string();
    assert_eq!(it.display_name_or_filename(), "Mine");    it.display_name = String::new();
    it.filename = "/home/me/Desktop/.profile".to_string();
    assert_eq!(it.display_name_or_filename(), ".profile");
    it.filename = "/".to_string();
    assert_eq!(it.display_name_or_filename(), "/");
}

#[test]
fn defaults_and_settings() {
    let d = FenceDefaults::default();
    assert_eq!(d.fence_border_thickness, 2);
    assert_eq!(d.icon_size, "Medium");
    assert_eq!(d.title_text_align, "Center");
    let s = AppSettings::default();
    assert_eq!(s.anim_fps, 60);
    assert_eq!(default_anim_fps(), 60);
    assert!(s.language.is_none());
    assert_eq!(profile_dir_from(Some("D:\\p".to_string()), Some("C:\\a".to_string())), "D:\\p");
    assert_eq!(profile_dir_from(None, None), "Profiles");
    let joined = profile_dir_from(None, Some("/roaming".to_string()));
    assert_eq!(joined, "/roaming/DeskGate");
}

#[test]
fn customize_codes() {
    assert_eq!(encode(3000, 5, 2), 3322);
    assert_eq!(decode(3000, 3322), (5, 2));
    assert_eq!(decoded_color(0), Some(None));
    assert_eq!(decoded_color(1), Some(Some("Red".to_string())));
    assert_eq!(decoded_color(40), None);
    assert_eq!(decoded_border_thick(5), Some(6));
    assert_eq!(decoded_icon_size(4), Some("Huge".to_string()));
    assert_eq!(decoded_note_align(2), Some("Right".to_string()));
    assert_eq!(toggle_bool_str("true"), "false");
    assert_eq!(toggle_bool_str("yes"), "true");
    let l = Locale::new();
    assert_eq!(resolve_label(&l, "color.red"), "Red");
    assert_eq!(resolve_label(&l, "15%"), "15%");
}

#[test]
fn customize_clicks_change_fences() {
    let mut f = sample_fence();
    assert_eq!(apply_customize(&mut f, 64 + 2), CustomizeEffect::Applied);
    assert_eq!(f.fence_border_color.as_deref(), Some("Green"));
    assert_eq!(apply_customize(&mut f, 5 * 64 + 3), CustomizeEffect::AppliedIconSize);
    assert_eq!(f.icon_size, "Large");
    assert_eq!(apply_customize(&mut f, 8 * 64), CustomizeEffect::AppliedBlur(false));
    assert_eq!(f.blur_enabled, "false");
    assert_eq!(apply_customize(&mut f, 7 * 64), CustomizeEffect::Applied);
    assert_eq!(apply_customize(&mut f, 7 * 64), CustomizeEffect::Applied);
    assert_eq!(f.bold_title_text, "false");
    assert_eq!(apply_customize(&mut f, 4 * 64 + 50), CustomizeEffect::Ignored);
    assert_eq!(f.fence_border_thickness, 2);
    let mut d = FenceDefaults::default();
    apply_defaults(&mut d, 6 * 64 + 4);
    assert_eq!(d.icon_spacing, 12);
    let outline = d.text_outline_enabled.clone();
    assert_eq!(apply_defaults(&mut d, 13 * 64), CustomizeEffect::Applied);
    assert_ne!(d.text_outline_enabled, outline);
    assert_eq!(apply_defaults(&mut d, 13 * 64), CustomizeEffect::Applied);
    assert_eq!(d.text_outline_enabled, outline);
}

#[test]
fn customize_menu_shape() {
    let l = Locale::new();
    let f = sample_fence();
    let v = CustomizeView::from_fence(&f, Some(3));
    let m = build_customize_menu(&l, &v, 3000, 2005);
    assert_eq!(m.len(), 14);
    match &m[0] {
        MenuEntry::Popup { label, entries } => {
            assert_eq!(label, "Background color: (default)");
            assert_eq!(entries.len(), 12);
            assert!(matches!(&entries[0], MenuEntry::Item { id: 3000, checked: true, .. }));
        }
        _ => panic!("first entry is a submenu"),
    }
    let mut note = sample_fence();
    note.items_type = "Note".to_string();
    let v = CustomizeView::from_fence(&note, None);
    assert_eq!(build_customize_menu(&l, &v, 3000, 2005).len(), 15);
}

#[test]
fn dpi_and_hit_testing() {
    assert_eq!(dip_to_px(32, 96), 32);
    assert_eq!(dip_to_px(32, 144), 48);
    assert_eq!(dip_to_px(3, 120), 4);
    assert_eq!(nc_hit_test(2, 2, 300, 200, 96, false), HitZone::TopLeft);
    assert_eq!(nc_hit_test(295, 195, 300, 200, 96, false), HitZone::BottomRight);
    assert_eq!(nc_hit_test(150, 10, 300, 200, 96, false), HitZone::Caption);
    assert_eq!(nc_hit_test(150, 100, 300, 200, 96, false), HitZone::Client);
    assert_eq!(nc_hit_test(2, 2, 300, 200, 96, true), HitZone::Client);
}

#[test]
fn snapping() {
    let work = Rect { left: 0, top: 0, right: 1920, bottom: 1080 };
    let r = Rect { left: 10, top: 500, right: 210, bottom: 700 };
    let s = snap_rect(r, work, &[], 16);
    assert_eq!(s, Rect { left: 0, top: 500, right: 200, bottom: 700 });
    let other = Rect { left: 220, top: 450, right: 420, bottom: 650 };
    let r2 = Rect { left: 30, top: 500, right: 210, bottom: 700 };
    let s2 = snap_rect(r2, work, &[other], 16);
    assert_eq!(s2.right, 220);
    assert_eq!(s2.right - s2.left, 180);
}

#[test]
fn icon_grid() {
    assert_eq!(grid_cell(7, 3), (1, 2));
    assert_eq!(grid_hit(1, 2, 3, 10), Some(7));
    assert_eq!(grid_hit(1, 3, 3, 10), None);
    assert_eq!(grid_hit(3, 0, 3, 10), None);
}

#[test]
fn layout_settings() {
    assert!(TodoAlign::parse("Right") == TodoAlign::Right);
    assert!(TodoAlign::parse("Center") == TodoAlign::Center);
    assert!(TodoAlign::parse("right") == TodoAlign::Left);
    assert!(TodoAlign::Right.checkbox_on_right());
    assert_eq!(icon_size_px("Tiny"), 16);
    assert_eq!(icon_size_px("Huge"), 64);
    assert_eq!(icon_size_px("whatever"), 32);
    let m = note_metrics("Large");
    assert_eq!((m.row_v_pad, m.checkbox_size, m.font_size), (8, 18, 16));
    assert_eq!(note_metrics("?").checkbox_size, 16);
}

#[test]
fn colour_names() {
    assert_eq!(parse_named_color("Red"), NamedColor::Red);
    assert_eq!(parse_named_color("GREY"), NamedColor::Gray);
    assert_eq!(parse_named_color("mauve"), NamedColor::Unknown);
    assert_eq!(parse_fence_color(&None), None);
    assert_eq!(parse_fence_color(&Some(String::new())), None);
    assert_eq!(parse_text_color(&Some(String::new())), NamedColor::White);
    assert_eq!(parse_fence_color(&Some("Teal".to_string())), Some(NamedColor::Teal));
    assert_eq!(parse_text_color(&None), NamedColor::White);
    assert_eq!(accent_state(true, true), 5);
    assert_eq!(accent_state(true, false), 3);
    assert_eq!(accent_state(false, true), 0);
}

#[test]
fn autostart_command() {
    let path: Vec<u16> = "C:\\A B\\dg.exe".encode_utf16().collect();
    let q = quoted_exe_path(&path, EXE_PATH_CAPACITY).unwrap();
    assert_eq!(q[0], 0x22);
    assert_eq!(q[q.len() - 2], 0x22);
    assert_eq!(q[q.len() - 1], 0);
    assert_eq!(&q[1..q.len() - 2], &path[..]);
    assert!(quoted_exe_path(&[], EXE_PATH_CAPACITY).is_none());
    let long = vec![65u16; 2048];
    assert!(quoted_exe_path(&long, EXE_PATH_CAPACITY).is_none());
    assert!(set_enabled_succeeded(true, 0));
    assert!(set_enabled_succeeded(false, 2));
    assert!(!set_enabled_succeeded(true, 2));
    assert!(is_enabled_from(0, 0));
    assert!(!is_enabled_from(0, 2));
    let _ = Point { x: 1, y: 2 };
}

#[test]
fn fence_text_and_body() {
    assert_eq!(title_alignment("Left"), TextAlign::Leading);
    assert_eq!(title_alignment("Middle"), TextAlign::Center);
    assert_eq!(note_alignment("Center"), TextAlign::Center);
    assert_eq!(note_alignment("Left"), TextAlign::Leading);
    assert_eq!(title_font_size("Large"), 15);
    assert_eq!(note_font_size("Huge"), 20);
    let l = Locale::new();
    let mut f = sample_fence();
    assert_eq!(fence_body(&l, &f, false), FenceBody::Icons);
    f.is_rolled = "true".to_string();
    assert_eq!(fence_body(&l, &f, false), FenceBody::Nothing);
    assert_eq!(fence_body(&l, &f, true), FenceBody::Icons);
    f.is_rolled = "false".to_string();
    f.items_type = "Note".to_string();
    assert_eq!(fence_body(&l, &f, false), FenceBody::NoteText("note.empty_hint".to_string()));
    f.note_content = Some("hi".to_string());
    assert_eq!(fence_body(&l, &f, false), FenceBody::NoteText("hi".to_string()));
    f.note_mode = "todo".to_string();
    assert_eq!(fence_body(&l, &f, false), FenceBody::TodoRows);
}
