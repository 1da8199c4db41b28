use deskgate::config::FenceDefaults;
use deskgate::fence::Fence;
use deskgate::locales::Locale;
use deskgate::menu::MenuEntry;
use deskgate::modal::{
    click_result, close_result, confirm_buttons, confirm_outcome, dialog_key, edit_control_text,
    edit_result_text, hit_test_button, input_buttons, input_outcome, wrap_line_count, ButtonRow,
    ConfirmResult, KeyAction, RESULT_CANCEL, RESULT_OK, VK_ESCAPE, VK_RETURN, VK_TAB,
};
use deskgate::tray::{
    decode_tray_command, fence_from_defaults, new_fence_from_defaults, should_show_fence,
    show_all_fences, tray_event, tray_menu, TrayCommand, TrayEvent,
};
use deskgate::modal::{button_look, in_drag_strip, ButtonState, ButtonStyle};

#[test]
fn dialog_buttons_and_results() {
    let l = Locale::new();
    let b = input_buttons(&l);
    assert_eq!(b.len(), 2);
    assert_eq!(b[0].label, "Cancel");
    assert!(b[0].cancel && !b[0].default);
    assert_eq!(b[1].label, "OK");
    assert!(b[1].default);
    let c = confirm_buttons(&l, "Delete");
    assert!(c[1].destructive && !c[1].default);
    assert_eq!(input_outcome(RESULT_OK, Some("t".to_string())), Some("t".to_string()));
    assert_eq!(input_outcome(RESULT_CANCEL, Some("t".to_string())), None);
    assert_eq!(confirm_outcome(RESULT_OK), ConfirmResult::Confirmed);
    assert_eq!(confirm_outcome(i32::MIN), ConfirmResult::Cancelled);
}

#[test]
fn dialog_keys() {
    let l = Locale::new();
    let b = input_buttons(&l);
    assert_eq!(dialog_key(&b, VK_ESCAPE, false, false), KeyAction::Close(Some(RESULT_CANCEL)));
    assert_eq!(dialog_key(&b, VK_RETURN, false, false), KeyAction::Close(Some(RESULT_OK)));
    assert_eq!(dialog_key(&b, VK_RETURN, true, false), KeyAction::Pass);
    assert_eq!(dialog_key(&b, VK_RETURN, true, true), KeyAction::Close(Some(RESULT_OK)));
    assert_eq!(dialog_key(&b, VK_TAB, false, false), KeyAction::Swallow);
    assert_eq!(dialog_key(&b, 0x41, false, false), KeyAction::Pass);
    let c = confirm_buttons(&l, "Delete");
    assert_eq!(dialog_key(&c, VK_RETURN, false, false), KeyAction::Pass);
    assert_eq!(close_result(&c), Some(RESULT_CANCEL));
    assert_eq!(close_result(&[]), None);
    assert_eq!(click_result(&c, 1, 1), Some(RESULT_OK));
    assert_eq!(click_result(&c, 0, 1), None);
    assert_eq!(click_result(&c, -1, -1), None);
}

#[test]
fn dialog_button_geometry() {
    let row = ButtonRow { width: 380, height: 200, pad: 18, button_w: 96, button_h: 30, gap: 8 };
    // first button sits at the right edge
    assert_eq!(hit_test_button(row, 2, 300, 160), 0);
    assert_eq!(hit_test_button(row, 2, 200, 160), 1);
    assert_eq!(hit_test_button(row, 2, 160, 160), -1);
    assert_eq!(hit_test_button(row, 2, 300, 100), -1);
    assert_eq!(hit_test_button(row, 1, 200, 160), -1);
}

#[test]
fn dialog_text() {
    assert_eq!(wrap_line_count("", 10), 1);
    assert_eq!(wrap_line_count("abcdefghijk", 10), 2);
    assert_eq!(wrap_line_count("abc\n\nabc", 10), 3);
    assert_eq!(wrap_line_count("abcdefghij", 10), 1);
    assert_eq!(edit_control_text("a\nb\r\nc", true), "a\r\nb\r\nc");
    assert_eq!(edit_control_text("a\nb", false), "a\nb");
    assert_eq!(edit_result_text("a\r\nb", true), "a\nb");
    assert_eq!(edit_result_text("a\r\nb", false), "a\r\nb");
}

#[test]
fn tray_menu_shape() {
    let l = Locale::new();
    let d = FenceDefaults::default();
    let m = tray_menu(&l, 60, &d, None);
    assert_eq!(m.len(), 8);
    assert!(matches!(&m[0], MenuEntry::Item { id: 1002, label, .. } if label == "New Fence"));
    match &m[3] {
        MenuEntry::Popup { label, entries } => {
            assert_eq!(label, "Animation FPS");
            assert_eq!(entries.len(), 7);
            assert!(matches!(&entries[2], MenuEntry::Item { id: 1102, checked: true, label } if label == "60 FPS (default)"));
            assert!(matches!(&entries[0], MenuEntry::Item { id: 1100, checked: false, .. }));
        }
        _ => panic!("frame-rate submenu"),
    }
    match &m[5] {
        MenuEntry::Popup { entries, .. } => {
            assert_eq!(entries.len(), 3);
            assert!(matches!(&entries[0], MenuEntry::Item { id: 1300, checked: true, label } if label == "English"));
        }
        _ => panic!("language submenu"),
    }
    assert!(matches!(&m[7], MenuEntry::Item { id: 1001, .. }));
}

#[test]
fn tray_commands() {
    assert_eq!(decode_tray_command(1001), TrayCommand::Exit);
    assert_eq!(decode_tray_command(1002), TrayCommand::NewFence);
    assert_eq!(decode_tray_command(1199), TrayCommand::PromptDefaultBlurRadius);
    assert_eq!(decode_tray_command(1104), TrayCommand::SetAnimFps(120));
    assert_eq!(decode_tray_command(1107), TrayCommand::Nothing);
    assert_eq!(decode_tray_command(1200 + 65), TrayCommand::Defaults(65));
    // the language entries are decoded before the template submenu's range
    assert_eq!(decode_tray_command(1300), TrayCommand::SetLanguage(0));
    assert_eq!(decode_tray_command(1302), TrayCommand::SetLanguage(2));
    assert_eq!(decode_tray_command(1303), TrayCommand::Defaults(103));
    assert_eq!(decode_tray_command(1004), TrayCommand::Nothing);
    assert_eq!(tray_event(0x0205), TrayEvent::ShowMenu);
    assert_eq!(tray_event(0x1_0203), TrayEvent::ToggleAll);
    assert_eq!(tray_event(0x0200), TrayEvent::Nothing);
}

fn check_uuid(id: &str) {
    let b = id.as_bytes();
    assert_eq!(b.len(), 36);
    for (i, c) in b.iter().enumerate() {
        if [8, 13, 18, 23].contains(&i) {
            assert_eq!(*c, b'-');
        } else {
            assert!(c.is_ascii_digit() || (b'a'..=b'f').contains(c));
        }
    }
    assert_eq!(b[14], b'4');
    assert!(b"89ab".contains(&b[19]));
}

#[test]
fn new_fences_from_the_template() {
    let l = Locale::new();
    let mut d = FenceDefaults::default();
    d.custom_color = Some("Blue".to_string());
    let f: Fence = fence_from_defaults(&l, &d, "id-1".to_string());
    assert_eq!(f.id, "id-1");
    assert_eq!(f.title, "New Fence - Drop your shortcuts here");
    assert_eq!(f.items_type, "Data");
    assert_eq!(f.custom_color.as_deref(), Some("Blue"));
    assert_eq!(f.note_mode, "text");
    assert!(f.items.is_empty());
    assert!(should_show_fence(&f));
    let g = new_fence_from_defaults(&l, &d);
    let h = new_fence_from_defaults(&l, &d);
    check_uuid(&g.id);
    check_uuid(&h.id);
    assert_ne!(g.id, h.id);
    assert_eq!(g.icon_size, "Medium");
}

#[test]
fn showing_fences() {
    let l = Locale::new();
    let d = FenceDefaults::default();
    let mut f = fence_from_defaults(&l, &d, "x".to_string());
    f.is_hidden = "true".to_string();
    assert!(!should_show_fence(&f));
    f.is_hidden = "false".to_string();
    f.items_type = "Portal".to_string();
    assert!(!should_show_fence(&f));
    f.items_type = "Note".to_string();
    assert!(should_show_fence(&f));
    assert!(show_all_fences(&[]));
    assert!(show_all_fences(&[false, false]));
    assert!(!show_all_fences(&[false, true]));
}

#[test]
fn button_looks_and_drag_strip() {
    let l = Locale::new();
    let c = confirm_buttons(&l, "Delete");
    assert_eq!(button_look(&c[1], 1, 1, 1), (ButtonStyle::Destructive, ButtonState::Pressed));
    assert_eq!(button_look(&c[1], 1, -1, 1), (ButtonStyle::Destructive, ButtonState::Normal));
    assert_eq!(button_look(&c[0], 0, 0, -1), (ButtonStyle::Plain, ButtonState::Hovered));
    let b = input_buttons(&l);
    assert_eq!(button_look(&b[1], 1, 0, 1), (ButtonStyle::Default, ButtonState::Normal));
    assert!(in_drag_strip(5, 28, 150));
    assert!(!in_drag_strip(-1, 28, 150));
    assert!(!in_drag_strip(20, 28, 10));
}
