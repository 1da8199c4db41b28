use deskgate::fence::{Fence, FenceItem, NoteItem};
use deskgate::locales::{init, Locale};
use deskgate::menu::MenuEntry;
use deskgate::shortcut::ShortcutInfo;
use deskgate::window::{
    anim_fps_presets, anim_timer_interval, apply_note_edit, context_target, decode_fence_command,
    delete_instruction, edited_note_items, explorer_select_arg, fence_context_menu, fps_label,
    icon_hit, index_after_drag_out, launch_command, move_action, move_item, needs_shortcut_resolution,
    note_editor_initial_text, note_editor_text, parse_note_line, plan_roll, press_outcome,
    release_action, slot_of, title_double_click, toggle_lock, toggle_note_mode, toggle_note_row,
    FenceCommand, MoveAction, Press, PressOutcome, ReleaseAction, TitleDoubleClick,
    ID_CUSTOMIZE_BASE,
};
use deskgate::window::{item_lookup_retry, LookupRetry};

fn item(name: &str, order: i32) -> FenceItem {
    FenceItem {
        filename: name.to_string(),
        display_name: String::new(),
        is_folder: false,
        is_link: false,
        display_order: order,
        arguments: None,
        original_path: None,
    }
}

fn note(text: &str, checked: bool) -> NoteItem {
    NoteItem { text: text.to_string(), checked }
}

fn sample_fence() -> Fence {
    Fence {
        id: "f1".to_string(),
        title: "Work".to_string(),
        items_type: "Data".to_string(),
        items: vec![item("a.txt", 0), item("b.txt", 1), item("c.txt", 2), item("d.txt", 3)],
        is_locked: "false".to_string(),
        is_hidden: "false".to_string(),
        is_rolled: "false".to_string(),
        tabs_enabled: "false".to_string(),
        current_tab: 0,
        tabs: Vec::new(),
        custom_color: None,
        fence_border_thickness: 2,
        icon_size: "Medium".to_string(),
        icon_spacing: 5,
        custom_launch_effect: None,
        text_color: None,
        title_text_color: None,
        title_text_size: "Medium".to_string(),
        bold_title_text: "false".to_string(),
        disable_text_shadow: "false".to_string(),
        grayscale_icons: "false".to_string(),
        fence_border_color: None,
        note_content: None,
        note_font_size: "Medium".to_string(),
        note_font_family: None,
        word_wrap: "true".to_string(),
        note_mode: "text".to_string(),
        note_items: Vec::new(),
        blur_enabled: "true".to_string(),
        show_item_labels: "true".to_string(),
        title_text_align: "Center".to_string(),
        note_text_align: "Left".to_string(),
        text_outline_enabled: "false".to_string(),
    }
}

fn names(items: &[FenceItem]) -> Vec<String> {
    items.iter().map(|i| i.filename.clone()).collect()
}

#[test]
fn presets_and_labels() {
    assert_eq!(anim_fps_presets(), &[0, 30, 60, 90, 120, 144, 240]);
    let l = Locale::new();
    assert_eq!(fps_label(&l, 0), "Off (snap)");
    assert_eq!(fps_label(&l, 60), "60 FPS (default)");
    assert_eq!(fps_label(&l, 144), "144 FPS");
    assert_eq!(fps_label(&l, 75), "FPS");
    let mut zh = Locale::new();
    init(&mut zh, "zh-CN");
    assert_eq!(fps_label(&zh, 0), "关闭 (吸附)");
    assert_eq!(fps_label(&zh, 30), "30 FPS");
}

#[test]
fn timer_interval_is_clamped() {
    assert_eq!(anim_timer_interval(0), None);
    assert_eq!(anim_timer_interval(-5), None);
    assert_eq!(anim_timer_interval(60), Some(16));
    assert_eq!(anim_timer_interval(144), Some(6));
    assert_eq!(anim_timer_interval(5), Some(100));
    assert_eq!(anim_timer_interval(240), Some(4));
    assert_eq!(anim_timer_interval(2000), Some(4));
    assert_eq!(anim_timer_interval(1), Some(100));
}

#[test]
fn slots_while_dragging_forward_and_back() {
    // dragging item 1 over slot 3: items 2 and 3 move up one place
    assert_eq!(slot_of(1, 1, Some(3)), 3);
    assert_eq!(slot_of(2, 1, Some(3)), 1);
    assert_eq!(slot_of(3, 1, Some(3)), 2);
    assert_eq!(slot_of(0, 1, Some(3)), 0);
    // dragging item 3 over slot 0: items 0..3 move down one place
    assert_eq!(slot_of(3, 3, Some(0)), 0);
    assert_eq!(slot_of(0, 3, Some(0)), 1);
    assert_eq!(slot_of(2, 3, Some(0)), 3);
    // no target: nothing moves
    assert_eq!(slot_of(2, 3, None), 2);
}

#[test]
fn drop_matches_preview() {
    let mut f = sample_fence();
    let before = names(&f.items);
    assert!(move_item(&mut f.items, 1, 3));
    let after = names(&f.items);
    assert_eq!(after, vec!["a.txt", "c.txt", "d.txt", "b.txt"]);
    for i in 0..4 {
        assert_eq!(after[slot_of(i, 1, Some(3))], before[i]);
    }
    let orders: Vec<i32> = f.items.iter().map(|i| i.display_order).collect();
    assert_eq!(orders, vec![0, 1, 2, 3]);
}

#[test]
fn move_to_front_and_no_op_moves() {
    let mut f = sample_fence();
    f.items[0].display_order = 7;
    assert!(move_item(&mut f.items, 3, 0));
    assert_eq!(names(&f.items), vec!["d.txt", "a.txt", "b.txt", "c.txt"]);
    assert_eq!(f.items[1].display_order, 1);
    let mut g = sample_fence();
    g.items[0].display_order = 9;
    assert!(!move_item(&mut g.items, 2, 2));
    assert!(!move_item(&mut g.items, 9, 0));
    assert_eq!(g.items[0].display_order, 9);
}

#[test]
fn note_editor_round_trip() {
    let rows = vec![note("milk", true), note("eggs", false), note("bread", true)];
    let text = note_editor_text(&rows);
    assert_eq!(text, "[x] milk\neggs\n[x] bread");
    let back = edited_note_items(&rows, &text);
    assert_eq!(back.len(), 3);
    for (a, b) in back.iter().zip(rows.iter()) {
        assert_eq!(a.text, b.text);
        assert_eq!(a.checked, b.checked);
    }
}

#[test]
fn note_editor_reads_markers_and_keeps_states() {
    let old = vec![note("milk", true), note("eggs", false)];
    let back = edited_note_items(&old, "milk\r\n[ ] eggs\n\n[X] tea\nnew\r\r");
    let got: Vec<(String, bool)> = back.iter().map(|n| (n.text.clone(), n.checked)).collect();
    assert_eq!(
        got,
        vec![
            ("milk".to_string(), true),
            ("eggs".to_string(), false),
            ("tea".to_string(), true),
            ("new".to_string(), false),
        ]
    );
    assert_eq!(parse_note_line("[x] done\r"), (Some(true), "done".to_string()));
    assert_eq!(parse_note_line("[ ] todo"), (Some(false), "todo".to_string()));
    assert_eq!(parse_note_line("plain"), (None, "plain".to_string()));
    assert_eq!(parse_note_line("[x]nospace"), (None, "[x]nospace".to_string()));
}

#[test]
fn later_duplicate_row_decides_state() {
    let old = vec![note("x", false), note("x", true)];
    let back = edited_note_items(&old, "x");
    assert_eq!(back.len(), 1);
    assert!(back[0].checked);
}

#[test]
fn note_edit_in_text_and_todo_modes() {
    let mut f = sample_fence();
    f.items_type = "Note".to_string();
    apply_note_edit(&mut f, "hello".to_string());
    assert_eq!(f.note_content.as_deref(), Some("hello"));
    assert_eq!(note_editor_initial_text(&f), "hello");
    apply_note_edit(&mut f, String::new());
    assert_eq!(f.note_content, None);
    f.note_mode = "todo".to_string();
    apply_note_edit(&mut f, "a\n[x] b".to_string());
    assert_eq!(f.note_items.len(), 2);
    assert!(f.note_items[1].checked);
    assert_eq!(note_editor_initial_text(&f), "a\n[x] b");
}

#[test]
fn note_mode_and_lock_toggle_back() {
    let mut f = sample_fence();
    f.note_content = Some("kept".to_string());
    toggle_note_mode(&mut f);
    assert_eq!(f.note_mode, "todo");
    toggle_note_mode(&mut f);
    assert_eq!(f.note_mode, "text");
    assert_eq!(f.note_content.as_deref(), Some("kept"));
    f.note_mode = "odd".to_string();
    toggle_note_mode(&mut f);
    assert_eq!(f.note_mode, "todo");
    toggle_lock(&mut f);
    assert_eq!(f.is_locked, "true");
    toggle_lock(&mut f);
    assert_eq!(f.is_locked, "false");
}

#[test]
fn toggling_a_row() {
    let mut f = sample_fence();
    f.note_items = vec![note("a", false), note("b", true)];
    toggle_note_row(&mut f, 1);
    assert!(!f.note_items[1].checked);
    assert!(!f.note_items[0].checked);
}

#[test]
fn roll_plans() {
    let p = plan_roll(false, None, 60);
    assert!(p.target_rolled && p.remember_height);
    assert_eq!(p.interval, Some(16));
    let q = plan_roll(true, None, 0);
    assert!(!q.target_rolled && !q.remember_height);
    assert_eq!(q.interval, None);
    // reversing a roll-up in flight must not record a half height
    let r = plan_roll(false, Some(true), 60);
    assert!(!r.target_rolled && !r.remember_height);
}

#[test]
fn context_menu_over_item_and_body() {
    let l = Locale::new();
    let f = sample_fence();
    let m = fence_context_menu(&l, &f, Some(2), None);
    assert_eq!(m.len(), 4);
    assert!(matches!(&m[0], MenuEntry::Item { id: 2010, label, .. } if label == "Open"));
    assert!(matches!(&m[2], MenuEntry::Separator));
    let body = fence_context_menu(&l, &f, None, Some(3));
    assert_eq!(body.len(), 6);
    assert!(matches!(&body[0], MenuEntry::Item { id: 2001, label, .. } if label == "Roll up"));
    assert!(matches!(&body[3], MenuEntry::Popup { label, .. } if label == "Customize"));
    assert!(matches!(&body[5], MenuEntry::Item { id: 2003, .. }));
}

#[test]
fn context_menu_of_a_note() {
    let l = Locale::new();
    let mut f = sample_fence();
    f.items_type = "Note".to_string();
    f.note_mode = "todo".to_string();
    f.is_rolled = "true".to_string();
    f.is_locked = "true".to_string();
    assert_eq!(context_target(&f, Some(1)), None);
    let m = fence_context_menu(&l, &f, None, None);
    assert_eq!(m.len(), 9);
    assert!(matches!(&m[0], MenuEntry::Item { id: 2020, .. }));
    assert!(matches!(&m[1], MenuEntry::Item { id: 2021, label, .. } if label == "note.switch_to_text"));
    assert!(matches!(&m[3], MenuEntry::Item { id: 2001, label, .. } if label == "Unroll"));
    assert!(matches!(&m[5], MenuEntry::Item { id: 2004, label, .. } if label == "Unlock"));
}

#[test]
fn decoding_fence_commands() {
    assert_eq!(decode_fence_command(2010, Some(1)), FenceCommand::OpenItem(1));
    assert_eq!(decode_fence_command(2010, None), FenceCommand::Nothing);
    assert_eq!(decode_fence_command(2011, Some(0)), FenceCommand::RemoveItem(0));
    assert_eq!(decode_fence_command(2001, None), FenceCommand::ToggleRoll);
    assert_eq!(decode_fence_command(2005, None), FenceCommand::PromptBlurRadius);
    assert_eq!(decode_fence_command(ID_CUSTOMIZE_BASE + 70, None), FenceCommand::Customize(70));
    assert_eq!(decode_fence_command(3000 + 14 * 64, None), FenceCommand::Nothing);
    assert_eq!(decode_fence_command(0, None), FenceCommand::Nothing);
}

#[test]
fn delete_heading() {
    let l = Locale::new();
    assert_eq!(delete_instruction(&l, ""), "Delete this fence?");
    assert_eq!(delete_instruction(&l, "Work"), "Delete the fence \u{201c}Work\u{201d}?");
}

#[test]
fn press_move_release() {
    let mut f = sample_fence();
    assert_eq!(press_outcome(&f, true, 5, 10, 32, None, Some(1)), PressOutcome::Rename);
    assert_eq!(
        press_outcome(&f, false, 5, 50, 32, Some(0), Some(1)),
        PressOutcome::Pressed(Press::Pending { idx: 1, x: 5, y: 50 })
    );
    f.items_type = "Note".to_string();
    f.note_mode = "todo".to_string();
    f.note_items = vec![note("a", false)];
    assert_eq!(press_outcome(&f, false, 5, 50, 32, Some(0), None), PressOutcome::ToggleRow(0));
    assert_eq!(press_outcome(&f, false, 5, 50, 32, Some(4), None), PressOutcome::Nothing);
    f.is_rolled = "true".to_string();
    assert_eq!(icon_hit(&f, Some(2)), None);

    let pending = Press::Pending { idx: 2, x: 100, y: 100 };
    assert_eq!(move_action(pending, 102, 101, false, false, Some(2), 4, 4), MoveAction::Nothing);
    assert_eq!(
        move_action(pending, 104, 100, false, false, Some(3), 4, 4),
        MoveAction::StartDrag { src: 2, target: Some(3) }
    );
    assert_eq!(
        move_action(pending, 101, 100, false, false, None, 0, 0),
        MoveAction::StartDrag { src: 2, target: None }
    );
    let dragging = Press::Dragging { src: 2 };
    assert_eq!(move_action(dragging, 1, 1, false, false, Some(0), 4, 4), MoveAction::Retarget(Some(0)));
    assert_eq!(move_action(dragging, -5, 1, true, false, None, 4, 4), MoveAction::HandOff(2));
    assert_eq!(move_action(dragging, -5, 1, true, true, None, 4, 4), MoveAction::Retarget(None));

    assert_eq!(release_action(pending, false, false, Some(2), 4), ReleaseAction::Launch(2));
    assert_eq!(release_action(pending, false, false, Some(1), 4), ReleaseAction::Nothing);
    assert_eq!(release_action(dragging, false, false, Some(0), 4), ReleaseAction::Reorder { src: 2, dst: 0 });
    assert_eq!(release_action(dragging, false, false, None, 4), ReleaseAction::Repaint);
    assert_eq!(release_action(dragging, true, true, None, 4), ReleaseAction::ReturnToDesktop(2));
    assert_eq!(release_action(Press::Idle, false, false, Some(1), 4), ReleaseAction::Nothing);
}

#[test]
fn finding_the_item_after_a_drag_out() {
    let f = sample_fence();
    assert_eq!(index_after_drag_out(&f.items, "c.txt", 0), Some(2));
    assert_eq!(index_after_drag_out(&f.items, "zzz", 1), Some(1));
    assert_eq!(index_after_drag_out(&f.items, "zzz", 9), None);
}

#[test]
fn title_double_clicks() {
    let mut raised = false;
    assert_eq!(title_double_click(true, &mut raised), TitleDoubleClick::ToggleRoll);
    assert!(!raised);
    assert_eq!(title_double_click(false, &mut raised), TitleDoubleClick::Raise);
    assert_eq!(title_double_click(false, &mut raised), TitleDoubleClick::Lower);
}

fn link_info() -> ShortcutInfo {
    ShortcutInfo {
        target: "C:\\Tools\\app.exe".to_string(),
        arguments: "--fast".to_string(),
        working_dir: "C:\\Tools".to_string(),
        icon_path: String::new(),
        icon_index: 0,
    }
}

#[test]
fn launching_plain_files_and_links() {
    let plain = item("C:\\docs\\a.txt", 0);
    assert!(!needs_shortcut_resolution(&plain));
    let c = launch_command(&plain, None, &[]).unwrap();
    assert_eq!(c.target, "C:\\docs\\a.txt");
    assert_eq!(c.args, "");
    assert_eq!(c.working_dir, "");

    let mut lnk = item("C:\\Desktop\\App.LNK", 0);
    assert!(needs_shortcut_resolution(&lnk));
    let c = launch_command(&lnk, Some(link_info()), &[]).unwrap();
    assert_eq!(c.target, "C:\\Tools\\app.exe");
    assert_eq!(c.args, "--fast");
    assert_eq!(c.working_dir, "C:\\Tools");
    lnk.arguments = Some("--slow".to_string());
    let c = launch_command(&lnk, Some(link_info()), &[]).unwrap();
    assert_eq!(c.args, "--slow");
    lnk.arguments = Some(String::new());
    let c = launch_command(&lnk, Some(link_info()), &[]).unwrap();
    assert_eq!(c.args, "--fast");
    // an unreadable link opens the file itself
    let c = launch_command(&lnk, None, &[]).unwrap();
    assert_eq!(c.target, "C:\\Desktop\\App.LNK");
}

#[test]
fn launching_with_dropped_files() {
    let plain = item("C:\\bin\\edit.exe", 0);
    let files = vec!["C:\\My Docs\\a.txt".to_string(), "b.txt".to_string()];
    let c = launch_command(&plain, None, &files).unwrap();
    assert_eq!(c.args, "\"C:\\My Docs\\a.txt\" \"b.txt\"");
    let mut with_args = item("C:\\bin\\edit.exe", 0);
    with_args.arguments = Some("-n".to_string());
    let c = launch_command(&with_args, None, &files[1..]).unwrap();
    assert_eq!(c.args, "-n \"b.txt\"");
    let empty = item("", 0);
    assert!(launch_command(&empty, None, &[]).is_none());
}

#[test]
fn explorer_arguments() {
    assert_eq!(explorer_select_arg("C:\\a b\\c.txt", None), "/select,\"C:\\a b\\c.txt\"");
    assert_eq!(
        explorer_select_arg("C:\\x\\App.lnk", Some("C:\\Tools\\app.exe".to_string())),
        "/select,\"C:\\Tools\\app.exe\""
    );
    assert_eq!(
        explorer_select_arg("C:\\x\\App.lnk", Some(String::new())),
        "/select,\"C:\\x\\App.lnk\""
    );
    assert_eq!(
        explorer_select_arg("C:\\x\\a.txt", Some("other".to_string())),
        "/select,\"C:\\x\\a.txt\""
    );
}

#[test]
fn desktop_item_lookup_retries() {
    assert_eq!(item_lookup_retry(0), LookupRetry::Retry { refresh: false });
    assert_eq!(item_lookup_retry(1), LookupRetry::Retry { refresh: true });
    assert_eq!(item_lookup_retry(2), LookupRetry::GiveUp);
    assert_eq!(item_lookup_retry(7), LookupRetry::GiveUp);
}
