use deskgate::dragdrop::{
    drag_out_result, dropped_item, place_drop, query_continue_drag, record_drop, DragDecision,
    DragOutResult, DropPlacement,
};
use deskgate::fence::FenceItem;
use deskgate::icon::{icon_plan, resolve_icon_source, IconIndex, ICON_CACHE_CAPACITY};
use deskgate::shortcut::{parse_i32, parse_url_shortcut, wide_to_string, ShortcutInfo};
use deskgate::storage::{
    attrs_update, candidate_name, fence_storage, is_in_place_desktop_item, is_inside_storage,
    items_root, managed_hidden_attrs, migration_step, path_key, paths_equal, record_migration,
    restore_plan, visibility_event, MigrationStep, Restore, ShellEvent,
};
use deskgate::storage::{name_search_step, stamped_name_of, NameSearch, NAME_ATTEMPTS};

fn item(name: &str) -> FenceItem {
    FenceItem {
        filename: name.to_string(),
        display_name: String::new(),
        is_folder: false,
        is_link: false,
        display_order: 0,
        arguments: None,
        original_path: None,
    }
}

#[test]
fn integers_like_std() {
    for s in ["0", "-0", "+17", "-2147483648", "2147483647", "2147483648", "", "-", "+", "1a", " 1", "007"] {
        assert_eq!(parse_i32(s), s.parse::<i32>().ok(), "{s}");
    }
}

#[test]
fn internet_shortcuts() {
    let text = "[InternetShortcut]\r\nURL=https://example.com/\r\nIconFile=C:\\icons\\a.ico\r\nIconIndex=3\r\n";
    let info = parse_url_shortcut(text).unwrap();
    assert_eq!(info.target, "https://example.com/");
    assert_eq!(info.icon_path, "C:\\icons\\a.ico");
    assert_eq!(info.icon_index, 3);
    assert_eq!(info.arguments, "");
    let later = parse_url_shortcut("URL=a\nURL=b\nIconIndex=x\nWorkingDirectory=C:\\w").unwrap();
    assert_eq!(later.target, "b");
    assert_eq!(later.icon_index, 0);
    assert_eq!(later.working_dir, "C:\\w");
    assert!(parse_url_shortcut("[InternetShortcut]\nIconIndex=2").is_none());
}

#[test]
fn wide_buffers() {
    let mut buf: Vec<u16> = "hello".encode_utf16().collect();
    buf.push(0);
    buf.extend("junk".encode_utf16());
    assert_eq!(wide_to_string(&buf), "hello");
    let no_zero: Vec<u16> = "ab".encode_utf16().collect();
    assert_eq!(wide_to_string(&no_zero), "ab");
    assert_eq!(wide_to_string(&[0xd800, 0]), "\u{fffd}");
}

#[test]
fn path_keys_and_storage() {
    assert_eq!(path_key("\\\\?\\C:\\Users\\Me\\Desktop"), "c:\\users\\me\\desktop");
    assert!(paths_equal("C:\\A\\b.txt", "\\\\?\\c:\\a\\B.TXT"));
    assert!(!paths_equal("C:\\A\\b.txt", "C:\\A\\c.txt"));
    assert!(is_in_place_desktop_item("C:\\D\\x", Some("c:\\d\\X")));
    assert!(!is_in_place_desktop_item("C:\\D\\x", None));
    assert!(is_inside_storage("C:\\P\\items", "c:\\p\\items\\f1\\a.txt"));
    assert!(!is_inside_storage("C:\\P\\items", "C:\\P\\items"));
    assert!(!is_inside_storage("C:\\P\\items", "C:\\P\\itemsX\\a"));
    assert_eq!(items_root("/p"), "/p/items");
    assert_eq!(fence_storage("/p", "abc"), "/p/items/abc");
}

#[test]
fn hidden_attributes() {
    assert_eq!(managed_hidden_attrs(0x20, true), 0x26);
    assert_eq!(managed_hidden_attrs(0x27, false), 0x21);
    assert_eq!(attrs_update(0x26, true), None);
    assert_eq!(attrs_update(0x20, true), Some(0x26));
    assert_eq!(visibility_event(true, true), ShellEvent::RemovedDirectory);
    assert_eq!(visibility_event(false, false), ShellEvent::Created);
}

#[test]
fn colliding_names() {
    assert_eq!(candidate_name("report.txt", 0), "report.txt");
    assert_eq!(candidate_name("report.txt", 1), "report (1).txt");
    assert_eq!(candidate_name("archive.tar.gz", 12), "archive.tar (12).gz");
    assert_eq!(candidate_name("Folder", 3), "Folder (3)");
    assert_eq!(name_search_step(0, false), NameSearch::Use);
    assert_eq!(name_search_step(0, true), NameSearch::Next(1));
    assert_eq!(name_search_step(NAME_ATTEMPTS - 1, true), NameSearch::Fallback);
    assert_eq!(stamped_name_of("report.txt", 1234), "report-1234.txt");
    assert_eq!(stamped_name_of("Folder", 5), "Folder-5");
    assert_eq!(stamped_name_of("", 7), "-7");
}

#[test]
fn putting_items_back() {
    assert_eq!(restore_plan(true, &Some("C:\\x".to_string())), Restore::Unhide);
    assert_eq!(restore_plan(false, &Some("C:\\x".to_string())), Restore::MoveBack("C:\\x".to_string()));
    assert_eq!(restore_plan(false, &None), Restore::Keep);
    let mut it = item("C:\\store\\Games");
    assert_eq!(migration_step(&it, true, false, true), MigrationStep::Skip);
    it.original_path = Some("C:\\Desktop\\Games".to_string());
    assert_eq!(migration_step(&it, false, false, true), MigrationStep::Skip);
    assert_eq!(migration_step(&it, true, true, true), MigrationStep::HideInPlace);
    assert_eq!(migration_step(&it, true, false, false), MigrationStep::Skip);
    assert_eq!(migration_step(&it, true, false, true), MigrationStep::MoveBack);
    assert!(record_migration(&mut it, MigrationStep::MoveBack));
    assert_eq!(it.filename, "C:\\Desktop\\Games");
    assert!(it.is_folder);
}

#[test]
fn placing_dropped_files() {
    let root = "C:\\P\\items";
    let own = "C:\\P\\items\\f1";
    let files = vec!["C:\\docs\\seen.txt".to_string()];
    let originals = vec![Some("C:\\Desktop\\orig.txt".to_string())];
    let others = vec![("C:\\P\\items\\f2\\x.txt".to_string(), Some("C:\\Desktop\\x.txt".to_string()))];
    let p = |path: &str, parent: Option<&str>, desk: bool| {
        place_drop(path, parent, root, own, desk, &files, &originals, &others)
    };
    assert_eq!(p("C:\\P\\items\\f1\\a.txt", Some("c:\\p\\items\\F1"), false), DropPlacement::SameFence);
    assert_eq!(p("c:\\DOCS\\seen.txt", Some("C:\\docs"), false), DropPlacement::Duplicate);
    assert_eq!(p("C:\\Desktop\\orig.txt", Some("C:\\Desktop"), true), DropPlacement::Duplicate);
    assert_eq!(
        p("C:\\P\\items\\f2\\x.txt", Some("C:\\P\\items\\f2"), false),
        DropPlacement::FromOtherFence { original_path: Some("C:\\Desktop\\x.txt".to_string()) }
    );
    assert_eq!(p("C:\\Desktop\\new.lnk", Some("C:\\Desktop"), true), DropPlacement::FromDesktop);
    assert_eq!(p("D:\\new.txt", Some("D:\\"), false), DropPlacement::InPlace);
}

#[test]
fn recording_dropped_files() {
    let mut items = vec![item("a")];
    assert!(record_drop(
        &mut items,
        DropPlacement::FromDesktop,
        "C:\\Desktop\\Tool.LNK".to_string(),
        Some("/p/items/f1/Tool.LNK".to_string()),
        false,
    ));
    let it = &items[1];
    assert_eq!(it.filename, "/p/items/f1/Tool.LNK");
    assert_eq!(it.original_path.as_deref(), Some("C:\\Desktop\\Tool.LNK"));
    assert_eq!(it.display_name, "Tool");
    assert!(it.is_link);
    assert_eq!(it.display_order, 1);
    assert!(record_drop(&mut items, DropPlacement::FromDesktop, "C:\\Desktop\\d".to_string(), None, true));
    assert_eq!(items[2].filename, "C:\\Desktop\\d");
    assert!(items[2].original_path.is_none());
    assert!(items[2].is_folder);
    assert!(!record_drop(
        &mut items,
        DropPlacement::FromOtherFence { original_path: None },
        "x".to_string(),
        None,
        false,
    ));
    assert!(!record_drop(&mut items, DropPlacement::Duplicate, "y".to_string(), None, false));
    assert_eq!(items.len(), 3);
    let web = dropped_item("site.url".to_string(), false, None, 0);
    assert!(web.is_link);
}

#[test]
fn dragging_out() {
    assert_eq!(query_continue_drag(true, 1), DragDecision::Cancel);
    assert_eq!(query_continue_drag(false, 0), DragDecision::Drop);
    assert_eq!(query_continue_drag(false, 0x9), DragDecision::Continue);
    assert_eq!(drag_out_result(false, false, 1), DragOutResult::Cancelled);
    assert_eq!(drag_out_result(true, false, 1), DragOutResult::Moved);
    assert_eq!(drag_out_result(true, true, 1), DragOutResult::Copied);
    assert_eq!(drag_out_result(true, true, 2), DragOutResult::Cancelled);
}

#[test]
fn icon_sources_and_plans() {
    let info = ShortcutInfo {
        target: "C:\\app.exe".to_string(),
        arguments: String::new(),
        working_dir: String::new(),
        icon_path: "C:\\i.ico".to_string(),
        icon_index: 2,
    };
    assert_eq!(resolve_icon_source("x.lnk", Some(info)), ("C:\\i.ico".to_string(), 2));
    let no_icon = ShortcutInfo {
        target: "C:\\app.exe".to_string(),
        arguments: String::new(),
        working_dir: String::new(),
        icon_path: String::new(),
        icon_index: 5,
    };
    assert_eq!(resolve_icon_source("x.lnk", Some(no_icon)), ("C:\\app.exe".to_string(), 0));
    assert_eq!(resolve_icon_source("a.txt", None), ("a.txt".to_string(), 0));
    let p = icon_plan("C:\\APP.EXE", 48);
    assert!(p.try_image_factory && p.embedded && p.large);
    let q = icon_plan("a.txt", 16);
    assert!(!q.try_image_factory && !q.embedded && !q.large);
}

#[test]
fn icon_cache_is_least_recently_used() {
    let mut c = IconIndex::new();
    assert_eq!(c.lookup("a", 32), None);
    let a = c.store("a", 32);
    assert_eq!(a, 0);
    assert_eq!(c.lookup("a", 32), Some(0));
    assert_eq!(c.lookup("a", 16), None);
    // storing a key that is cached keeps its slot
    assert_eq!(c.store("a", 32), 0);
    assert_eq!(c.len(), 1);
    for i in 1..ICON_CACHE_CAPACITY {
        let name = format!("f{i}");
        assert_eq!(c.lookup(&name, 32), None);
        assert_eq!(c.store(&name, 32), i);
    }
    assert_eq!(c.len(), ICON_CACHE_CAPACITY);
    // "a" was used recently; "f1" is now the oldest
    assert_eq!(c.lookup("a", 32), Some(0));
    assert_eq!(c.lookup("new", 32), None);
    assert_eq!(c.store("new", 32), 1);
    assert_eq!(c.len(), ICON_CACHE_CAPACITY);
    assert_eq!(c.lookup("f1", 32), None);
    assert_eq!(c.lookup("new", 32), Some(1));
    c.invalidate();
    assert_eq!(c.len(), 0);
}
