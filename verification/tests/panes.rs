use mtp_tui::config::{config_path, expand_tilde, join_path, Config};
use mtp_tui::entries::{entry_from_object, parse_handle, DeviceEntry, DeviceEntryKind, DevicePath, HostEntry, ParseFault};
use mtp_tui::messages::{find_directory, split_path, truncate_middle};
use mtp_tui::pane::PaneState;
use mtp_tui::sort::{lex_less, sort_device_entries, sort_host_entries};
use mtp_tui::textinput::{input_window_of, trim_text, Key, KeyCode, TextInputAction, TextInputDialog, TextInputResult};

fn dev(name: &str, dir: bool) -> DeviceEntry {
    DeviceEntry {
        id: "1".to_string(),
        name: name.to_string(),
        kind: if dir { DeviceEntryKind::Directory } else { DeviceEntryKind::File },
        size: if dir { None } else { Some(10) },
    }
}

fn host(name: &str, dir: bool) -> HostEntry<String> {
    HostEntry { name: name.to_string(), path: format!("/h/{name}"), is_dir: dir, size: None }
}

fn names(v: &[DeviceEntry]) -> Vec<&str> {
    v.iter().map(|e| e.name.as_str()).collect()
}

#[test]
fn device_sort_puts_folders_first_then_names_case_insensitively() {
    let mut v = vec![dev("b.txt", false), dev("Zeta", true), dev("A.txt", false), dev("alpha", true)];
    sort_device_entries(&mut v);
    assert_eq!(names(&v), vec!["alpha", "Zeta", "A.txt", "b.txt"]);
}

#[test]
fn device_sort_is_stable_for_equal_names() {
    let mut a = dev("Same", false);
    a.id = "first".to_string();
    let mut b = dev("same", false);
    b.id = "second".to_string();
    let mut v = vec![a, dev("other", true), b];
    sort_device_entries(&mut v);
    assert_eq!(v[0].name, "other");
    assert_eq!(v[1].id, "first");
    assert_eq!(v[2].id, "second");
}

#[test]
fn sorting_a_sorted_list_changes_nothing() {
    let mut v = vec![dev("x", true), dev("a", false), dev("B", false), dev("c", false)];
    sort_device_entries(&mut v);
    let once = names(&v).iter().map(|s| s.to_string()).collect::<Vec<_>>();
    sort_device_entries(&mut v);
    assert_eq!(names(&v), once);
}

#[test]
fn host_sort_matches_device_sort() {
    let mut v = vec![host("readme", false), host("src", true), host("Cargo.toml", false), host(".git", true)];
    sort_host_entries(&mut v);
    let got: Vec<&str> = v.iter().map(|e| e.name.as_str()).collect();
    assert_eq!(got, vec![".git", "src", "Cargo.toml", "readme"]);
}

#[test]
fn pane_selection_moves_within_bounds() {
    let mut p = PaneState::new(vec![dev("a", false), dev("b", false), dev("c", false)]);
    assert_eq!(p.selected, 0);
    p.select_prev();
    assert_eq!(p.selected, 0);
    p.select_next();
    p.select_next();
    p.select_next();
    assert_eq!(p.selected, 2);
    assert_eq!(p.selected().unwrap().name, "c");
    p.update_entries(vec![dev("c", false), dev("d", false)]);
    assert_eq!(p.selected, 0, "the selection follows the selected name");
    p.update_entries(vec![dev("x", false)]);
    assert_eq!(p.selected, 0);
    p.update_entries(vec![]);
    assert!(p.selected().is_none());
}

#[test]
fn pane_cursor_stack_restores_names() {
    let mut p = PaneState::new(vec![dev("a", true), dev("b", true)]);
    p.select_next();
    p.push_cursor("b".to_string());
    p.update_entries(vec![dev("inner", false)]);
    assert_eq!(p.pop_cursor_name(), Some("b".to_string()));
    assert_eq!(p.pop_cursor_name(), None);
    p.push_cursor("b".to_string());
    p.update_entries(vec![dev("a", true), dev("b", true)]);
    p.pop_cursor();
    assert_eq!(p.selected, 1);
    p.restore_selection_by_name(Some("a"));
    assert_eq!(p.selected, 0);
    p.restore_selection_by_name(Some("missing"));
    assert_eq!(p.selected, 0);
}

#[test]
fn device_path_enter_and_go_up() {
    let mut p = DevicePath::new();
    assert_eq!(p.current_path(), "/");
    assert_eq!(p.current_handle(), None);
    assert_eq!(p.enter("17", "DCIM"), Ok(()));
    assert_eq!(p.current_path(), "/DCIM");
    assert_eq!(p.current_handle(), Some(17));
    assert_eq!(p.enter("42", "Camera"), Ok(()));
    assert_eq!(p.current_path(), "/DCIM/Camera");
    p.go_up();
    assert_eq!(p.current_path(), "/DCIM");
    p.go_up();
    p.go_up();
    assert_eq!(p.current_path(), "/");
    assert_eq!(p.enter("x1", "Bad"), Err(ParseFault::InvalidDigit));
    assert_eq!(p.current_path(), "/");
}

#[test]
fn handle_parsing() {
    assert_eq!(parse_handle("0"), Ok(0));
    assert_eq!(parse_handle("4294967295"), Ok(u32::MAX));
    assert_eq!(parse_handle("4294967296"), Err(ParseFault::Overflow));
    assert_eq!(parse_handle(""), Err(ParseFault::Empty));
    assert_eq!(parse_handle("12a"), Err(ParseFault::InvalidDigit));
    let e = entry_from_object(42, "f.txt".to_string(), false, 9);
    assert_eq!(e.id, "42");
    assert_eq!(e.kind, DeviceEntryKind::File);
    assert_eq!(e.size, Some(9));
    let d = entry_from_object(7, "dir".to_string(), true, 4096);
    assert_eq!(d.size, None);
}

#[test]
fn path_splitting_and_lookup() {
    assert_eq!(split_path("/Download//Books/"), vec!["Download".to_string(), "Books".to_string()]);
    assert!(split_path("/").is_empty());
    let v = vec![dev("Books", false), dev("Books", true)];
    assert_eq!(find_directory(&v, "Books"), Some(1));
    assert_eq!(find_directory(&v, "Music"), None);
}

#[test]
fn middle_truncation() {
    assert_eq!(truncate_middle("short", 10), "short");
    assert_eq!(truncate_middle("abcdefghij", 5), "ab\u{2026}ij");
    assert_eq!(truncate_middle("abcdefghij", 4), "ab\u{2026}j");
    assert_eq!(truncate_middle("abcdefghij", 1), "\u{2026}");
    assert_eq!(truncate_middle("abc", 0), "");
}

#[test]
fn config_paths() {
    assert_eq!(config_path(Some("/xdg"), Some("/home/u")), Some("/xdg/mtp-tui/config.toml".to_string()));
    assert_eq!(config_path(Some("rel"), Some("/home/u")), Some("/home/u/.config/mtp-tui/config.toml".to_string()));
    assert_eq!(config_path(None, Some("/home/u/")), Some("/home/u/.config/mtp-tui/config.toml".to_string()));
    assert_eq!(config_path(None, None), None);
    assert_eq!(join_path("/a", "/b"), "/b");
    assert_eq!(join_path("", "b"), "b");
    assert_eq!(expand_tilde("~/x", None), "~/x");
    assert_eq!(expand_tilde("~user/x", Some("/h")), "~user/x");
    assert_eq!(expand_tilde("~/", Some("/h")), "/h/");
    let c = Config { default_host_dir: None, default_device_dir: Some("/Download".to_string()) };
    assert_eq!(c.device_dir(), Some("/Download"));
    assert_eq!(Config::default().device_dir(), None);
    let tmp = Config { default_host_dir: Some("/".to_string()), default_device_dir: None };
    assert_eq!(tmp.host_dir(None, |p: &str| std::path::Path::new(p).is_dir()), Some("/".to_string()));
}

fn key(code: KeyCode) -> Key {
    Key { code, control: false }
}

#[test]
fn text_input_editing() {
    let mut d = TextInputDialog {
        title: "t".to_string(),
        prompt: "p".to_string(),
        input: String::new(),
        cursor_pos: 0,
        on_submit: TextInputAction::Mkdir,
    };
    for c in "héllo".chars() {
        assert_eq!(d.handle_key(key(KeyCode::Char(c))), TextInputResult::Consumed);
    }
    assert_eq!(d.input, "héllo");
    assert_eq!(d.cursor_pos, "héllo".len());
    d.handle_key(key(KeyCode::Left));
    d.handle_key(key(KeyCode::Left));
    d.handle_key(key(KeyCode::Left));
    d.handle_key(key(KeyCode::Left));
    d.handle_key(key(KeyCode::Delete));
    assert_eq!(d.input, "hllo");
    d.handle_key(key(KeyCode::Char('e')));
    assert_eq!(d.input, "hello");
    // Typing then Backspace gives the text back.
    d.handle_key(key(KeyCode::Char('X')));
    d.handle_key(key(KeyCode::Backspace));
    assert_eq!(d.input, "hello");
    assert_eq!(d.cursor_pos, 2);
    d.handle_key(key(KeyCode::Home));
    assert_eq!(d.cursor_pos, 0);
    d.handle_key(key(KeyCode::Backspace));
    assert_eq!(d.input, "hello");
    d.handle_key(key(KeyCode::End));
    assert_eq!(d.cursor_pos, 5);
    d.handle_key(key(KeyCode::Char(' ')));
    assert_eq!(d.handle_key(key(KeyCode::Enter)), TextInputResult::Submit("hello".to_string()));
    assert_eq!(d.handle_key(key(KeyCode::Esc)), TextInputResult::Cancel);
    let mut blank = TextInputDialog {
        title: String::new(),
        prompt: String::new(),
        input: " \t ".to_string(),
        cursor_pos: 0,
        on_submit: TextInputAction::Mkdir,
    };
    assert_eq!(blank.handle_key(key(KeyCode::Enter)), TextInputResult::Cancel);
}

#[test]
fn text_input_window() {
    let w = input_window_of("abcdef", 6, 4);
    assert_eq!(w.before, "def");
    assert_eq!(w.cursor, None);
    assert_eq!(w.after, "");
    let w = input_window_of("abcdef", 1, 4);
    assert_eq!(w.before, "a");
    assert_eq!(w.cursor, Some('b'));
    assert_eq!(w.after, "cd");
}

#[test]
fn trim_removes_unicode_white_space_at_both_ends() {
    assert_eq!(trim_text("  \t new folder \u{3000}\n"), "new folder");
    assert_eq!(trim_text("\u{2003}\u{a0}"), "");
    assert_eq!(trim_text("a b"), "a b");
    assert_eq!(trim_text(""), "");
}

#[test]
fn cursor_off_a_boundary_only_moves_home_or_end() {
    let mut d = TextInputDialog {
        title: "Rename".to_string(),
        prompt: "to:".to_string(),
        input: "aé".to_string(),
        cursor_pos: 2,
        on_submit: TextInputAction::Mkdir,
    };
    assert_eq!(d.handle_key(Key { code: KeyCode::Up, control: false }), TextInputResult::Consumed);
    assert_eq!(d.cursor_pos, 2);
    assert_eq!(d.handle_key(Key { code: KeyCode::End, control: false }), TextInputResult::Consumed);
    assert_eq!(d.cursor_pos, 3);
    d.cursor_pos = 2;
    assert_eq!(d.handle_key(Key { code: KeyCode::Home, control: false }), TextInputResult::Consumed);
    assert_eq!(d.cursor_pos, 0);
    d.cursor_pos = 7;
    assert_eq!(d.handle_key(Key { code: KeyCode::Delete, control: false }), TextInputResult::Consumed);
    assert_eq!(d.handle_key(Key { code: KeyCode::Right, control: false }), TextInputResult::Consumed);
    assert_eq!(d.input, "aé");
    assert_eq!(d.cursor_pos, 7);
}

#[test]
fn lower_cased_names_compare_by_code_point() {
    let v = |s: &str| s.chars().collect::<Vec<char>>();
    assert!(lex_less(&v("alpha"), &v("beta")));
    assert!(!lex_less(&v("beta"), &v("alpha")));
    assert!(lex_less(&v("ab"), &v("abc")));
    assert!(!lex_less(&v("abc"), &v("abc")));
    assert!(lex_less(&v("z"), &v("é")));
}
