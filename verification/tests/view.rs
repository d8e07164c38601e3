use mtp_tui::entries::{DeviceEntry, DeviceEntryKind, HostEntry};
use mtp_tui::state::{DeviceCache, DeviceState, InspectorData, InspectorProperty, LoadingState};
use mtp_tui::view::{
    centered_fixed, confirm_dialog_size, device_pane, device_row, host_pane_title, host_row,
    info_dialog_size, inspector_lines, inspector_window, loading_message, message_lines,
    spinner_frame, status_line, Area, DevicePaneBody, InspectorLine,
};

type State = DeviceState<(), ()>;

fn cache() -> DeviceCache {
    DeviceCache { name: "Kindle".to_string(), path: "/documents".to_string(), storage_info: Some((1024, 2048)) }
}

#[test]
fn centring() {
    let area = Area { x: 10, y: 5, width: 100, height: 40 };
    assert_eq!(centered_fixed(area, 50, 8), Area { x: 35, y: 21, width: 50, height: 8 });
    assert_eq!(centered_fixed(area, 200, 80), area);
}

#[test]
fn spinner_cycles() {
    assert_eq!(spinner_frame(0), '\u{280B}');
    assert_eq!(spinner_frame(9), '\u{280F}');
    assert_eq!(spinner_frame(10), spinner_frame(0));
    assert_eq!(spinner_frame(usize::MAX), spinner_frame(5));
}

#[test]
fn pane_titles_and_rows() {
    assert_eq!(host_pane_title("/home/me", true), "> Host /home/me ");
    assert_eq!(host_pane_title("/", false), " Host / ");
    let h = HostEntry { name: "notes.txt".to_string(), path: (), is_dir: false, size: Some(2048) };
    assert_eq!(host_row(&h), ("\u{1F4C4} notes.txt".to_string(), "  2.0 KB".to_string()));
    let d = DeviceEntry { id: "1".to_string(), name: "Books".to_string(), kind: DeviceEntryKind::Directory, size: None };
    assert_eq!(device_row(&d), ("\u{1F4C1} Books".to_string(), "  <DIR>".to_string()));
    let f = DeviceEntry { id: "2".to_string(), name: "a.pdf".to_string(), kind: DeviceEntryKind::File, size: Some(3) };
    assert_eq!(device_row(&f).0, "\u{1F4DA} a.pdf");
    assert!(status_line("Ready").ends_with("q quit    Ready"));
}

#[test]
fn device_pane_states() {
    let s: State = DeviceState::Disconnected { error: None };
    let v = device_pane(&s, true, false);
    assert_eq!(v.title, " Device (not connected) ");
    assert!(matches!(v.body, DevicePaneBody::Message(ref m) if m == "No MTP device found"));
    let s: State = DeviceState::Disconnected { error: Some("busy".to_string()) };
    assert!(matches!(device_pane(&s, true, true).body, DevicePaneBody::Message(ref m) if m == "busy"));

    let s: State = DeviceState::Connecting { rx: (), spinner_tick: 1 };
    let v = device_pane(&s, true, true);
    assert_eq!(v.title, "> Device (connecting\u{2026}) \u{2819} ");

    let s: State = DeviceState::Loading(Box::new(LoadingState {
        rx: (),
        progress: Some((3, 10)),
        spinner_tick: 0,
        cache: cache(),
        selected_name: None,
    }));
    let v = device_pane(&s, true, false);
    assert_eq!(v.title, " Kindle /documents \u{280B} ");
    assert_eq!(v.footer.as_deref(), Some(" 1.0 KB free / 2.0 KB "));
    assert!(matches!(v.body, DevicePaneBody::Message(ref m) if m == "Loading (3/10)\u{2026}"));
    assert!(matches!(device_pane(&s, false, false).body, DevicePaneBody::Entries));

    let s: State = DeviceState::Connected { backend: (), cache: cache() };
    let v = device_pane(&s, false, false);
    assert_eq!(v.title, " Kindle /documents ");
    assert!(matches!(v.body, DevicePaneBody::Entries));
    assert_eq!(loading_message(None), "Loading\u{2026}");
    assert_eq!(loading_message(Some((0, 0))), "Loading\u{2026}");
}

#[test]
fn dialog_sizes() {
    assert_eq!(confirm_dialog_size("Delete \"a\"?", 120), (60, 6));
    assert_eq!(confirm_dialog_size(&"x".repeat(59), 120), (60, 7));
    assert_eq!(confirm_dialog_size("", 120), (60, 5));
    assert_eq!(confirm_dialog_size("abc", 2), (2, 6));
    assert_eq!(info_dialog_size("one\n\ntwo", 120), (55, 8));
    assert_eq!(info_dialog_size(&"y".repeat(60), 30), (30, 8));
    assert_eq!(info_dialog_size("", 80), (55, 5));
}

#[test]
fn lines_split_like_str_lines() {
    for text in ["", "a", "a\n", "a\n\nb", "a\r\nb\r\n", "x\r", "\n", "\n\n", "é\ré\n"] {
        let expected: Vec<String> = text.lines().map(String::from).collect();
        assert_eq!(message_lines(text), expected, "text {text:?}");
    }
}

#[test]
fn inspector_text_lines() {
    let data = InspectorData {
        object_handle: "0x00000010".to_string(),
        filename: "a.txt".to_string(),
        format: "Text (0x3004)".to_string(),
        size: "3 B".to_string(),
        storage_id: "0x00010001".to_string(),
        parent_id: "0x00000000".to_string(),
        protection: "0x0000".to_string(),
        created: None,
        modified: Some("2024-01-02 03:04:05".to_string()),
        keywords: String::new(),
        image_dimensions: Some("10x20".to_string()),
        thumb_dimensions: None,
        properties: vec![
            InspectorProperty { code: 0xdc07, name: "ObjectFileName".to_string(), value: "a.txt".to_string(), is_error: false },
            InspectorProperty { code: 0xdc44, name: "Name".to_string(), value: "refused".to_string(), is_error: true },
        ],
        scroll_offset: 0,
    };
    let lines = inspector_lines(&data);
    assert_eq!(lines.len(), 11 + 1 + 3 + 2 + 2);
    assert!(matches!(lines[0], InspectorLine::Heading(ref h) if h == "--- ObjectInfo ---"));
    assert!(matches!(lines[9], InspectorLine::Field { ref label, ref value } if label == "  Created:     " && value == "(none)"));
    assert!(matches!(lines[11], InspectorLine::Field { ref label, ref value } if label == "  Image dims:  " && value == "10x20"));
    match &lines[15] {
        InspectorLine::Property { label, value, is_error } => {
            assert_eq!(label, &format!("  0x{:04X} {:<20} ", 0xdc07, "ObjectFileName"));
            assert_eq!(value, "a.txt");
            assert!(!is_error);
        }
        _ => panic!("expected a property line"),
    }
    assert!(matches!(lines[16], InspectorLine::Property { ref value, is_error: true, .. } if value == "ERR refused"));
    assert!(matches!(lines[18], InspectorLine::Hint(_)));
    assert_eq!(inspector_window(19, 10, 0), (0, 8));
    assert_eq!(inspector_window(19, 10, 100), (11, 8));
    assert_eq!(inspector_window(5, 10, 3), (0, 8));
    assert_eq!(inspector_window(5, 1, 3), (3, 0));
}
