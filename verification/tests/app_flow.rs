use mtp_tui::app::{run_transfer, transfer_ops, transfer_step, App, Command, HostReload, ListingEvent, TransferOp};
use mtp_tui::messages::{enter_step, navigate_to_device_dir, segment_step};
use mtp_tui::entries::{DeviceEntry, DeviceEntryKind, HostEntry};
use mtp_tui::state::{
    ActiveDialog, ConfirmAction, DeviceBackend, DeviceState, FocusPane, InspectorData, ListingMsg,
    TransferDirection, TransferKind, TransferMsg,
};
use mtp_tui::textinput::{Key, KeyCode};

#[derive(Debug, Clone, PartialEq)]
struct Mock {
    path: String,
    log: Vec<String>,
    fail: bool,
}

impl DeviceBackend for Mock {
    fn device_name(&self) -> &str {
        "Acme Phone"
    }
    fn current_path(&self) -> &str {
        &self.path
    }
    fn list_current_dir(&self) -> Result<Vec<DeviceEntry>, String> {
        Ok(vec![])
    }
    fn enter_dir(&mut self, entry_id: &str, name: &str) -> Result<(), String> {
        self.log.push(format!("enter {entry_id} {name}"));
        self.path = format!("/{name}");
        Ok(())
    }
    fn go_up(&mut self) -> Result<(), String> {
        self.log.push("up".to_string());
        self.path = "/".to_string();
        Ok(())
    }
    fn mkdir(&mut self, name: &str) -> Result<(), String> {
        self.log.push(format!("mkdir {name}"));
        if self.fail { Err("refused".to_string()) } else { Ok(()) }
    }
    fn delete(&mut self, entry_id: &str) -> Result<(), String> {
        self.log.push(format!("delete {entry_id}"));
        Ok(())
    }
    fn rename(&mut self, entry_id: &str, new_name: &str) -> Result<(), String> {
        self.log.push(format!("rename {entry_id} {new_name}"));
        Ok(())
    }
    fn storage_info(&self) -> Option<(u64, u64)> {
        Some((10, 100))
    }
    fn refresh_storage_info(&mut self) -> Option<(u64, u64)> {
        Some((10, 100))
    }
    fn inspect_object(&self, entry_id: &str) -> Result<InspectorData, String> {
        Err(format!("no inspector for {entry_id}"))
    }
}

type TestApp = App<Mock, (), String>;

fn key(code: KeyCode) -> Key {
    Key { code, control: false }
}

fn file(id: &str, name: &str) -> DeviceEntry {
    DeviceEntry { id: id.to_string(), name: name.to_string(), kind: DeviceEntryKind::File, size: Some(5) }
}

fn folder(id: &str, name: &str) -> DeviceEntry {
    DeviceEntry { id: id.to_string(), name: name.to_string(), kind: DeviceEntryKind::Directory, size: None }
}

fn host_file(name: &str) -> HostEntry<String> {
    HostEntry { name: name.to_string(), path: format!("/home/{name}"), is_dir: false, size: Some(3) }
}

fn mock() -> Mock {
    Mock { path: "/".to_string(), log: vec![], fail: false }
}

fn connected(entries: Vec<DeviceEntry>) -> TestApp {
    let mut app: TestApp = App::new("/home".to_string(), vec![host_file("a.txt"), host_file("b.txt")], true, None, ());
    let more = app.on_listing_event(ListingEvent::Message(ListingMsg::Done {
        backend: mock(),
        result: Ok(entries),
        storage_info: Some((1, 2)),
        warning: None,
    }));
    assert!(more);
    app
}

fn backend_log(app: &TestApp) -> Vec<String> {
    match &app.device_state {
        DeviceState::Connected { backend, .. } => backend.log.clone(),
        _ => panic!("not connected"),
    }
}

#[test]
fn starts_connecting_and_shows_host_warning() {
    let app: TestApp = App::new("/home".to_string(), vec![], false, Some("~/nope"), ());
    assert_eq!(app.status, "Connecting to device\u{2026}");
    assert_eq!(app.focus, FocusPane::Host);
    assert!(matches!(app.dialog, ActiveDialog::Info(ref d) if d.title == "Warning"
        && d.message == "Can't access default_host_dir = \"~/nope\"\n\nUsing current directory instead."));
    assert!(app.device_state.is_loading());
    let fine: TestApp = App::new("/home".to_string(), vec![], true, Some("~/docs"), ());
    assert!(matches!(fine.dialog, ActiveDialog::NoDialog));
    let unset: TestApp = App::new("/home".to_string(), vec![], false, None, ());
    assert!(matches!(unset.dialog, ActiveDialog::NoDialog));
}

#[test]
fn first_listing_connects() {
    let app = connected(vec![folder("1", "DCIM"), file("2", "x.jpg")]);
    assert_eq!(app.status, "Connected to Acme Phone");
    assert!(matches!(app.device_state, DeviceState::Connected { ref cache, .. } if cache.name == "Acme Phone" && cache.storage_info == Some((1, 2))));
    assert_eq!(app.device_pane.entries.len(), 2);
}

#[test]
fn listing_warning_waits_behind_open_dialog() {
    let mut app: TestApp = App::new("/home".to_string(), vec![], false, Some("host"), ());
    app.on_listing_event(ListingEvent::Message(ListingMsg::Done {
        backend: mock(),
        result: Ok(vec![]),
        storage_info: None,
        warning: Some("device".to_string()),
    }));
    assert!(matches!(app.dialog, ActiveDialog::Info(ref d) if d.message.contains("\"host\"")));
    app.handle_key(key(KeyCode::Enter));
    assert!(matches!(app.dialog, ActiveDialog::Info(ref d) if d.message == "device"));
    app.handle_key(key(KeyCode::Enter));
    assert!(matches!(app.dialog, ActiveDialog::NoDialog));
}

#[test]
fn listing_errors_and_crashes() {
    let mut app: TestApp = App::new("/home".to_string(), vec![], true, None, ());
    app.on_listing_event(ListingEvent::Message(ListingMsg::InitFailed("no usb".to_string())));
    assert_eq!(app.status, "No device connected");
    assert!(matches!(app.device_state, DeviceState::Disconnected { error: Some(ref e) } if e == "no usb"));
    let more = app.on_listing_event(ListingEvent::Disconnected);
    assert!(!more);
    assert_eq!(app.status, "Error: device listing thread crashed");
}

#[test]
fn crashed_listing_keeps_device_pane() {
    let mut app = connected(vec![folder("1", "DCIM"), file("2", "x.jpg")]);
    app.handle_key(key(KeyCode::Tab));
    app.handle_key(key(KeyCode::Down));
    let c = app.handle_key(key(KeyCode::Char('r')));
    assert!(matches!(c, Command::ReloadHost(HostReload::Refresh)));
    let c = app.host_reloaded(HostReload::Refresh, Ok(vec![]), "/home");
    let job = match c {
        Command::StartListing(j) => j,
        _ => panic!("expected a relisting"),
    };
    app.begin_loading((), job.cache, job.selected_name);
    let more = app.on_listing_event(ListingEvent::Disconnected);
    assert!(!more);
    assert_eq!(app.device_pane.entries.len(), 2);
    assert_eq!(app.device_pane.selected, 1);
    assert!(matches!(app.device_state, DeviceState::Disconnected { error: None }));
}

#[test]
fn quit_needs_confirmation() {
    let mut app = connected(vec![]);
    app.handle_key(key(KeyCode::Char('q')));
    assert!(matches!(app.dialog, ActiveDialog::Confirm(ref d) if matches!(d.on_confirm, ConfirmAction::Quit)));
    app.handle_key(key(KeyCode::Char('n')));
    assert_eq!(app.status, "Cancelled");
    assert!(!app.should_quit);
    app.handle_key(key(KeyCode::Char('q')));
    app.handle_key(key(KeyCode::Char('y')));
    assert!(app.should_quit);
}

#[test]
fn control_c_quits_at_once() {
    let mut app = connected(vec![]);
    app.handle_key(Key { code: KeyCode::Char('c'), control: true });
    assert!(app.should_quit);
}

#[test]
fn focus_and_selection_keys() {
    let mut app = connected(vec![file("1", "a"), file("2", "b")]);
    app.handle_key(key(KeyCode::Char('j')));
    assert_eq!(app.host.selected, 1);
    app.handle_key(key(KeyCode::Tab));
    assert_eq!(app.focus, FocusPane::Device);
    app.handle_key(key(KeyCode::Down));
    app.handle_key(key(KeyCode::Down));
    assert_eq!(app.device_pane.selected, 1);
    app.handle_key(key(KeyCode::Char('k')));
    assert_eq!(app.device_pane.selected, 0);
    app.handle_key(key(KeyCode::Char('?')));
    assert!(app.show_help);
    app.handle_key(key(KeyCode::Esc));
    assert!(!app.show_help);
}

#[test]
fn refresh_reloads_host_then_relists_device() {
    let mut app = connected(vec![file("1", "a")]);
    let c = app.handle_key(key(KeyCode::Char('r')));
    assert!(matches!(c, Command::ReloadHost(HostReload::Refresh)));
    let c = app.host_reloaded(HostReload::Refresh, Ok(vec![host_file("c.txt")]), "/home");
    assert_eq!(app.status, "Refreshed");
    assert!(matches!(c, Command::StartListing(ref j) if j.cache.name == "Acme Phone"));
    assert_eq!(app.host.entries.len(), 1);
}

#[test]
fn delete_asks_then_deletes_and_relists() {
    let mut app = connected(vec![file("7", "old.txt")]);
    app.handle_key(key(KeyCode::Tab));
    app.handle_key(key(KeyCode::Char('d')));
    assert!(matches!(app.dialog, ActiveDialog::Confirm(ref d) if matches!(d.on_confirm, ConfirmAction::Delete { ref entry_id, .. } if entry_id == "7")));
    let log_before = backend_log(&app);
    assert!(log_before.is_empty());
    let c = app.handle_key(key(KeyCode::Char('y')));
    assert_eq!(app.status, "Deleted old.txt");
    match c {
        Command::StartListing(j) => assert_eq!(j.backend.log, vec!["delete 7".to_string()]),
        _ => panic!("expected a relisting"),
    }
}

#[test]
fn mkdir_prompt_submits_trimmed_name() {
    let mut app = connected(vec![]);
    app.handle_key(key(KeyCode::Tab));
    app.handle_key(key(KeyCode::Char('m')));
    assert!(matches!(app.dialog, ActiveDialog::TextInput(_)));
    for ch in " New".chars() {
        app.handle_key(key(KeyCode::Char(ch)));
    }
    let c = app.handle_key(key(KeyCode::Enter));
    assert_eq!(app.status, "Created directory New");
    match c {
        Command::StartListing(j) => assert_eq!(j.backend.log, vec!["mkdir New".to_string()]),
        _ => panic!("expected a relisting"),
    }
}

#[test]
fn mkdir_failure_is_reported() {
    let mut app = connected(vec![]);
    if let DeviceState::Connected { backend, .. } = &mut app.device_state {
        backend.fail = true;
    }
    app.handle_key(key(KeyCode::Tab));
    app.handle_key(key(KeyCode::Char('m')));
    app.handle_key(key(KeyCode::Char('x')));
    let c = app.handle_key(key(KeyCode::Enter));
    assert!(matches!(c, Command::Nothing));
    assert_eq!(app.status, "Error: refused");
}

#[test]
fn blank_text_input_cancels() {
    let mut app = connected(vec![]);
    app.handle_key(key(KeyCode::Tab));
    app.handle_key(key(KeyCode::Char('m')));
    app.handle_key(key(KeyCode::Char(' ')));
    let c = app.handle_key(key(KeyCode::Enter));
    assert!(matches!(c, Command::Nothing));
    assert_eq!(app.status, "Cancelled");
    assert!(matches!(app.dialog, ActiveDialog::NoDialog));
}

#[test]
fn rename_prefills_name() {
    let mut app = connected(vec![file("9", "photo.jpg")]);
    app.handle_key(key(KeyCode::Tab));
    app.handle_key(key(KeyCode::Char('R')));
    match &app.dialog {
        ActiveDialog::TextInput(d) => {
            assert_eq!(d.input, "photo.jpg");
            assert_eq!(d.cursor_pos, "photo.jpg".len());
        }
        _ => panic!("expected the rename prompt"),
    }
    app.handle_key(key(KeyCode::Backspace));
    app.handle_key(key(KeyCode::Backspace));
    app.handle_key(key(KeyCode::Backspace));
    for ch in "png".chars() {
        app.handle_key(key(KeyCode::Char(ch)));
    }
    let c = app.handle_key(key(KeyCode::Enter));
    assert_eq!(app.status, "Renamed to photo.png");
    match c {
        Command::StartListing(j) => assert_eq!(j.backend.log, vec!["rename 9 photo.png".to_string()]),
        _ => panic!("expected a relisting"),
    }
}

#[test]
fn push_over_existing_file_confirms_and_deletes_first() {
    let mut app = connected(vec![file("5", "a.txt")]);
    let c = app.handle_key(key(KeyCode::Char('p')));
    assert!(matches!(c, Command::Nothing));
    assert!(matches!(app.dialog, ActiveDialog::Confirm(ref d) if matches!(d.on_confirm, ConfirmAction::OverwritePush { ref delete_id, .. } if delete_id == "5")));
    let c = app.handle_key(key(KeyCode::Char('y')));
    match c {
        Command::StartTransfer(j) => {
            assert_eq!(j.direction, TransferDirection::Pushing);
            assert!(matches!(j.kind, TransferKind::Push { ref delete_id, ref name, .. } if delete_id.as_deref() == Some("5") && name == "a.txt"));
        }
        _ => panic!("expected a transfer"),
    }
    assert!(matches!(app.device_state, DeviceState::Transferring { .. }));
    assert_eq!(app.status, "Pushing a.txt...");
}

#[test]
fn push_of_new_file_starts_at_once() {
    let mut app = connected(vec![file("5", "other.txt")]);
    let c = app.handle_key(key(KeyCode::Char('p')));
    assert!(matches!(c, Command::StartTransfer(ref j) if matches!(j.kind, TransferKind::Push { delete_id: None, .. })));
}

#[test]
fn transfer_done_returns_backend() {
    let mut app = connected(vec![file("5", "other.txt")]);
    let c = app.handle_key(key(KeyCode::Char('p')));
    let backend = match c {
        Command::StartTransfer(j) => j.backend,
        _ => panic!("expected a transfer"),
    };
    assert!(matches!(app.dialog, ActiveDialog::Transfer(ref d)
        if d.rx.is_none() && d.filename == "a.txt" && d.direction == TransferDirection::Pushing && d.spinner_tick == 0));
    app.begin_transfer(());
    assert!(matches!(app.dialog, ActiveDialog::Transfer(ref d) if d.rx.is_some()));
    let c = app.on_transfer_done(TransferMsg::Done { backend, result: Ok(()), storage_info: Some((3, 4)) });
    assert_eq!(app.status, "Pushed a.txt");
    assert!(matches!(c, Command::StartListing(ref j) if j.cache.storage_info == Some((3, 4))));
    assert!(matches!(app.dialog, ActiveDialog::NoDialog));
}

#[test]
fn pull_checks_target_then_confirms_overwrite() {
    let mut app = connected(vec![file("8", "song.mp3")]);
    app.handle_key(key(KeyCode::Tab));
    let c = app.handle_key(key(KeyCode::Char('g')));
    let (id, name) = match c {
        Command::CheckPullTarget { entry_id, filename } => (entry_id, filename),
        _ => panic!("expected a target check"),
    };
    assert_eq!((id.as_str(), name.as_str()), ("8", "song.mp3"));
    let c = app.pull_target_checked(id, name, true);
    assert!(matches!(c, Command::Nothing));
    assert!(matches!(app.dialog, ActiveDialog::Confirm(ref d) if matches!(d.on_confirm, ConfirmAction::OverwritePull { .. })));
    let c = app.handle_key(key(KeyCode::Enter));
    assert!(matches!(c, Command::StartTransfer(ref j) if j.direction == TransferDirection::Pulling && matches!(j.kind, TransferKind::Pull { ref entry_id, .. } if entry_id == "8")));
}

#[test]
fn entering_a_device_folder_relists() {
    let mut app = connected(vec![folder("3", "Music"), file("4", "x")]);
    app.handle_key(key(KeyCode::Tab));
    let c = app.handle_key(key(KeyCode::Enter));
    match c {
        Command::StartListing(j) => {
            assert_eq!(j.backend.log, vec!["enter 3 Music".to_string()]);
            assert_eq!(j.cache.path, "/Music");
        }
        _ => panic!("expected a relisting"),
    }
}

#[test]
fn busy_device_pane_ignores_pane_keys() {
    let mut app: TestApp = App::new("/home".to_string(), vec![], true, None, ());
    app.handle_key(key(KeyCode::Tab));
    let c = app.handle_key(key(KeyCode::Char('d')));
    assert!(matches!(c, Command::Nothing));
    assert!(matches!(app.dialog, ActiveDialog::NoDialog));
    app.handle_key(key(KeyCode::Char('q')));
    assert!(matches!(app.dialog, ActiveDialog::Confirm(_)));
}

#[test]
fn inspector_failure_is_reported() {
    let mut app = connected(vec![file("4", "x")]);
    app.handle_key(key(KeyCode::Tab));
    app.handle_key(key(KeyCode::Char('i')));
    assert_eq!(app.status, "Error: no inspector for 4");
}

#[test]
fn overwrite_push_deletes_before_upload() {
    let ops = transfer_ops(TransferKind::Push {
        source: "/h/a.txt".to_string(),
        name: "a.txt".to_string(),
        delete_id: Some("5".to_string()),
    });
    assert_eq!(ops, vec![TransferOp::Delete("5".to_string()), TransferOp::Upload("/h/a.txt".to_string())]);
    let ops = transfer_ops(TransferKind::Push { source: "/h/b".to_string(), name: "b".to_string(), delete_id: None });
    assert_eq!(ops, vec![TransferOp::Upload("/h/b".to_string())]);
    let ops = transfer_ops(TransferKind::Pull {
        entry_id: "8".to_string(),
        filename: "s.mp3".to_string(),
        target_dir: "/h".to_string(),
    });
    assert_eq!(
        ops,
        vec![TransferOp::Download { entry_id: "8".to_string(), filename: "s.mp3".to_string(), target_dir: "/h".to_string() }]
    );
}

/// A backend with a fixed folder tree that implements only what it must.
struct Tree {
    path: Vec<String>,
    unlistable: bool,
}

impl DeviceBackend for Tree {
    fn device_name(&self) -> &str {
        "Tree"
    }
    fn current_path(&self) -> &str {
        "/"
    }
    fn list_current_dir(&self) -> Result<Vec<DeviceEntry>, String> {
        if self.unlistable {
            return Err("listing refused".to_string());
        }
        let joined = self.path.join("/");
        match joined.as_str() {
            "" => Ok(vec![file("1", "Download"), folder("2", "Download"), folder("3", "DCIM")]),
            "Download" => Ok(vec![folder("4", "Books")]),
            _ => Ok(vec![]),
        }
    }
    fn enter_dir(&mut self, _entry_id: &str, name: &str) -> Result<(), String> {
        self.path.push(name.to_string());
        Ok(())
    }
    fn go_up(&mut self) -> Result<(), String> {
        self.path.pop();
        Ok(())
    }
    fn storage_info(&self) -> Option<(u64, u64)> {
        None
    }
    fn refresh_storage_info(&mut self) -> Option<(u64, u64)> {
        None
    }
    fn inspect_object(&self, entry_id: &str) -> Result<InspectorData, String> {
        Err(format!("no inspector for {entry_id}"))
    }
}

#[test]
fn unimplemented_operations_report_their_name() {
    let mut t = Tree { path: vec![], unlistable: false };
    assert_eq!(t.pull_file("1", "a.txt", "/tmp"), Err("pull_file is not implemented yet".to_string()));
    assert_eq!(t.push_file("/tmp/a.txt"), Err("push_file is not implemented yet".to_string()));
    assert_eq!(t.mkdir("New"), Err("mkdir is not implemented yet".to_string()));
    assert_eq!(t.delete("1"), Err("delete is not implemented yet".to_string()));
    assert_eq!(t.rename("1", "b.txt"), Err("rename is not implemented yet".to_string()));
    assert!(t.path.is_empty());
}

#[test]
fn navigation_enters_every_segment() {
    let mut t = Tree { path: vec![], unlistable: false };
    assert_eq!(navigate_to_device_dir(&mut t, "/Download/Books/").0, None);
    assert_eq!(t.path, vec!["Download".to_string(), "Books".to_string()]);
}

#[test]
fn navigation_reports_deepest_folder_reached() {
    let mut t = Tree { path: vec![], unlistable: false };
    let w = navigate_to_device_dir(&mut t, "/Download/Music").0;
    assert_eq!(
        w,
        Some("Can't access default_device_dir = \"/Download/Music\"\n\nOpened \"/Download\" instead.".to_string())
    );
    assert_eq!(t.path, vec!["Download".to_string()]);
}

#[test]
fn navigation_stops_when_listing_fails() {
    let mut t = Tree { path: vec![], unlistable: true };
    let w = navigate_to_device_dir(&mut t, "Download").0;
    assert_eq!(w, Some("Can't access default_device_dir = \"Download\"\n\nOpened \"/\" instead.".to_string()));
    assert_eq!(navigate_to_device_dir(&mut t, "//").0, None);
}

#[test]
fn segment_step_picks_first_matching_folder() {
    let segments = vec!["Download".to_string(), "Books".to_string()];
    let listing: Result<Vec<DeviceEntry>, String> =
        Ok(vec![file("1", "Download"), folder("2", "Download"), folder("3", "Download")]);
    assert_eq!(segment_step("/Download/Books", &segments, 0, &listing), Ok(1));
    let inner: Result<Vec<DeviceEntry>, String> = Ok(vec![folder("5", "Music")]);
    assert_eq!(
        segment_step("/Download/Books", &segments, 1, &inner),
        Err("Can't access default_device_dir = \"/Download/Books\"\n\nOpened \"/Download\" instead.".to_string())
    );
    let failed: Result<Vec<DeviceEntry>, String> = Err("gone".to_string());
    assert_eq!(
        segment_step("/Download/Books", &segments, 0, &failed),
        Err("Can't access default_device_dir = \"/Download/Books\"\n\nOpened \"/\" instead.".to_string())
    );
}

#[test]
fn pane_keys_move_and_ignore_plain_c() {
    let mut app = connected(vec![file("1", "a"), file("2", "b"), file("3", "c")]);
    app.handle_key(key(KeyCode::Tab));
    app.handle_key(key(KeyCode::Char('j')));
    app.handle_key(key(KeyCode::Down));
    assert_eq!(app.device_pane.selected, 2);
    app.handle_key(key(KeyCode::Down));
    assert_eq!(app.device_pane.selected, 2);
    app.handle_key(key(KeyCode::Char('k')));
    assert_eq!(app.device_pane.selected, 1);
    let c = app.handle_key(key(KeyCode::Char('c')));
    assert!(matches!(c, Command::Nothing));
    assert!(!app.should_quit);
    app.handle_key(Key { code: KeyCode::Char('c'), control: true });
    assert!(app.should_quit);
}

#[test]
fn host_selection_kept_by_name_after_pull() {
    let mut app = connected(vec![]);
    app.handle_key(key(KeyCode::Down));
    assert_eq!(app.host.selected, 1);
    let c = app.host_reloaded(HostReload::AfterPull, Ok(vec![host_file("0.txt"), host_file("a.txt"), host_file("b.txt")]), "/home");
    assert!(matches!(c, Command::Nothing));
    assert_eq!(app.host.selected, 2);
}

#[test]
fn going_up_on_host_reselects_the_folder_left() {
    let mut app: TestApp = App::new(
        "/home".to_string(),
        vec![host_file("a.txt"), HostEntry { name: "docs".to_string(), path: "/home/docs".to_string(), is_dir: true, size: None }],
        true,
        None,
        (),
    );
    app.handle_key(key(KeyCode::Down));
    let c = app.handle_key(key(KeyCode::Enter));
    assert!(matches!(c, Command::ReloadHost(HostReload::EnterDir)));
    app.host_reloaded(HostReload::EnterDir, Ok(vec![host_file("inner.txt")]), "/home/docs");
    assert_eq!(app.host.selected, 0);
    app.host_went_up(
        "/home".to_string(),
        Ok(vec![host_file("0.txt"), host_file("a.txt"), HostEntry { name: "docs".to_string(), path: "/home/docs".to_string(), is_dir: true, size: None }]),
        "/home",
    );
    assert_eq!(app.host.selected, 2);
    assert_eq!(app.status, "Host: /home");
}

#[test]
fn transfer_stops_at_first_failure() {
    let mut m = mock();
    let r = run_transfer(&mut m, TransferKind::Push { source: "/h/a.txt".to_string(), name: "a.txt".to_string(), delete_id: Some("5".to_string()) }).0;
    assert_eq!(r, Err("push_file is not implemented yet".to_string()));
    assert_eq!(m.log, vec!["delete 5".to_string()]);
    let mut t = Tree { path: vec![], unlistable: false };
    let r = run_transfer(&mut t, TransferKind::Push { source: "/h/a.txt".to_string(), name: "a.txt".to_string(), delete_id: Some("5".to_string()) }).0;
    assert_eq!(r, Err("delete is not implemented yet".to_string()));
    assert_eq!(transfer_step(Ok(()), 0, 2), None);
    assert_eq!(transfer_step(Ok(()), 1, 2), Some(Ok(())));
    assert_eq!(transfer_step(Err("x".to_string()), 0, 2), Some(Err("x".to_string())));
}

#[test]
fn overwrite_targets_first_file_of_that_name() {
    let mut app = connected(vec![folder("4", "a.txt"), file("5", "a.txt"), file("6", "a.txt")]);
    let c = app.handle_key(key(KeyCode::Char('p')));
    assert!(matches!(c, Command::Nothing));
    assert!(matches!(app.dialog, ActiveDialog::Confirm(ref d)
        if matches!(d.on_confirm, ConfirmAction::OverwritePush { ref delete_id, .. } if delete_id == "5")));
}

#[test]
fn entering_and_leaving_device_folders_names_the_path() {
    let mut app = connected(vec![folder("9", "DCIM"), file("2", "x.jpg")]);
    app.handle_key(key(KeyCode::Tab));
    let c = app.handle_key(key(KeyCode::Enter));
    assert_eq!(app.status, "Device: /DCIM");
    let job = match c {
        Command::StartListing(j) => j,
        _ => panic!("expected a relisting"),
    };
    assert_eq!(job.cache.path, "/DCIM");
    assert!(job.selected_name.is_none());
    assert_eq!(job.backend.log, vec!["enter 9 DCIM".to_string()]);
    app.begin_loading((), job.cache, job.selected_name);
    app.on_listing_event(ListingEvent::Message(ListingMsg::Done {
        backend: job.backend,
        result: Ok(vec![]),
        storage_info: None,
        warning: None,
    }));
    let c = app.handle_key(key(KeyCode::Left));
    assert_eq!(app.status, "Device: /");
    assert!(matches!(c, Command::StartListing(ref j) if j.selected_name.as_deref() == Some("DCIM")));
}

#[test]
fn enter_step_stops_on_refusal() {
    let segments = vec!["Download".to_string(), "Books".to_string()];
    assert_eq!(enter_step("/Download/Books", &segments, 0, &Ok(())), None);
    assert_eq!(
        enter_step("/Download/Books", &segments, 1, &Err("busy".to_string())),
        Some("Can't access default_device_dir = \"/Download/Books\"\n\nOpened \"/Download\" instead.".to_string())
    );
}
