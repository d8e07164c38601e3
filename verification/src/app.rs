//! The file manager's state machine: key handling, dialogs, and the
//! bookkeeping around device listings and transfers that run elsewhere.
//! Work that needs the file system or a worker thread is handed back to the
//! caller as a [`Command`]; the caller reports the outcome through the
//! matching method.
use vstd::prelude::*;
use crate::entries::{DeviceEntry, DeviceEntryKind, HostEntry};
use crate::pane::{clamped, reselected, valid_selection, Named, PaneState};
use crate::state::{
    direction_label, next_tick, owned, ActiveDialog, ConfirmAction, ConfirmDialog, DeviceBackend,
    DeviceCache, DeviceState, FocusPane, InfoDialog, InspectorData, ListingMsg, LoadingState,
    entered_dir, went_up, reports_path, reports_name, renamed, made_dir, deleted, pushed, pulled, inspected, reports_storage,
    TransferDialog, TransferDirection, TransferKind, TransferMsg,
};
use crate::text::push_str;
use crate::textinput::{
    at_boundary, byte_len, byte_len_of, char_index, edited_input, lemma_offset_full, moved_cursor,
    offset_of, trimmed, Key, KeyCode, TextInputAction, TextInputDialog, TextInputResult,
};
use crate::messages::{host_dir_warning, host_dir_warning_text, truncate_middle, truncated_middle};

verus! {

/// Longest file name shown in a dialog before it is shortened.
pub const DIALOG_FILENAME_MAX: usize = 40;

/// Which host folder must be read again, and why.
#[derive(Debug, Clone, Copy, PartialEq, Eq, Structural)]
pub enum HostReload {
    /// Both panes are refreshed.
    Refresh,
    /// The selected folder was entered.
    EnterDir,
    /// Going to the parent folder.
    GoUp,
    /// A file was pulled into the current folder.
    AfterPull,
}

/// A device listing to run on a worker: the backend moves to the worker.
pub struct ListingJob<B> {
    pub backend: B,
    pub cache: DeviceCache,
    pub selected_name: Option<String>,
}

/// A transfer to run on a worker: the backend moves to the worker.
pub struct TransferJob<B, P> {
    pub backend: B,
    pub kind: TransferKind<P>,
    pub filename: String,
    pub direction: TransferDirection,
}

/// One device operation of a transfer.
#[derive(Debug, PartialEq, Eq)]
pub enum TransferOp<P> {
    /// Delete the device object with this id.
    Delete(String),
    /// Upload the host file into the current device folder.
    Upload(P),
    /// Download a device object into a host folder.
    Download { entry_id: String, filename: String, target_dir: P },
}

/// The device operations of a transfer, in order: an overwriting push
/// deletes the old object, then uploads; a plain push uploads; a pull
/// downloads.
pub open spec fn transfer_plan<P>(kind: TransferKind<P>) -> Seq<TransferOp<P>> {
    match kind {
        TransferKind::Push { source, delete_id: Some(id), .. } => seq![
            TransferOp::Delete(id),
            TransferOp::Upload(source),
        ],
        TransferKind::Push { source, delete_id: None, .. } => seq![TransferOp::Upload(source)],
        TransferKind::Pull { entry_id, filename, target_dir } => seq![
            TransferOp::Download { entry_id, filename, target_dir },
        ],
    }
}

/// The device operations a transfer performs, in order; the worker stops at
/// the first that fails. An overwriting push deletes the old object before
/// uploading the new one, so a failed upload leaves neither.
pub fn transfer_ops<P>(kind: TransferKind<P>) -> (ops: Vec<TransferOp<P>>)
    ensures
        ops@ == transfer_plan(kind),
{
    let mut ops: Vec<TransferOp<P>> = Vec::new();
    match kind {
        TransferKind::Push { source, delete_id, .. } => {
            match delete_id {
                Some(id) => ops.push(TransferOp::Delete(id)),
                None => {},
            }
            ops.push(TransferOp::Upload(source));
        },
        TransferKind::Pull { entry_id, filename, target_dir } => {
            ops.push(TransferOp::Download { entry_id, filename, target_dir });
        },
    }
    ops
}

/// The outcome of running `plan` when the operations tried answered as `log`
/// says (each with its operation): they ran in the plan's order, every one but
/// the last succeeded, none ran after a failure, and the result is the first
/// failure, or `Ok` when every operation succeeded.
pub open spec fn transfer_outcome<P>(
    plan: Seq<TransferOp<P>>,
    log: Seq<(TransferOp<P>, Result<(), String>)>,
    r: Result<(), String>,
) -> bool {
    &&& 1 <= log.len() <= plan.len()
    &&& forall|k: int| 0 <= k < log.len() ==> #[trigger] log[k].0 == plan[k]
    &&& forall|k: int| 0 <= k < log.len() - 1 ==> #[trigger] log[k].1 is Ok
    &&& log.len() < plan.len() ==> log.last().1 is Err
    &&& r == log.last().1
}

/// The backend call behind operation `op`, made on `st`, that answered `answer`:
/// `delete`, `push_file` or `pull_file` with the operation's own arguments.
pub open spec fn op_call<B: DeviceBackend>(st: B, op: TransferOp<String>, answer: Result<(), String>) -> bool {
    match op {
        TransferOp::Delete(id) => deleted(st, id@, answer),
        TransferOp::Upload(source) => pushed(st, source@, answer),
        TransferOp::Download { entry_id, filename, target_dir } => pulled(
            st,
            entry_id@,
            filename@,
            target_dir@,
            answer,
        ),
    }
}

/// Each logged operation was run by its backend call on `states[k]`.
pub open spec fn transfer_calls<B: DeviceBackend>(
    log: Seq<(TransferOp<String>, Result<(), String>)>,
    states: Seq<B>,
) -> bool {
    &&& states.len() == log.len()
    &&& forall|k: int| 0 <= k < log.len() ==> #[trigger] op_call(states[k], log[k].0, log[k].1)
}

/// Runs a transfer on the device: its operations (see [`transfer_ops`]) in
/// order, stopping at the first that fails (see [`transfer_step`]), so an
/// overwriting push uploads only after the old object was deleted. The result
/// is that failure, or `Ok` when every operation succeeded; the second result
/// records each operation run with the backend's answer, each run by the
/// backend call with that operation's arguments.
pub fn run_transfer<B: DeviceBackend>(
    backend: &mut B,
    kind: TransferKind<String>,
) -> (out: (Result<(), String>, Ghost<Seq<(TransferOp<String>, Result<(), String>)>>))
    ensures
        transfer_outcome(transfer_plan(kind), out.1@, out.0),
        exists|states: Seq<B>| #[trigger] transfer_calls(out.1@, states),
{
    let ops = transfer_ops(kind);
    let ghost plan = ops@;
    assert(plan.len() >= 1);
    let ghost mut log: Seq<(TransferOp<String>, Result<(), String>)> = Seq::empty();
    let ghost mut states: Seq<B> = Seq::empty();
    let mut i: usize = 0;
    while i < ops.len()
        invariant
            i <= ops@.len(),
            ops@ == plan,
            plan == transfer_plan(kind),
            plan.len() >= 1,
            log.len() == i,
            forall|k: int| 0 <= k < log.len() ==> #[trigger] log[k].0 == plan[k],
            forall|k: int| 0 <= k < log.len() ==> #[trigger] log[k].1 is Ok,
            i < ops@.len(),
            transfer_calls(log, states),
        decreases ops@.len() - i,
    {
        let ghost st = *backend;
        let answer = match &ops[i] {
            TransferOp::Delete(id) => {
                let r = backend.delete(id.as_str());
                proof {
                    assert(deleted(st, id@, r));
                }
                r
            },
            TransferOp::Upload(source) => {
                let r = backend.push_file(source.as_str());
                proof {
                    assert(pushed(st, source@, r));
                }
                r
            },
            TransferOp::Download { entry_id, filename, target_dir } => {
                let r = backend.pull_file(entry_id.as_str(), filename.as_str(), target_dir.as_str());
                proof {
                    assert(pulled(st, entry_id@, filename@, target_dir@, r));
                }
                r
            },
        };
        let ghost a = answer;
        proof {
            assert(op_call(st, plan[i as int], a));
            let prev = log;
            let prev_states = states;
            log = log.push((plan[i as int], a));
            states = states.push(st);
            assert(log.drop_last() == prev);
            assert(log.last().1 == a);
            assert forall|k: int| 0 <= k < log.len() implies #[trigger] op_call(states[k], log[k].0, log[k].1) by {
                if k < log.len() - 1 {
                    assert(log[k] == prev[k]);
                    assert(states[k] == prev_states[k]);
                }
            }
        }
        match transfer_step(answer, i, ops.len()) {
            Some(r) => {
                proof {
                    assert forall|k: int| 0 <= k < log.len() - 1 implies #[trigger] log[k].1 is Ok by {
                        assert(log[k] == log.drop_last()[k]);
                    }
                    assert forall|k: int| 0 <= k < log.len() implies #[trigger] log[k].0 == plan[k] by {
                        if k < log.len() - 1 {
                            assert(log[k] == log.drop_last()[k]);
                        }
                    }
                    assert(r == log.last().1);
                    assert(log.len() < plan.len() ==> log.last().1 is Err);
                    assert(transfer_calls(log, states));
                }
                return (r, Ghost(log));
            },
            None => {
                proof {
                    assert(a is Ok);
                }
            },
        }
        i = i + 1;
    }
    (Ok(()), Ghost(log))
}

/// What a transfer does once operation `i` of `n` answered `answer`: stop
/// with the failure, stop with success after the last operation, or go on
/// (`None`).
pub fn transfer_step(answer: Result<(), String>, i: usize, n: usize) -> (r: Option<Result<(), String>>)
    requires
        i < n,
    ensures
        answer is Err ==> r == Some(answer),
        answer is Ok && i + 1 < n ==> r is None,
        answer is Ok && i + 1 == n ==> r == Some(answer),
{
    if answer.is_err() || i + 1 >= n {
        Some(answer)
    } else {
        None
    }
}

/// The transfer dialog as a transfer starts: no worker channel yet.
pub open spec fn transfer_dialog<C, P>(filename: String, direction: TransferDirection) -> ActiveDialog<C, P> {
    ActiveDialog::Transfer(TransferDialog { rx: None, filename, direction, spinner_tick: 0 })
}

/// Work the caller must do after a call.
pub enum Command<B, P> {
    /// Nothing to do.
    Nothing,
    /// Start a listing worker, then call [`App::begin_loading`].
    StartListing(ListingJob<B>),
    /// Start a transfer worker, then hand its channel to [`App::begin_transfer`].
    StartTransfer(TransferJob<B, P>),
    /// Read the host folder again and report it.
    ReloadHost(HostReload),
    /// Check whether `filename` exists in the host folder, then call
    /// [`App::pull_target_checked`].
    CheckPullTarget { entry_id: String, filename: String },
}

/// Event from a listing worker's channel.
pub enum ListingEvent<B> {
    Message(ListingMsg<B>),
    /// The worker is gone without a final message.
    Disconnected,
}

/// The application state; `B` is the device backend, `C` a worker channel,
/// `P` a host path.
pub struct App<B, C, P> {
    pub host_cwd: P,
    pub host: PaneState<HostEntry<P>>,
    pub device_pane: PaneState<DeviceEntry>,
    pub focus: FocusPane,
    pub device_state: DeviceState<B, C>,
    pub status: String,
    pub show_help: bool,
    pub dialog: ActiveDialog<C, P>,
    pub pending_warning: Option<InfoDialog>,
    pub should_quit: bool,
}

/// "Error: " followed by the message.
pub open spec fn error_text(e: Seq<char>) -> Seq<char> {
    "Error: "@ + e
}

/// Builds "Error: {e}".
pub fn error_status(e: &str) -> (s: String)
    ensures
        s@ == error_text(e@),
{
    let mut s = String::new();
    push_str(&mut s, "Error: ");
    push_str(&mut s, e);
    s
}

/// `prefix` followed by `rest`.
pub fn joined(prefix: &str, rest: &str) -> (s: String)
    ensures
        s@ == prefix@ + rest@,
{
    let mut s = String::new();
    push_str(&mut s, prefix);
    push_str(&mut s, rest);
    s
}

/// The name a loading pane wants reselected, if any.
pub open spec fn loading_selection<B, C>(s: DeviceState<B, C>) -> Option<Seq<char>> {
    match s {
        DeviceState::Loading(st) => match st.selected_name {
            Some(n) => Some(n@),
            None => None,
        },
        _ => None,
    }
}

/// The effect of a finished listing on the application.
pub open spec fn listing_done<B: DeviceBackend, C, P>(
    a: App<B, C, P>,
    z: App<B, C, P>,
    backend: B,
    result: Result<Vec<DeviceEntry>, String>,
    storage_info: Option<(u64, u64)>,
    warning: Option<String>,
) -> bool {
    let connecting = a.device_state is Connecting;
    &&& z.device_state is Connected
    &&& z.device_state->backend == backend
    &&& z.device_state->Connected_cache.storage_info == storage_info
    &&& reports_name(backend, z.device_state->Connected_cache.name@)
    &&& reports_path(backend, z.device_state->Connected_cache.path@)
    &&& match result {
        Ok(entries) => {
            &&& z.device_pane.entries_view() == entries@
            &&& z.device_pane.selection() == crate::pane::reselected(
                entries@,
                a.device_pane.selection(),
                loading_selection(a.device_state),
            )
            &&& connecting ==> z.status@ == "Connected to "@ + z.device_state->Connected_cache.name@
            &&& !connecting ==> z.status == a.status
        },
        Err(e) => {
            &&& z.device_pane == a.device_pane
            &&& z.status@ == error_text(e@)
        },
    }
    &&& if connecting && warning is Some {
        if a.dialog is NoDialog {
            &&& (z.dialog matches ActiveDialog::Info(d) && d.title@ == "Warning"@ && d.message == warning->Some_0)
            &&& z.pending_warning == a.pending_warning
        } else {
            &&& z.dialog == a.dialog
            &&& (z.pending_warning matches Some(d) && d.title@ == "Warning"@ && d.message == warning->Some_0)
        }
    } else {
        &&& z.dialog == a.dialog
        &&& z.pending_warning == a.pending_warning
    }
}

/// The effect of one listing worker event; `more` says whether to read on.
pub open spec fn listing_event_effect<B: DeviceBackend, C, P>(a: App<B, C, P>, z: App<B, C, P>, event: ListingEvent<B>, more: bool) -> bool {
    match event {
        ListingEvent::Disconnected => {
            &&& !more
            &&& z.device_state == (DeviceState::<B, C>::Disconnected { error: None })
            &&& z.status@ == "Error: device listing thread crashed"@
            &&& z.dialog == a.dialog
            &&& z.device_pane == a.device_pane
        },
        ListingEvent::Message(ListingMsg::Progress { fetched, total }) => {
            &&& more
            &&& z.status == a.status
            &&& z.dialog == a.dialog
            &&& z.device_pane == a.device_pane
            &&& match a.device_state {
                DeviceState::Loading(st) => z.device_state == DeviceState::<B, C>::Loading(
                    Box::new(LoadingState { progress: Some((fetched, total)), ..*st }),
                ),
                _ => z.device_state == a.device_state,
            }
        },
        ListingEvent::Message(ListingMsg::InitFailed(m)) => {
            &&& more
            &&& z.device_state == (DeviceState::<B, C>::Disconnected { error: Some(m) })
            &&& z.status@ == "No device connected"@
            &&& z.dialog == a.dialog
            &&& z.device_pane == a.device_pane
        },
        ListingEvent::Message(ListingMsg::Done { backend, result, storage_info, warning }) => {
            &&& more
            &&& listing_done(a, z, backend, result, storage_info, warning)
        },
    }
}

/// The effect of a finished transfer.
pub open spec fn transfer_done_effect<B, C, P>(a: App<B, C, P>, z: App<B, C, P>, msg: TransferMsg<B>, c: Command<B, P>) -> bool {
    let TransferMsg::Done { backend, result, storage_info } = msg;
    match a.dialog {
        ActiveDialog::Transfer(d) => match a.device_state {
            DeviceState::Transferring { cache } => {
                let pull = d.direction == TransferDirection::Pulling;
                &&& z.dialog is NoDialog
                &&& (result is Ok && !pull) ==> z.device_state == (DeviceState::<B, C>::Disconnected { error: None })
                &&& (!(result is Ok) || pull) ==> z.device_state == (DeviceState::<B, C>::Connected {
                    backend,
                    cache: DeviceCache { storage_info, ..cache },
                })
                &&& match result {
                    Ok(_) => {
                        &&& z.status@ == (if pull { "Pulled "@ } else { "Pushed "@ }) + d.filename@
                        &&& pull ==> c == Command::<B, P>::ReloadHost(HostReload::AfterPull)
                        &&& !pull ==> (c matches Command::StartListing(j) && j.backend == backend
                            && j.cache == (DeviceCache { storage_info, ..cache }))
                    },
                    Err(e) => z.status@ == error_text(e@) && c is Nothing,
                }
            },
            _ => {
                &&& z.device_state == a.device_state
                &&& z.dialog is NoDialog
                &&& z.status@ == "Error: unexpected state after transfer"@
                &&& c is Nothing
            },
        },
        _ => z == a && c is Nothing,
    }
}

/// The selection after `pane` shows `entries`: the first entry named like
/// the selected one, else the old position clamped.
pub open spec fn selection_by_name<T: Named>(pane: PaneState<T>, entries: Seq<T>) -> nat {
    reselected(
        entries,
        pane.selection(),
        if pane.selection() < pane.entries_view().len() {
            Some(pane.entries_view()[pane.selection() as int].name_view())
        } else {
            None
        },
    )
}

/// The effect of reading the host folder again.
pub open spec fn host_reload_effect<B, C, P>(
    a: App<B, C, P>,
    z: App<B, C, P>,
    reason: HostReload,
    result: Result<Vec<HostEntry<P>>, String>,
    display: Seq<char>,
    c: Command<B, P>,
) -> bool {
    match result {
        Ok(entries) => {
            &&& z.host.entries_view() == entries@
            &&& z.host.cursor_stack() == a.host.cursor_stack()
            &&& match reason {
                HostReload::Refresh | HostReload::AfterPull => {
                    &&& z.host.selection() == selection_by_name(a.host, entries@)
                    &&& reason == HostReload::Refresh ==> {
                        &&& z.status@ == "Refreshed"@
                        &&& match a.device_state {
                            DeviceState::Connected { backend, cache } => (c matches Command::StartListing(j)
                                && j.backend == backend && j.cache == cache)
                                && z.device_state == (DeviceState::<B, C>::Disconnected { error: None }),
                            _ => c is Nothing && z.device_state == a.device_state,
                        }
                    }
                    &&& reason == HostReload::AfterPull ==> z.status == a.status && c is Nothing
                        && z.device_state == a.device_state
                },
                HostReload::EnterDir => {
                    &&& z.host.selection() == 0
                    &&& z.status@ == "Host: "@ + display
                    &&& c is Nothing && z.device_state == a.device_state
                },
                _ => z.status == a.status && c is Nothing && z.device_state == a.device_state,
            }
        },
        Err(e) => {
            &&& z.host == a.host
            &&& z.device_state == a.device_state
            &&& c is Nothing
            &&& (reason == HostReload::AfterPull ==> z.status == a.status)
            &&& (reason != HostReload::AfterPull ==> z.status@ == error_text(e@))
        },
    }
}

/// The effect of a key on the panes (no dialog open, device pane not busy
/// or not focused).
pub open spec fn normal_key_effect<B: DeviceBackend, C, P: Clone>(a: App<B, C, P>, z: App<B, C, P>, key: Key, c: Command<B, P>) -> bool {
    match key.code {
        KeyCode::Char('q') => c is Nothing && (z.dialog matches ActiveDialog::Confirm(d) && d.on_confirm is Quit),
        KeyCode::Tab => c is Nothing && z.focus != a.focus && z.dialog == a.dialog,
        KeyCode::Char('?') => c is Nothing && z.show_help == !a.show_help,
        KeyCode::Char('r') => c == Command::<B, P>::ReloadHost(HostReload::Refresh) && z == a,
        KeyCode::Char('c') => c is Nothing && if key.control {
            z == (App { should_quit: true, ..a })
        } else {
            z == a
        },
        KeyCode::Esc => c is Nothing && if a.show_help {
            z == (App { show_help: false, ..a })
        } else {
            z == a
        },
        KeyCode::Up | KeyCode::Char('k') => c is Nothing && move_up_effect(a, z),
        KeyCode::Down | KeyCode::Char('j') => c is Nothing && move_down_effect(a, z),
        KeyCode::Enter | KeyCode::Right | KeyCode::Char('l') => enter_selected_effect(a, z, c),
        KeyCode::Backspace | KeyCode::Left | KeyCode::Char('h') => go_up_effect(a, z, c),
        KeyCode::Char('p') => copy_host_to_device_effect(a, z, c),
        KeyCode::Char('g') => copy_device_to_host_effect(a, z, c),
        KeyCode::Char('d') => c is Nothing && delete_selected_effect(a, z),
        KeyCode::Char('m') => c is Nothing && mkdir_prompt_effect(a, z),
        KeyCode::Char('R') => c is Nothing && rename_prompt_effect(a, z),
        KeyCode::Char('i') => c is Nothing && open_inspector_effect(a, z),
        _ => c is Nothing && z == a,
    }
}

/// Moving the selection of the focused pane up.
pub open spec fn move_up_effect<B, C, P>(a: App<B, C, P>, z: App<B, C, P>) -> bool {
    &&& z.focus == a.focus
    &&& z.dialog == a.dialog
    &&& a.focus == FocusPane::Host ==> z.device_pane == a.device_pane
        && z.host.entries_view() == a.host.entries_view()
        && z.host.selection() == (if a.host.selection() == 0 { 0 } else { a.host.selection() - 1 })
    &&& a.focus == FocusPane::Device ==> z.host == a.host
        && z.device_pane.entries_view() == a.device_pane.entries_view()
        && z.device_pane.selection() == (if a.device_pane.selection() == 0 { 0 } else { a.device_pane.selection() - 1 })
}

/// Moving the selection of the focused pane down.
pub open spec fn move_down_effect<B, C, P>(a: App<B, C, P>, z: App<B, C, P>) -> bool {
    &&& z.focus == a.focus
    &&& z.dialog == a.dialog
    &&& a.focus == FocusPane::Host ==> z.device_pane == a.device_pane
        && z.host.entries_view() == a.host.entries_view()
        && z.host.selection() == (if a.host.selection() + 1 < a.host.entries_view().len() {
            a.host.selection() + 1
        } else {
            a.host.selection()
        })
    &&& a.focus == FocusPane::Device ==> z.host == a.host
        && z.device_pane.entries_view() == a.device_pane.entries_view()
        && z.device_pane.selection() == (if a.device_pane.selection() + 1 < a.device_pane.entries_view().len() {
            a.device_pane.selection() + 1
        } else {
            a.device_pane.selection()
        })
}

/// Opening the rename dialog for the selected device entry.
pub open spec fn rename_prompt_effect<B, C, P>(a: App<B, C, P>, z: App<B, C, P>) -> bool {
    &&& z.device_state == a.device_state
    &&& z.device_pane == a.device_pane
    &&& z.host == a.host
    &&& a.focus != FocusPane::Device ==> z.dialog == a.dialog && z.status == a.status
    &&& a.focus == FocusPane::Device && !(a.device_state is Connected) ==> z.dialog
        == a.dialog && z.status@ == "No device connected"@
    &&& a.focus == FocusPane::Device && a.device_state is Connected
        && a.device_pane.selection() < a.device_pane.entries_view().len() ==> ({
        let e = a.device_pane.entries_view()[a.device_pane.selection() as int];
        &&& z.dialog matches ActiveDialog::TextInput(d)
        &&& d.title@ == "Rename"@
        &&& d.prompt@ == "Rename \""@ + truncated_middle(e.name@, DIALOG_FILENAME_MAX as nat) + "\" to:"@
        &&& d.input == e.name
        &&& d.cursor_pos == byte_len(e.name@)
        &&& d.on_submit == (TextInputAction::Rename { entry_id: e.id })
    })
}

/// Opening the dialog that asks for a new folder's name.
pub open spec fn mkdir_prompt_effect<B, C, P>(a: App<B, C, P>, z: App<B, C, P>) -> bool {
    &&& z.device_state == a.device_state
    &&& z.device_pane == a.device_pane
    &&& z.host == a.host
    &&& a.focus != FocusPane::Device ==> z.dialog == a.dialog && z.status == a.status
    &&& a.focus == FocusPane::Device && !(a.device_state is Connected) ==> z.dialog
        == a.dialog && z.status@ == "No device connected"@
    &&& a.focus == FocusPane::Device && a.device_state is Connected ==> (z.dialog matches ActiveDialog::TextInput(d)
        && d.title@ == "Create Directory"@ && d.prompt@ == "Directory name:"@ && d.input@.len() == 0
        && d.cursor_pos == 0 && d.on_submit is Mkdir)
}

/// Asking whether to delete the selected device entry.
pub open spec fn delete_selected_effect<B, C, P>(a: App<B, C, P>, z: App<B, C, P>) -> bool {
    &&& z.device_state == a.device_state
    &&& z.device_pane == a.device_pane
    &&& z.host == a.host
    &&& a.focus != FocusPane::Device ==> z.dialog == a.dialog && z.status == a.status
    &&& a.focus == FocusPane::Device && !(a.device_state is Connected) ==> z.dialog
        == a.dialog && z.status@ == "No device connected"@
    &&& a.focus == FocusPane::Device && a.device_state is Connected
        && a.device_pane.selection() < a.device_pane.entries_view().len() ==> ({
        let e = a.device_pane.entries_view()[a.device_pane.selection() as int];
        let kind = if e.kind == DeviceEntryKind::Directory { "directory"@ } else { "file"@ };
        &&& z.dialog matches ActiveDialog::Confirm(d)
        &&& d.title@ == "Delete?"@
        &&& d.message@ == "Delete "@ + kind + " \""@ + truncated_middle(e.name@, DIALOG_FILENAME_MAX as nat) + "\"?"@
        &&& d.on_confirm == (ConfirmAction::<P>::Delete { entry_id: e.id, name: e.name })
    })
}

/// Opening the inspector on the selected device entry.
pub open spec fn open_inspector_effect<B: DeviceBackend, C, P>(a: App<B, C, P>, z: App<B, C, P>) -> bool {
    &&& z.device_state == a.device_state
    &&& z.device_pane == a.device_pane
    &&& z.host == a.host
    &&& a.focus != FocusPane::Device ==> (z.dialog matches ActiveDialog::Info(d)
        && d.title@ == "Inspector"@
        && d.message@ == "Inspector is only available for device files (MTP objects).\nSwitch to the device pane with Tab first."@)
    &&& a.focus == FocusPane::Device && !(a.device_state is Connected) ==> z.dialog
        == a.dialog && z.status@ == "No device connected"@
    &&& a.focus == FocusPane::Device && a.device_state is Connected
        && a.device_pane.selection() < a.device_pane.entries_view().len() ==> ({
        let e = a.device_pane.entries_view()[a.device_pane.selection() as int];
        exists|r: Result<InspectorData, String>| #[trigger] inspected(a.device_state->backend, e.id@, r) && (
            (r is Ok && z.dialog == ActiveDialog::<C, P>::Inspector(Box::new(r->Ok_0))
                && z.status@ == "Inspector: "@ + e.name@)
            || (r is Err && z.dialog == a.dialog && z.status@ == error_text(r->Err_0@)))
    })
}

/// Pushing the selected host file, or asking first when a device file of that name exists.
pub open spec fn copy_host_to_device_effect<B, C, P: Clone>(a: App<B, C, P>, z: App<B, C, P>, c: Command<B, P>) -> bool {
    &&& z.host == a.host
    &&& z.device_pane == a.device_pane
    &&& !(a.device_state is Connected) ==> c is Nothing && z.status@ == "No device connected"@
        && z.dialog == a.dialog
    &&& a.device_state is Connected && a.host.selection() < a.host.entries_view().len() ==> ({
        let e = a.host.entries_view()[a.host.selection() as int];
        if e.is_dir {
            c is Nothing && z.status@ == "Skipping directory push for now"@
        } else if exists|k: int| 0 <= k < a.device_pane.entries_view().len()
            && a.device_pane.entries_view()[k].name@ == e.name@
            && a.device_pane.entries_view()[k].kind == DeviceEntryKind::File {
            &&& c is Nothing
            &&& z.device_state == a.device_state
            &&& z.dialog matches ActiveDialog::Confirm(d)
            &&& d.title@ == "Overwrite?"@
            &&& d.message@ == "\""@ + truncated_middle(e.name@, DIALOG_FILENAME_MAX as nat) + "\" already exists on device. Overwrite?"@
            &&& d.on_confirm matches ConfirmAction::OverwritePush { source: s, name: n, delete_id: id }
            &&& n == e.name
            &&& vstd::pervasive::cloned(e.path, s)
            &&& exists|k: int| is_first_file_named(a.device_pane.entries_view(), e.name@, k)
                && a.device_pane.entries_view()[k].id == id
        } else {
            &&& c matches Command::StartTransfer(j)
            &&& j.kind matches TransferKind::Push { source: s, name: n, delete_id: None }
            &&& n == e.name
            &&& vstd::pervasive::cloned(e.path, s)
            &&& j.filename == e.name
            &&& j.direction == TransferDirection::Pushing
            &&& z.dialog == transfer_dialog::<C, P>(e.name, TransferDirection::Pushing)
        }
    })
}

/// Pulling the selected device file: the caller is asked to check the host folder.
pub open spec fn copy_device_to_host_effect<B, C, P>(a: App<B, C, P>, z: App<B, C, P>, c: Command<B, P>) -> bool {
    &&& z.host == a.host
    &&& z.device_pane == a.device_pane
    &&& z.device_state == a.device_state
    &&& z.dialog == a.dialog
    &&& !(a.device_state is Connected) ==> c is Nothing && z.status@ == "No device connected"@
    &&& a.device_state is Connected && a.device_pane.selection() < a.device_pane.entries_view().len() ==> ({
        let e = a.device_pane.entries_view()[a.device_pane.selection() as int];
        if e.kind == DeviceEntryKind::Directory {
            c is Nothing && z.status@ == "Skipping directory pull for now"@
        } else {
            c == (Command::<B, P>::CheckPullTarget { entry_id: e.id, filename: e.name })
        }
    })
}

/// Entering the selected folder of the focused pane.
pub open spec fn enter_selected_effect<B: DeviceBackend, C, P: Clone>(a: App<B, C, P>, z: App<B, C, P>, c: Command<B, P>) -> bool {
    &&& z.dialog == a.dialog
    &&& a.focus == FocusPane::Host ==> ({
        let sel = a.host.selection();
        if sel < a.host.entries_view().len() && a.host.entries_view()[sel as int].is_dir {
            let e = a.host.entries_view()[sel as int];
            &&& c == Command::<B, P>::ReloadHost(HostReload::EnterDir)
            &&& vstd::pervasive::cloned(e.path, z.host_cwd)
            &&& z.host.cursor_stack() == a.host.cursor_stack().push(e.name)
            &&& z.host.entries_view() == a.host.entries_view()
        } else {
            c is Nothing && z.host == a.host
        }
    })
    &&& a.focus == FocusPane::Device && !(a.device_state is Connected) ==> c is Nothing
        && z.status@ == "No device connected"@
    &&& a.focus == FocusPane::Device && a.device_state is Connected && a.device_pane.selection()
        < a.device_pane.entries_view().len() && a.device_pane.entries_view()[a.device_pane.selection() as int].kind
        == DeviceEntryKind::Directory ==> ({
        let e = a.device_pane.entries_view()[a.device_pane.selection() as int];
        &&& z.device_pane.cursor_stack() == a.device_pane.cursor_stack().push(e.name)
        &&& ((c matches Command::StartListing(j) && z.device_pane.selection() == 0
                && j.selected_name is None && z.status@ == "Device: "@ + j.cache.path@
                && j.cache.name == a.device_state->Connected_cache.name
                && entered_dir(a.device_state->backend, e.id@, e.name@, Ok(()))
                && reports_path(j.backend, j.cache.path@))
            || (c is Nothing && exists|m: String| entered_dir(a.device_state->backend, e.id@, e.name@, Err(m))
                && z.status@ == error_text(m@)))
    })
}

/// Going to the parent folder of the focused pane.
pub open spec fn go_up_effect<B: DeviceBackend, C, P>(a: App<B, C, P>, z: App<B, C, P>, c: Command<B, P>) -> bool {
    &&& z.dialog == a.dialog
    &&& z.host == a.host
    &&& a.focus == FocusPane::Host ==> c == Command::<B, P>::ReloadHost(HostReload::GoUp)
        && z.device_state == a.device_state && z.status == a.status
    &&& a.focus == FocusPane::Device && !(a.device_state is Connected) ==> c is Nothing
        && z.status@ == "No device connected"@
    &&& a.focus == FocusPane::Device && a.device_state is Connected ==> ({
        let stack = a.device_pane.cursor_stack();
        &&& (stack.len() > 0 ==> z.device_pane.cursor_stack() == stack.drop_last())
        &&& ((c matches Command::StartListing(j) && j.selected_name == (if stack.len() > 0 { Some(stack.last()) } else { None })
                && z.status@ == "Device: "@ + j.cache.path@ && j.cache.name == a.device_state->Connected_cache.name
                && went_up(a.device_state->backend, Ok(()))
                && reports_path(j.backend, j.cache.path@))
            || (c is Nothing && exists|m: String| went_up(a.device_state->backend, Err(m))
                && z.status@ == error_text(m@)))
    })
}

/// Continuing a pull once it is known whether `filename` exists in the host
/// folder: ask before overwriting, else pull into the current host folder.
pub open spec fn pull_target_checked_effect<B, C, P: Clone>(
    a: App<B, C, P>,
    z: App<B, C, P>,
    entry_id: String,
    filename: String,
    exists: bool,
    c: Command<B, P>,
) -> bool {
    &&& z.host == a.host
    &&& z.device_pane == a.device_pane
    &&& exists ==> c is Nothing && z.device_state == a.device_state
        && (z.dialog matches ActiveDialog::Confirm(d) && d.title@ == "Overwrite?"@
        && d.message@ == "\""@ + truncated_middle(filename@, DIALOG_FILENAME_MAX as nat) + "\" already exists on host. Overwrite?"@
        && d.on_confirm == (ConfirmAction::<P>::OverwritePull { entry_id, filename }))
    &&& !exists && a.device_state is Connected ==> (c matches Command::StartTransfer(j) && j.filename == filename
        && j.direction == TransferDirection::Pulling && (j.kind matches TransferKind::Pull {
            entry_id: e,
            filename: f,
            target_dir: t,
        } && e == entry_id && f == filename && vstd::pervasive::cloned(a.host_cwd, t))
        && z.dialog == transfer_dialog::<C, P>(filename, TransferDirection::Pulling))
    &&& !exists && !(a.device_state is Connected) ==> c is Nothing && z.status@ == "No device connected"@
}

/// What confirming `action` does. An overwriting push uploads with the old
/// object's id to delete first.
pub open spec fn confirm_effect<B: DeviceBackend, C, P: Clone>(a: App<B, C, P>, z: App<B, C, P>, action: ConfirmAction<P>, c: Command<B, P>) -> bool {
    match action {
        ConfirmAction::Quit => z.should_quit && c is Nothing && z.device_state == a.device_state,
        ConfirmAction::OverwritePush { source, name, delete_id } => {
            &&& z.should_quit == a.should_quit
            &&& (a.device_state is Connected <==> c is StartTransfer)
            &&& (c matches Command::StartTransfer(j) ==> j.kind == (TransferKind::Push {
                source,
                name,
                delete_id: Some(delete_id),
            }) && z.dialog == transfer_dialog::<C, P>(name, TransferDirection::Pushing))
        },
        ConfirmAction::OverwritePull { entry_id, filename } => {
            &&& z.should_quit == a.should_quit
            &&& (a.device_state is Connected <==> c is StartTransfer)
            &&& (c matches Command::StartTransfer(j) ==> (j.kind matches TransferKind::Pull {
                entry_id: e,
                filename: f,
                target_dir: t,
            } && e == entry_id && f == filename && vstd::pervasive::cloned(a.host_cwd, t))
                && z.dialog == transfer_dialog::<C, P>(filename, TransferDirection::Pulling))
        },
        ConfirmAction::Delete { entry_id, name } => z.should_quit == a.should_quit && if a.device_state is Connected {
            exists|r: Result<(), String>| #[trigger] deleted(a.device_state->backend, entry_id@, r) && (
                (r is Ok && (c matches Command::StartListing(j) && reports_storage(j.backend, j.cache.storage_info))
                    && z.status@ == "Deleted "@ + name@)
                || (r is Err && c is Nothing && z.status@ == error_text(r->Err_0@)))
        } else {
            c is Nothing && z.status@ == "No device connected"@
                && z.device_state == a.device_state
        },
    }
}

/// What submitting `input` for `action` does.
pub open spec fn submit_effect<B: DeviceBackend, C, P>(a: App<B, C, P>, z: App<B, C, P>, action: TextInputAction, input: Seq<char>, c: Command<B, P>) -> bool {
    &&& !(a.device_state is Connected) ==> c is Nothing && z.status@ == "No device connected"@
        && z.device_state == a.device_state
    &&& a.device_state is Connected ==> match action {
        TextInputAction::Mkdir => exists|r: Result<(), String>| #[trigger] made_dir(a.device_state->backend, input, r) && (
            (r is Ok && (c matches Command::StartListing(j) && reports_storage(j.backend, j.cache.storage_info))
                && z.status@ == "Created directory "@ + input)
            || (r is Err && c is Nothing && z.status@ == error_text(r->Err_0@))),
        TextInputAction::Rename { entry_id } => exists|r: Result<(), String>|
            #[trigger] renamed(a.device_state->backend, entry_id@, input, r) && (
            (r is Ok && c is StartListing && z.status@ == "Renamed to "@ + input)
            || (r is Err && c is Nothing && z.status@ == error_text(r->Err_0@))),
    }
}

/// The effect of a key on an open confirmation dialog.
pub open spec fn confirm_key_effect<B: DeviceBackend, C, P: Clone>(a: App<B, C, P>, z: App<B, C, P>, key: Key, c: Command<B, P>) -> bool {
    match a.dialog {
        ActiveDialog::Confirm(d) => match key.code {
            KeyCode::Enter | KeyCode::Char('y') | KeyCode::Char('Y') => (!(c is StartTransfer) ==> z.dialog is NoDialog)
                && confirm_effect(a, z, d.on_confirm, c),
            KeyCode::Esc | KeyCode::Char('n') | KeyCode::Char('N') => z.dialog is NoDialog
                && z.status@ == "Cancelled"@ && c is Nothing && z.device_state == a.device_state,
            _ => z.dialog == a.dialog && c is Nothing && z.device_state == a.device_state
                && z.status == a.status,
        },
        _ => z.dialog == a.dialog && c is Nothing,
    }
}

/// The effect of a key on an open text input dialog: editing keys edit the
/// text, Esc cancels, Enter submits the trimmed text (or cancels when it is
/// blank).
pub open spec fn text_input_key_effect<B: DeviceBackend, C, P>(a: App<B, C, P>, z: App<B, C, P>, key: Key, c: Command<B, P>) -> bool {
    match a.dialog {
        ActiveDialog::TextInput(d) => {
            let s = d.input@;
            let k = char_index(s, d.cursor_pos as nat);
            match key.code {
                KeyCode::Esc => z.dialog is NoDialog && z.status@ == "Cancelled"@ && c is Nothing
                    && z.device_state == a.device_state,
                KeyCode::Enter => z.dialog is NoDialog && if trimmed(s).len() == 0 {
                    z.status@ == "Cancelled"@ && c is Nothing && z.device_state == a.device_state
                } else {
                    submit_effect(a, z, d.on_submit, trimmed(s), c)
                },
                _ => {
                    &&& c is Nothing
                    &&& z.status == a.status
                    &&& z.device_state == a.device_state
                    &&& z.dialog matches ActiveDialog::TextInput(e)
                    &&& e.title == d.title
                    &&& e.prompt == d.prompt
                    &&& e.on_submit == d.on_submit
                    &&& e.input@ == edited_input(s, k, key.code)
                    &&& e.cursor_pos == offset_of(e.input@, moved_cursor(s, k, key.code))
                },
            }
        },
        _ => z.dialog == a.dialog && c is Nothing,
    }
}

/// The effect of a key on the open inspector: Esc, `i` or `q` close it,
/// Down/`j` and Up/`k` scroll by one line.
pub open spec fn inspector_key_effect<B, C, P>(a: App<B, C, P>, z: App<B, C, P>, key: Key) -> bool {
    &&& z.device_state == a.device_state
    &&& z.status == a.status
    &&& match a.dialog {
        ActiveDialog::Inspector(d) => match key.code {
            KeyCode::Esc | KeyCode::Char('i') | KeyCode::Char('q') => z.dialog is NoDialog,
            KeyCode::Down | KeyCode::Char('j') => z.dialog == ActiveDialog::<C, P>::Inspector(
                Box::new(InspectorData {
                    scroll_offset: if d.scroll_offset == usize::MAX {
                        usize::MAX
                    } else {
                        (d.scroll_offset + 1) as usize
                    },
                    ..*d
                }),
            ),
            KeyCode::Up | KeyCode::Char('k') => z.dialog == ActiveDialog::<C, P>::Inspector(
                Box::new(InspectorData {
                    scroll_offset: if d.scroll_offset == 0 {
                        0
                    } else {
                        (d.scroll_offset - 1) as usize
                    },
                    ..*d
                }),
            ),
            _ => z.dialog == a.dialog,
        },
        _ => z.dialog == a.dialog,
    }
}

impl<B: DeviceBackend, C, P: Clone> App<B, C, P> {
    /// Both selections point at entries (or are 0 in empty lists) and an open
    /// text input has its cursor on a character boundary.
    pub open spec fn wf(&self) -> bool {
        &&& valid_selection(self.host.selection(), self.host.entries_view().len())
        &&& valid_selection(self.device_pane.selection(), self.device_pane.entries_view().len())
        &&& (self.dialog matches ActiveDialog::TextInput(d) ==> d.cursor_ok())
    }

    /// The start state: host pane on `host_cwd`, device connecting through
    /// `rx`, and a warning shown when the configured host folder `raw_host_dir`
    /// is not usable.
    pub fn new(
        host_cwd: P,
        host_entries: Vec<HostEntry<P>>,
        host_dir_usable: bool,
        raw_host_dir: Option<&str>,
        rx: C,
    ) -> (a: Self)
        ensures
            a.wf(),
            a.host_cwd == host_cwd,
            a.host.entries_view() == host_entries@,
            a.host.selection() == 0,
            a.device_pane.entries_view().len() == 0,
            a.focus == FocusPane::Host,
            a.device_state == (DeviceState::<B, C>::Connecting { rx, spinner_tick: 0 }),
            a.status@ == "Connecting to device\u{2026}"@,
            !a.show_help,
            !a.should_quit,
            a.pending_warning is None,
            !host_dir_usable && raw_host_dir is Some ==> (a.dialog matches ActiveDialog::Info(d)
                && d.title@ == "Warning"@ && d.message@ == host_dir_warning_text(raw_host_dir->Some_0@)),
            host_dir_usable || raw_host_dir is None ==> a.dialog is NoDialog,
    {
        let dialog = match host_dir_warning(host_dir_usable, raw_host_dir) {
            Some(message) => ActiveDialog::Info(InfoDialog { title: owned("Warning"), message }),
            None => ActiveDialog::NoDialog,
        };
        App {
            host_cwd,
            host: PaneState::new(host_entries),
            device_pane: PaneState::new(Vec::new()),
            focus: FocusPane::Host,
            device_state: DeviceState::Connecting { rx, spinner_tick: 0 },
            status: owned("Connecting to device\u{2026}"),
            show_help: false,
            dialog,
            pending_warning: None,
            should_quit: false,
        }
    }

    /// Switches the keyboard focus to the other pane.
    pub fn toggle_focus(&mut self)
        ensures
            old(self).wf() ==> final(self).wf(),
            final(self).focus == (if old(self).focus == FocusPane::Host { FocusPane::Device } else { FocusPane::Host }),
            final(self).device_state == old(self).device_state,
            final(self).show_help == old(self).show_help,
            final(self).should_quit == old(self).should_quit,
            final(self).host == old(self).host,
            final(self).device_pane == old(self).device_pane,
            final(self).dialog == old(self).dialog,
            final(self).status == old(self).status,
    {
        self.focus = match self.focus {
            FocusPane::Host => FocusPane::Device,
            FocusPane::Device => FocusPane::Host,
        };
    }

    /// Moves the selection of the focused pane up.
    pub fn move_up(&mut self)
        requires
            old(self).wf(),
        ensures
            final(self).wf(),
            move_up_effect(*old(self), *final(self)),
    {
        match self.focus {
            FocusPane::Host => self.host.select_prev(),
            FocusPane::Device => self.device_pane.select_prev(),
        }
    }

    /// Moves the selection of the focused pane down.
    pub fn move_down(&mut self)
        requires
            old(self).wf(),
        ensures
            final(self).wf(),
            move_down_effect(*old(self), *final(self)),
    {
        match self.focus {
            FocusPane::Host => {
                proof {
                    self.host.lemma_rows_fit();
                }
                self.host.select_next();
            },
            FocusPane::Device => {
                proof {
                    self.device_pane.lemma_rows_fit();
                }
                self.device_pane.select_next();
            },
        }
    }

    /// Hands the connected backend to a listing worker; the pane shows
    /// nothing connected until [`App::begin_loading`] is called.
    pub fn spawn_device_listing(&mut self, selected_name: Option<String>) -> (job: Option<ListingJob<B>>)
        ensures
            old(self).wf() ==> final(self).wf(),
            final(self).host_cwd == old(self).host_cwd,
            final(self).show_help == old(self).show_help,
            final(self).should_quit == old(self).should_quit,
            final(self).pending_warning == old(self).pending_warning,
            final(self).host == old(self).host,
            final(self).device_pane == old(self).device_pane,
            final(self).dialog == old(self).dialog,
            final(self).status == old(self).status,
            final(self).focus == old(self).focus,
            match old(self).device_state {
                DeviceState::Connected { backend, cache } => job matches Some(j) && j.backend == backend
                    && j.cache == cache && j.selected_name == selected_name
                    && final(self).device_state == (DeviceState::<B, C>::Disconnected { error: None }),
                _ => job is None && final(self).device_state == old(self).device_state,
            },
    {
        let mut prev = DeviceState::Disconnected { error: None };
        std::mem::swap(&mut prev, &mut self.device_state);
        match prev {
            DeviceState::Connected { backend, cache } => Some(ListingJob { backend, cache, selected_name }),
            other => {
                self.device_state = other;
                None
            },
        }
    }

    /// Records that a listing worker answering on `rx` has started.
    pub fn begin_loading(&mut self, rx: C, cache: DeviceCache, selected_name: Option<String>)
        ensures
            old(self).wf() ==> final(self).wf(),
            final(self).device_state == DeviceState::<B, C>::Loading(
                Box::new(LoadingState { rx, progress: None, spinner_tick: 0, cache, selected_name }),
            ),
            final(self).host == old(self).host,
            final(self).device_pane == old(self).device_pane,
            final(self).dialog == old(self).dialog,
            final(self).status == old(self).status,
            final(self).focus == old(self).focus,
    {
        self.device_state = DeviceState::Loading(
            Box::new(LoadingState { rx, progress: None, spinner_tick: 0, cache, selected_name }),
        );
    }

    /// Whether a listing worker may still send: the pane is connecting or loading.
    pub fn listing_pending(&self) -> (r: bool)
        ensures
            r == (self.device_state is Connecting || self.device_state is Loading),
    {
        match &self.device_state {
            DeviceState::Connecting { .. } => true,
            DeviceState::Loading(_) => true,
            _ => false,
        }
    }

    /// Takes one event from the listing worker; returns whether to keep
    /// reading events this tick.
    pub fn on_listing_event(&mut self, event: ListingEvent<B>) -> (more: bool)
        requires
            old(self).wf(),
        ensures
            final(self).wf(),
            final(self).host == old(self).host,
            final(self).focus == old(self).focus,
            listing_event_effect(*old(self), *final(self), event, more),
    {
        let msg = match event {
            ListingEvent::Disconnected => {
                self.device_state = DeviceState::Disconnected { error: None };
                self.status = owned("Error: device listing thread crashed");
                return false;
            },
            ListingEvent::Message(m) => m,
        };
        match msg {
            ListingMsg::Progress { fetched, total } => {
                let mut prev = DeviceState::Disconnected { error: None };
                std::mem::swap(&mut prev, &mut self.device_state);
                self.device_state = match prev {
                    DeviceState::Loading(st) => DeviceState::Loading(
                        Box::new(LoadingState { progress: Some((fetched, total)), ..*st }),
                    ),
                    other => other,
                };
            },
            ListingMsg::Done { backend, result, storage_info, warning } => {
                let was_connecting = match &self.device_state {
                    DeviceState::Connecting { .. } => true,
                    _ => false,
                };
                let selected_name: Option<String> = match &self.device_state {
                    DeviceState::Loading(st) => match &st.selected_name {
                        Some(n) => Some(n.clone()),
                        None => None,
                    },
                    _ => None,
                };
                let device_name = backend.device_name();
                let current_path = backend.current_path();
                proof {
                    assert(reports_name(backend, device_name@));
                    assert(reports_path(backend, current_path@));
                }
                let cache = DeviceCache { name: owned(device_name), path: owned(current_path), storage_info };
                if was_connecting {
                    self.status = joined("Connected to ", cache.name.as_str());
                }
                self.device_state = DeviceState::Connected { backend, cache };
                match result {
                    Ok(entries) => {
                        self.device_pane.set_entries(entries);
                        match &selected_name {
                            Some(n) => self.device_pane.restore_selection_by_name(Some(n.as_str())),
                            None => self.device_pane.restore_selection_by_name(None),
                        }
                    },
                    Err(e) => self.status = error_status(e.as_str()),
                }
                if was_connecting {
                    if let Some(message) = warning {
                        let info = InfoDialog { title: owned("Warning"), message };
                        match self.dialog {
                            ActiveDialog::NoDialog => self.dialog = ActiveDialog::Info(info),
                            _ => self.pending_warning = Some(info),
                        }
                    }
                }
            },
            ListingMsg::InitFailed(m) => {
                self.device_state = DeviceState::Disconnected { error: Some(m) };
                self.status = owned("No device connected");
            },
        }
        true
    }

    /// The name of the selected device entry, if any.
    fn selected_device_name(&self) -> (r: Option<String>)
        ensures
            self.device_pane.selection() < self.device_pane.entries_view().len() ==> (r matches Some(n) && n
                == self.device_pane.entries_view()[self.device_pane.selection() as int].name),
            self.device_pane.selection() >= self.device_pane.entries_view().len() ==> r is None,
    {
        match self.device_pane.selected() {
            Some(e) => Some(e.name.clone()),
            None => None,
        }
    }

    /// Hands the connected backend to a transfer worker: the pane shows the
    /// transfer, the transfer dialog opens and the status names it; without a
    /// device, says so. The worker's channel reaches the dialog through
    /// [`App::begin_transfer`].
    pub fn spawn_transfer(&mut self, kind: TransferKind<P>) -> (c: Command<B, P>)
        ensures
            old(self).wf() ==> final(self).wf(),
            final(self).host_cwd == old(self).host_cwd,
            final(self).show_help == old(self).show_help,
            final(self).should_quit == old(self).should_quit,
            final(self).pending_warning == old(self).pending_warning,
            final(self).host == old(self).host,
            final(self).device_pane == old(self).device_pane,
            final(self).focus == old(self).focus,
            match old(self).device_state {
                DeviceState::Connected { backend, cache } => {
                    let (name, dir) = match kind {
                        TransferKind::Push { name, .. } => (name, TransferDirection::Pushing),
                        TransferKind::Pull { filename, .. } => (filename, TransferDirection::Pulling),
                    };
                    &&& c matches Command::StartTransfer(j)
                    &&& j.backend == backend && j.kind == kind && j.filename == name && j.direction == dir
                    &&& final(self).device_state == (DeviceState::<B, C>::Transferring { cache })
                    &&& final(self).status@ == direction_label(dir) + " "@ + name@ + "..."@
                    &&& final(self).dialog == transfer_dialog::<C, P>(name, dir)
                },
                _ => {
                    &&& c is Nothing
                    &&& final(self).dialog == old(self).dialog
                    &&& final(self).device_state == old(self).device_state
                    &&& final(self).status@ == "No device connected"@
                },
            },
    {
        let mut prev = DeviceState::Disconnected { error: None };
        std::mem::swap(&mut prev, &mut self.device_state);
        let (backend, cache) = match prev {
            DeviceState::Connected { backend, cache } => (backend, cache),
            other => {
                self.device_state = other;
                self.status = owned("No device connected");
                return Command::Nothing;
            },
        };
        let (filename, direction) = match &kind {
            TransferKind::Push { name, .. } => (name.clone(), TransferDirection::Pushing),
            TransferKind::Pull { filename, .. } => (filename.clone(), TransferDirection::Pulling),
        };
        self.device_state = DeviceState::Transferring { cache };
        self.dialog = ActiveDialog::Transfer(
            TransferDialog { rx: None, filename: filename.clone(), direction, spinner_tick: 0 },
        );
        let mut status = String::new();
        push_str(&mut status, direction.label());
        push_str(&mut status, " ");
        push_str(&mut status, filename.as_str());
        push_str(&mut status, "...");
        self.status = status;
        Command::StartTransfer(TransferJob { backend, kind, filename, direction })
    }

    /// Connects the open transfer dialog to the worker answering on `rx`.
    pub fn begin_transfer(&mut self, rx: C)
        ensures
            old(self).wf() ==> final(self).wf(),
            match old(self).dialog {
                ActiveDialog::Transfer(d) => final(self).dialog == ActiveDialog::<C, P>::Transfer(
                    TransferDialog { rx: Some(rx), ..d },
                ),
                _ => final(self).dialog == old(self).dialog,
            },
            final(self).device_state == old(self).device_state,
            final(self).host == old(self).host,
            final(self).device_pane == old(self).device_pane,
            final(self).status == old(self).status,
    {
        if let ActiveDialog::Transfer(d) = &mut self.dialog {
            d.rx = Some(rx);
        }
    }

    /// Advances the transfer dialog's spinner.
    pub fn tick_transfer(&mut self)
        ensures
            old(self).wf() ==> final(self).wf(),
            match old(self).dialog {
                ActiveDialog::Transfer(d) => final(self).dialog == ActiveDialog::<C, P>::Transfer(
                    TransferDialog { spinner_tick: next_tick(d.spinner_tick), ..d },
                ),
                _ => final(self).dialog == old(self).dialog,
            },
            final(self).device_state == old(self).device_state,
            final(self).host == old(self).host,
            final(self).device_pane == old(self).device_pane,
            final(self).status == old(self).status,
    {
        if let ActiveDialog::Transfer(d) = &mut self.dialog {
            d.spinner_tick = if d.spinner_tick == usize::MAX { 0 } else { d.spinner_tick + 1 };
        }
    }

    /// The transfer worker vanished without reporting.
    pub fn on_transfer_disconnected(&mut self)
        ensures
            old(self).wf() ==> final(self).wf(),
            final(self).device_state == (DeviceState::<B, C>::Disconnected { error: None }),
            final(self).dialog is NoDialog,
            final(self).status@ == "Error: transfer thread crashed"@,
            final(self).host == old(self).host,
            final(self).device_pane == old(self).device_pane,
    {
        self.device_state = DeviceState::Disconnected { error: None };
        self.dialog = ActiveDialog::NoDialog;
        self.status = owned("Error: transfer thread crashed");
    }

    /// The transfer worker finished: the backend comes back, the dialog
    /// closes and the status reports the outcome; a pull reloads the host
    /// folder and a push relists the device folder.
    pub fn on_transfer_done(&mut self, msg: TransferMsg<B>) -> (c: Command<B, P>)
        requires
            old(self).wf(),
        ensures
            final(self).wf(),
            final(self).host == old(self).host,
            final(self).device_pane == old(self).device_pane,
            transfer_done_effect(*old(self), *final(self), msg, c),
    {
        let TransferMsg::Done { backend, result, storage_info } = msg;
        let (is_pull, filename) = match &self.dialog {
            ActiveDialog::Transfer(d) => (d.direction == TransferDirection::Pulling, d.filename.clone()),
            _ => return Command::Nothing,
        };
        let mut prev = DeviceState::Disconnected { error: None };
        std::mem::swap(&mut prev, &mut self.device_state);
        let mut cache = match prev {
            DeviceState::Transferring { cache } => cache,
            other => {
                self.device_state = other;
                self.dialog = ActiveDialog::NoDialog;
                self.status = owned("Error: unexpected state after transfer");
                return Command::Nothing;
            },
        };
        cache.storage_info = storage_info;
        self.device_state = DeviceState::Connected { backend, cache };
        self.dialog = ActiveDialog::NoDialog;
        match result {
            Ok(()) => {
                self.status = joined(if is_pull { "Pulled " } else { "Pushed " }, filename.as_str());
                if is_pull {
                    Command::ReloadHost(HostReload::AfterPull)
                } else {
                    let sel = self.selected_device_name();
                    match self.spawn_device_listing(sel) {
                        Some(job) => Command::StartListing(job),
                        None => Command::Nothing,
                    }
                }
            },
            Err(e) => {
                self.status = error_status(e.as_str());
                Command::Nothing
            },
        }
    }

    /// The host folder was read again after `Refresh`, `EnterDir` or
    /// `AfterPull`; `cwd_display` is how the current host folder is shown.
    pub fn host_reloaded(&mut self, reason: HostReload, result: Result<Vec<HostEntry<P>>, String>, cwd_display: &str) -> (c: Command<B, P>)
        requires
            old(self).wf(),
            reason != HostReload::GoUp,
        ensures
            final(self).wf(),
            final(self).host_cwd == old(self).host_cwd,
            final(self).dialog == old(self).dialog,
            final(self).device_pane == old(self).device_pane,
            host_reload_effect(*old(self), *final(self), reason, result, cwd_display@, c),
    {
        match reason {
            HostReload::Refresh => match result {
                Ok(entries) => {
                    self.host.update_entries(entries);
                    let sel = self.selected_device_name();
                    let c = match self.spawn_device_listing(sel) {
                        Some(job) => Command::StartListing(job),
                        None => Command::Nothing,
                    };
                    self.status = owned("Refreshed");
                    c
                },
                Err(e) => {
                    self.status = error_status(e.as_str());
                    Command::Nothing
                },
            },
            HostReload::EnterDir => {
                match result {
                    Ok(entries) => {
                        self.host.set_entries(entries);
                        self.host.set_selected(0);
                        self.status = joined("Host: ", cwd_display);
                    },
                    Err(e) => {
                        self.status = error_status(e.as_str());
                    },
                }
                Command::Nothing
            },
            _ => {
                if let Ok(entries) = result {
                    self.host.update_entries(entries);
                }
                Command::Nothing
            },
        }
    }

    /// Went to the parent host folder `parent`, whose listing is `result`.
    pub fn host_went_up(&mut self, parent: P, result: Result<Vec<HostEntry<P>>, String>, cwd_display: &str)
        requires
            old(self).wf(),
        ensures
            final(self).wf(),
            final(self).host_cwd == parent,
            final(self).dialog == old(self).dialog,
            final(self).device_pane == old(self).device_pane,
            final(self).device_state == old(self).device_state,
            match result {
                Ok(entries) => final(self).host.entries_view() == entries@
                    && final(self).status@ == "Host: "@ + cwd_display@
                    && (old(self).host.cursor_stack().len() > 0 ==> final(self).host.cursor_stack() == old(self).host.cursor_stack().drop_last()
                        && final(self).host.selection() == reselected(entries@, old(self).host.selection(), Some(old(self).host.cursor_stack().last()@)))
                    && (old(self).host.cursor_stack().len() == 0 ==> final(self).host.selection() == clamped(old(self).host.selection(), entries@.len())),
                Err(e) => final(self).host == old(self).host && final(self).status@ == error_text(e@),
            },
    {
        self.host_cwd = parent;
        match result {
            Ok(entries) => {
                self.host.set_entries(entries);
                self.host.pop_cursor();
                self.status = joined("Host: ", cwd_display);
            },
            Err(e) => {
                self.status = error_status(e.as_str());
            },
        }
    }

    /// Asks whether to quit.
    pub fn confirm_quit(&mut self)
        ensures
            old(self).wf() ==> final(self).wf(),
            (final(self).dialog matches ActiveDialog::Confirm(d) && d.title@ == "Quit?"@
                && d.message@ == "Are you sure you want to quit?"@ && d.on_confirm is Quit),
            final(self).device_state == old(self).device_state,
            final(self).host == old(self).host,
            final(self).device_pane == old(self).device_pane,
            final(self).status == old(self).status,
            final(self).host_cwd == old(self).host_cwd,
            final(self).focus == old(self).focus,
    {
        self.dialog = ActiveDialog::Confirm(ConfirmDialog {
            title: owned("Quit?"),
            message: owned("Are you sure you want to quit?"),
            on_confirm: ConfirmAction::Quit,
        });
    }

    /// Opens the rename dialog for the selected device entry, its current
    /// name filled in and the cursor at the end.
    pub fn rename_prompt(&mut self)
        requires
            old(self).wf(),
        ensures
            final(self).wf(),
            rename_prompt_effect(*old(self), *final(self)),
    {
        if self.focus != FocusPane::Device {
            return;
        }
        if !matches!(self.device_state, DeviceState::Connected { .. }) {
            self.status = owned("No device connected");
            return;
        }
        let (name, id) = match self.device_pane.selected() {
            Some(e) => (e.name.clone(), e.id.clone()),
            None => return,
        };
        let cursor_pos = byte_len_of(name.as_str());
        proof {
            lemma_offset_full(name@);
        }
        let mut prompt = String::new();
        push_str(&mut prompt, "Rename \"");
        let short = truncate_middle(name.as_str(), DIALOG_FILENAME_MAX);
        push_str(&mut prompt, short.as_str());
        push_str(&mut prompt, "\" to:");
        self.dialog = ActiveDialog::TextInput(TextInputDialog {
            title: owned("Rename"),
            prompt,
            input: name,
            cursor_pos,
            on_submit: TextInputAction::Rename { entry_id: id },
        });
    }

    /// Opens the dialog asking for a new folder's name.
    pub fn mkdir_prompt(&mut self)
        requires
            old(self).wf(),
        ensures
            final(self).wf(),
            mkdir_prompt_effect(*old(self), *final(self)),
    {
        if self.focus != FocusPane::Device {
            return;
        }
        if !matches!(self.device_state, DeviceState::Connected { .. }) {
            self.status = owned("No device connected");
            return;
        }
        let input = String::new();
        proof {
            assert(input@.take(0) =~= Seq::<char>::empty());
            assert(offset_of(input@, 0) == 0);
        }
        self.dialog = ActiveDialog::TextInput(TextInputDialog {
            title: owned("Create Directory"),
            prompt: owned("Directory name:"),
            input,
            cursor_pos: 0,
            on_submit: TextInputAction::Mkdir,
        });
    }

    /// Asks whether to delete the selected device entry.
    pub fn delete_selected(&mut self)
        requires
            old(self).wf(),
        ensures
            final(self).wf(),
            delete_selected_effect(*old(self), *final(self)),
    {
        if self.focus != FocusPane::Device {
            return;
        }
        if !matches!(self.device_state, DeviceState::Connected { .. }) {
            self.status = owned("No device connected");
            return;
        }
        let (name, id, kind) = match self.device_pane.selected() {
            Some(e) => (e.name.clone(), e.id.clone(), e.kind),
            None => return,
        };
        let mut message = String::new();
        push_str(&mut message, "Delete ");
        push_str(&mut message, if kind == DeviceEntryKind::Directory { "directory" } else { "file" });
        push_str(&mut message, " \"");
        let short = truncate_middle(name.as_str(), DIALOG_FILENAME_MAX);
        push_str(&mut message, short.as_str());
        push_str(&mut message, "\"?");
        self.dialog = ActiveDialog::Confirm(ConfirmDialog {
            title: owned("Delete?"),
            message,
            on_confirm: ConfirmAction::Delete { entry_id: id, name },
        });
    }

    /// After a change on the device: refresh the cached storage figures and
    /// relist the current folder, keeping the selection by name.
    fn relist_after_change(&mut self, refresh_storage: bool) -> (c: Command<B, P>)
        requires
            old(self).device_state is Connected,
        ensures
            final(self).should_quit == old(self).should_quit,
            final(self).show_help == old(self).show_help,
            final(self).focus == old(self).focus,
            final(self).pending_warning == old(self).pending_warning,
            final(self).host == old(self).host,
            final(self).host_cwd == old(self).host_cwd,
            final(self).device_pane == old(self).device_pane,
            final(self).dialog == old(self).dialog,
            final(self).status == old(self).status,
            final(self).device_state == (DeviceState::<B, C>::Disconnected { error: None }),
            (c matches Command::StartListing(j) && j.backend == old(self).device_state->backend
                && j.cache.name == old(self).device_state->Connected_cache.name
                && j.cache.path == old(self).device_state->Connected_cache.path
                && (!refresh_storage ==> j.cache.storage_info == old(self).device_state->Connected_cache.storage_info)
                && (refresh_storage ==> reports_storage(j.backend, j.cache.storage_info))),
    {
        if refresh_storage {
            if let DeviceState::Connected { backend, cache } = &mut self.device_state {
                let info = backend.storage_info();
                proof {
                    assert(reports_storage(*backend, info));
                }
                cache.storage_info = info;
            }
        }
        let sel = self.selected_device_name();
        match self.spawn_device_listing(sel) {
            Some(job) => Command::StartListing(job),
            None => Command::Nothing,
        }
    }

    /// Runs the action of a confirmed dialog.
    pub fn execute_confirm(&mut self, action: ConfirmAction<P>) -> (c: Command<B, P>)
        requires
            old(self).wf(),
        ensures
            final(self).wf(),
            !(c is StartTransfer) ==> final(self).dialog == old(self).dialog,
            final(self).host == old(self).host,
            final(self).device_pane == old(self).device_pane,
            confirm_effect(*old(self), *final(self), action, c),
    {
        match action {
            ConfirmAction::OverwritePush { source, name, delete_id } => {
                self.spawn_transfer(TransferKind::Push { source, name, delete_id: Some(delete_id) })
            },
            ConfirmAction::OverwritePull { entry_id, filename } => {
                let target_dir = self.host_cwd.clone();
                self.spawn_transfer(TransferKind::Pull { entry_id, filename, target_dir })
            },
            ConfirmAction::Delete { entry_id, name } => {
                let ghost before = self.device_state->backend;
                let outcome = match &mut self.device_state {
                    DeviceState::Connected { backend, .. } => {
                        let answer = backend.delete(entry_id.as_str());
                        proof {
                            assert(deleted(before, entry_id@, answer));
                        }
                        Some(answer)
                    },
                    _ => None,
                };
                proof {
                    if outcome is Some {
                        let r = outcome->Some_0;
                        if r is Ok {
                            let u: () = r->Ok_0;
                            assert(u == ());
                            assert(r == Result::<(), String>::Ok(()));
                        }
                    }
                }
                match outcome {
                    None => {
                        self.status = owned("No device connected");
                        Command::Nothing
                    },
                    Some(Ok(())) => {
                        let c = self.relist_after_change(true);
                        self.status = joined("Deleted ", name.as_str());
                        c
                    },
                    Some(Err(e)) => {
                        self.status = error_status(e.as_str());
                        Command::Nothing
                    },
                }
            },
            ConfirmAction::Quit => {
                self.should_quit = true;
                Command::Nothing
            },
        }
    }

    /// Runs the action of a submitted text input: creates the folder or
    /// renames the entry, then relists the device folder.
    pub fn submit_text_input(&mut self, action: TextInputAction, input: &str) -> (c: Command<B, P>)
        requires
            old(self).wf(),
        ensures
            final(self).wf(),
            final(self).host == old(self).host,
            final(self).device_pane == old(self).device_pane,
            final(self).dialog == old(self).dialog,
            submit_effect(*old(self), *final(self), action, input@, c),
    {
        let is_mkdir = match action {
            TextInputAction::Mkdir => true,
            _ => false,
        };
        let ghost before = self.device_state->backend;
        let outcome = match &mut self.device_state {
            DeviceState::Connected { backend, .. } => match &action {
                TextInputAction::Mkdir => {
                    let answer = backend.mkdir(input);
                    proof {
                        assert(made_dir(before, input@, answer));
                    }
                    Some(answer)
                },
                TextInputAction::Rename { entry_id } => {
                    let answer = backend.rename(entry_id.as_str(), input);
                    proof {
                        assert(renamed(before, entry_id@, input@, answer));
                    }
                    Some(answer)
                },
            },
            _ => None,
        };
        proof {
            if outcome is Some {
                let r = outcome->Some_0;
                if r is Ok {
                    let u: () = r->Ok_0;
                    assert(u == ());
                    assert(r == Result::<(), String>::Ok(()));
                }
            }
        }
        match outcome {
            None => {
                self.status = owned("No device connected");
                Command::Nothing
            },
            Some(Ok(())) => {
                let c = self.relist_after_change(is_mkdir);
                self.status = joined(if is_mkdir { "Created directory " } else { "Renamed to " }, input);
                c
            },
            Some(Err(e)) => {
                self.status = error_status(e.as_str());
                Command::Nothing
            },
        }
    }

    /// Opens the inspector on the selected device entry.
    pub fn open_inspector(&mut self)
        requires
            old(self).wf(),
        ensures
            final(self).wf(),
            open_inspector_effect(*old(self), *final(self)),
    {
        if self.focus != FocusPane::Device {
            self.dialog = ActiveDialog::Info(InfoDialog {
                title: owned("Inspector"),
                message: owned("Inspector is only available for device files (MTP objects).\nSwitch to the device pane with Tab first."),
            });
            return;
        }
        if !matches!(self.device_state, DeviceState::Connected { .. }) {
            self.status = owned("No device connected");
            return;
        }
        let (name, id) = match self.device_pane.selected() {
            Some(e) => (e.name.clone(), e.id.clone()),
            None => return,
        };
        let mut inspecting = joined("Inspecting ", name.as_str());
        push_str(&mut inspecting, "...");
        self.status = inspecting;
        let result = match &self.device_state {
            DeviceState::Connected { backend, .. } => {
                let r = backend.inspect_object(id.as_str());
                proof {
                    assert(inspected(*backend, id@, r));
                }
                r
            },
            _ => return,
        };
        match result {
            Ok(data) => {
                self.status = joined("Inspector: ", name.as_str());
                self.dialog = ActiveDialog::Inspector(Box::new(data));
            },
            Err(e) => {
                self.status = error_status(e.as_str());
            },
        }
    }

    /// Pushes the selected host file to the device, asking first when a
    /// device file of the same name exists.
    pub fn copy_host_to_device(&mut self) -> (c: Command<B, P>)
        requires
            old(self).wf(),
        ensures
            final(self).wf(),
            copy_host_to_device_effect(*old(self), *final(self), c),
    {
        if !matches!(self.device_state, DeviceState::Connected { .. }) {
            self.status = owned("No device connected");
            return Command::Nothing;
        }
        let (name, path, is_dir) = match self.host.selected() {
            Some(e) => (e.name.clone(), e.path.clone(), e.is_dir),
            None => return Command::Nothing,
        };
        if is_dir {
            self.status = owned("Skipping directory push for now");
            return Command::Nothing;
        }
        let existing = find_file(self.device_pane.entries_ref(), name.as_str());
        match existing {
            Some(i) => {
                let delete_id = self.device_pane.entries_ref()[i].id.clone();
                let mut message = String::new();
                push_str(&mut message, "\"");
                let short = truncate_middle(name.as_str(), DIALOG_FILENAME_MAX);
                push_str(&mut message, short.as_str());
                push_str(&mut message, "\" already exists on device. Overwrite?");
                self.dialog = ActiveDialog::Confirm(ConfirmDialog {
                    title: owned("Overwrite?"),
                    message,
                    on_confirm: ConfirmAction::OverwritePush { source: path, name, delete_id },
                });
                Command::Nothing
            },
            None => self.spawn_transfer(TransferKind::Push { source: path, name, delete_id: None }),
        }
    }

    /// Pulls the selected device file: asks the caller whether a host file
    /// of that name exists (see [`App::pull_target_checked`]).
    pub fn copy_device_to_host(&mut self) -> (c: Command<B, P>)
        requires
            old(self).wf(),
        ensures
            final(self).wf(),
            copy_device_to_host_effect(*old(self), *final(self), c),
    {
        if !matches!(self.device_state, DeviceState::Connected { .. }) {
            self.status = owned("No device connected");
            return Command::Nothing;
        }
        let (name, id, kind) = match self.device_pane.selected() {
            Some(e) => (e.name.clone(), e.id.clone(), e.kind),
            None => return Command::Nothing,
        };
        if kind == DeviceEntryKind::Directory {
            self.status = owned("Skipping directory pull for now");
            return Command::Nothing;
        }
        Command::CheckPullTarget { entry_id: id, filename: name }
    }

    /// Continues a pull once the caller knows whether `filename` exists in
    /// the host folder: asks before overwriting, else starts the transfer.
    pub fn pull_target_checked(&mut self, entry_id: String, filename: String, exists: bool) -> (c: Command<B, P>)
        requires
            old(self).wf(),
        ensures
            final(self).wf(),
            pull_target_checked_effect(*old(self), *final(self), entry_id, filename, exists, c),
    {
        if exists {
            let mut message = String::new();
            push_str(&mut message, "\"");
            let short = truncate_middle(filename.as_str(), DIALOG_FILENAME_MAX);
            push_str(&mut message, short.as_str());
            push_str(&mut message, "\" already exists on host. Overwrite?");
            self.dialog = ActiveDialog::Confirm(ConfirmDialog {
                title: owned("Overwrite?"),
                message,
                on_confirm: ConfirmAction::OverwritePull { entry_id, filename },
            });
            return Command::Nothing;
        }
        let target_dir = self.host_cwd.clone();
        self.spawn_transfer(TransferKind::Pull { entry_id, filename, target_dir })
    }

    /// Enters the selected folder of the focused pane.
    pub fn enter_selected(&mut self) -> (c: Command<B, P>)
        requires
            old(self).wf(),
        ensures
            final(self).wf(),
            enter_selected_effect(*old(self), *final(self), c),
    {
        match self.focus {
            FocusPane::Host => {
                let (name, path, is_dir) = match self.host.selected() {
                    Some(e) => (e.name.clone(), e.path.clone(), e.is_dir),
                    None => return Command::Nothing,
                };
                if !is_dir {
                    return Command::Nothing;
                }
                self.host.push_cursor(name);
                self.host_cwd = path;
                Command::ReloadHost(HostReload::EnterDir)
            },
            FocusPane::Device => {
                if !matches!(self.device_state, DeviceState::Connected { .. }) {
                    self.status = owned("No device connected");
                    return Command::Nothing;
                }
                let (name, id, kind) = match self.device_pane.selected() {
                    Some(e) => (e.name.clone(), e.id.clone(), e.kind),
                    None => return Command::Nothing,
                };
                if kind != DeviceEntryKind::Directory {
                    return Command::Nothing;
                }
                self.device_pane.push_cursor(name.clone());
                let ghost before = self.device_state->backend;
                let ghost mut answered: Result<(), String> = Ok(());
                let outcome = match &mut self.device_state {
                    DeviceState::Connected { backend, cache } => {
                        let answer = backend.enter_dir(id.as_str(), name.as_str());
                        proof {
                            answered = answer;
                            assert(entered_dir(before, id@, name@, answer));
                        }
                        match answer {
                            Ok(()) => {
                                let p = backend.current_path();
                                proof {
                                    assert(reports_path(*backend, p@));
                                }
                                cache.path = owned(p);
                                Ok(joined("Device: ", cache.path.as_str()))
                            },
                            Err(e) => Err(e),
                        }
                    },
                    _ => return Command::Nothing,
                };
                proof {
                    assert(entered_dir(before, id@, name@, answered));
                    assert(outcome is Ok ==> answered is Ok && reports_path(
                        self.device_state->backend,
                        self.device_state->Connected_cache.path@,
                    ));
                    assert(outcome is Err ==> answered == Result::<(), String>::Err(outcome->Err_0));
                    if answered is Ok {
                        let u: () = answered->Ok_0;
                        assert(u == ());
                        assert(answered == Result::<(), String>::Ok(()));
                    }
                }
                match outcome {
                    Ok(status) => {
                        self.status = status;
                        self.device_pane.set_selected(0);
                        match self.spawn_device_listing(None) {
                            Some(job) => Command::StartListing(job),
                            None => Command::Nothing,
                        }
                    },
                    Err(e) => {
                        self.status = error_status(e.as_str());
                        Command::Nothing
                    },
                }
            },
        }
    }

    /// Goes to the parent folder of the focused pane; for the host pane the
    /// caller finds the parent and reports it through [`App::host_went_up`].
    pub fn go_up(&mut self) -> (c: Command<B, P>)
        requires
            old(self).wf(),
        ensures
            final(self).wf(),
            go_up_effect(*old(self), *final(self), c),
    {
        match self.focus {
            FocusPane::Host => Command::ReloadHost(HostReload::GoUp),
            FocusPane::Device => {
                if !matches!(self.device_state, DeviceState::Connected { .. }) {
                    self.status = owned("No device connected");
                    return Command::Nothing;
                }
                let pop_name = self.device_pane.pop_cursor_name();
                let ghost before = self.device_state->backend;
                let ghost mut answered: Result<(), String> = Ok(());
                let outcome = match &mut self.device_state {
                    DeviceState::Connected { backend, cache } => {
                        let answer = backend.go_up();
                        proof {
                            answered = answer;
                            assert(went_up(before, answer));
                        }
                        match answer {
                            Ok(()) => {
                                let p = backend.current_path();
                                proof {
                                    assert(reports_path(*backend, p@));
                                }
                                cache.path = owned(p);
                                Ok(joined("Device: ", cache.path.as_str()))
                            },
                            Err(e) => Err(e),
                        }
                    },
                    _ => return Command::Nothing,
                };
                proof {
                    assert(went_up(before, answered));
                    assert(outcome is Ok ==> answered is Ok && reports_path(
                        self.device_state->backend,
                        self.device_state->Connected_cache.path@,
                    ));
                    assert(outcome is Err ==> answered == Result::<(), String>::Err(outcome->Err_0));
                    if answered is Ok {
                        let u: () = answered->Ok_0;
                        assert(u == ());
                        assert(answered == Result::<(), String>::Ok(()));
                    }
                }
                match outcome {
                    Ok(status) => {
                        self.status = status;
                        match self.spawn_device_listing(pop_name) {
                            Some(job) => Command::StartListing(job),
                            None => Command::Nothing,
                        }
                    },
                    Err(e) => {
                        self.status = error_status(e.as_str());
                        Command::Nothing
                    },
                }
            },
        }
    }

    /// Keys of the inspector: Esc, `i` or `q` close it; Down/`j` and Up/`k` scroll.
    pub fn handle_inspector_key(&mut self, key: Key)
        requires
            old(self).wf(),
        ensures
            final(self).wf(),
            final(self).host == old(self).host,
            final(self).device_pane == old(self).device_pane,
            inspector_key_effect(*old(self), *final(self), key),
    {
        let close = match &mut self.dialog {
            ActiveDialog::Inspector(data) => match key.code {
                KeyCode::Esc | KeyCode::Char('i') | KeyCode::Char('q') => true,
                KeyCode::Down | KeyCode::Char('j') => {
                    data.scroll_offset = if data.scroll_offset == usize::MAX { usize::MAX } else { data.scroll_offset + 1 };
                    false
                },
                KeyCode::Up | KeyCode::Char('k') => {
                    data.scroll_offset = if data.scroll_offset == 0 { 0 } else { data.scroll_offset - 1 };
                    false
                },
                _ => false,
            },
            _ => false,
        };
        if close {
            self.dialog = ActiveDialog::NoDialog;
        }
    }

    /// Keys of the text input dialog: editing keys change the text, Esc
    /// cancels and Enter submits.
    pub fn handle_text_input_key(&mut self, key: Key) -> (c: Command<B, P>)
        requires
            old(self).wf(),
            old(self).dialog matches ActiveDialog::TextInput(d) ==> byte_len(d.input@) + 4 <= usize::MAX,
        ensures
            final(self).wf(),
            final(self).host == old(self).host,
            final(self).device_pane == old(self).device_pane,
            text_input_key_effect(*old(self), *final(self), key, c),
    {
        let result = match &mut self.dialog {
            ActiveDialog::TextInput(dialog) => dialog.handle_key(key),
            _ => return Command::Nothing,
        };
        match result {
            TextInputResult::Consumed => Command::Nothing,
            TextInputResult::Cancel => {
                self.status = owned("Cancelled");
                self.dialog = ActiveDialog::NoDialog;
                Command::Nothing
            },
            TextInputResult::Submit(input) => {
                let mut prev = ActiveDialog::NoDialog;
                std::mem::swap(&mut prev, &mut self.dialog);
                let action = match prev {
                    ActiveDialog::TextInput(d) => d.on_submit,
                    _ => return Command::Nothing,
                };
                self.submit_text_input(action, input.as_str())
            },
        }
    }

    /// Keys of a confirmation dialog: Enter or `y` confirms, Esc or `n`
    /// cancels, other keys keep the dialog open.
    pub fn handle_confirm_key(&mut self, key: Key) -> (c: Command<B, P>)
        requires
            old(self).wf(),
        ensures
            final(self).wf(),
            final(self).host == old(self).host,
            final(self).device_pane == old(self).device_pane,
            confirm_key_effect(*old(self), *final(self), key, c),
    {
        if !matches!(self.dialog, ActiveDialog::Confirm(_)) {
            return Command::Nothing;
        }
        let mut prev = ActiveDialog::NoDialog;
        std::mem::swap(&mut prev, &mut self.dialog);
        let dialog = match prev {
            ActiveDialog::Confirm(d) => d,
            other => {
                self.dialog = other;
                return Command::Nothing;
            },
        };
        match key.code {
            KeyCode::Enter | KeyCode::Char('y') | KeyCode::Char('Y') => self.execute_confirm(dialog.on_confirm),
            KeyCode::Esc | KeyCode::Char('n') | KeyCode::Char('N') => {
                self.status = owned("Cancelled");
                Command::Nothing
            },
            _ => {
                self.dialog = ActiveDialog::Confirm(dialog);
                Command::Nothing
            },
        }
    }

    /// Keys accepted while the device pane is busy: quit, focus and help.
    pub fn handle_loading_key(&mut self, key: Key)
        requires
            old(self).wf(),
        ensures
            final(self).wf(),
            final(self).host == old(self).host,
            final(self).device_pane == old(self).device_pane,
            final(self).device_state == old(self).device_state,
            final(self).status == old(self).status,
            match key.code {
                KeyCode::Char('q') => final(self).dialog matches ActiveDialog::Confirm(d) && d.on_confirm is Quit,
                KeyCode::Char('c') if key.control => final(self).should_quit,
                KeyCode::Tab => final(self).focus != old(self).focus,
                KeyCode::Char('?') => final(self).show_help == !old(self).show_help,
                _ => final(self).dialog == old(self).dialog && final(self).focus == old(self).focus
                    && final(self).show_help == old(self).show_help && final(self).should_quit == old(self).should_quit,
            },
    {
        match key.code {
            KeyCode::Char('q') => self.confirm_quit(),
            KeyCode::Char('c') if key.control => self.should_quit = true,
            KeyCode::Tab => self.toggle_focus(),
            KeyCode::Char('?') => self.show_help = !self.show_help,
            _ => {},
        }
    }

    /// Keys of the panes when no dialog is open.
    pub fn handle_normal_key(&mut self, key: Key) -> (c: Command<B, P>)
        requires
            old(self).wf(),
        ensures
            final(self).wf(),
            normal_key_effect(*old(self), *final(self), key, c),
    {
        match key.code {
            KeyCode::Char('q') => {
                self.confirm_quit();
                Command::Nothing
            },
            KeyCode::Esc if self.show_help => {
                self.show_help = false;
                Command::Nothing
            },
            KeyCode::Tab => {
                self.toggle_focus();
                Command::Nothing
            },
            KeyCode::Char('?') => {
                self.show_help = !self.show_help;
                Command::Nothing
            },
            KeyCode::Char('r') => Command::ReloadHost(HostReload::Refresh),
            KeyCode::Up | KeyCode::Char('k') => {
                self.move_up();
                Command::Nothing
            },
            KeyCode::Down | KeyCode::Char('j') => {
                self.move_down();
                Command::Nothing
            },
            KeyCode::Enter | KeyCode::Right | KeyCode::Char('l') => self.enter_selected(),
            KeyCode::Backspace | KeyCode::Left | KeyCode::Char('h') => self.go_up(),
            KeyCode::Char('c') if key.control => {
                self.should_quit = true;
                Command::Nothing
            },
            KeyCode::Char('p') => self.copy_host_to_device(),
            KeyCode::Char('g') => self.copy_device_to_host(),
            KeyCode::Char('d') => {
                self.delete_selected();
                Command::Nothing
            },
            KeyCode::Char('m') => {
                self.mkdir_prompt();
                Command::Nothing
            },
            KeyCode::Char('R') => {
                self.rename_prompt();
                Command::Nothing
            },
            KeyCode::Char('i') => {
                self.open_inspector();
                Command::Nothing
            },
            _ => Command::Nothing,
        }
    }

    /// Handles a key press: the open dialog takes it first; while the device
    /// pane is busy and focused only quit, focus and help keys work;
    /// otherwise the pane keys apply.
    pub fn handle_key(&mut self, key: Key) -> (c: Command<B, P>)
        requires
            old(self).wf(),
            old(self).dialog matches ActiveDialog::TextInput(d) ==> byte_len(d.input@) + 4 <= usize::MAX,
        ensures
            final(self).wf(),
            match old(self).dialog {
                ActiveDialog::Info(_) => c is Nothing && final(self).pending_warning is None && match old(self).pending_warning {
                    Some(w) => final(self).dialog == ActiveDialog::<C, P>::Info(w),
                    None => final(self).dialog is NoDialog,
                },
                ActiveDialog::Transfer(_) => c is Nothing && final(self).dialog == old(self).dialog
                    && final(self).should_quit == (old(self).should_quit || (key.code == KeyCode::Char('c') && key.control)),
                ActiveDialog::NoDialog => if old(self).device_state.loading() && old(self).focus == FocusPane::Device {
                    c is Nothing && final(self).device_state == old(self).device_state
                } else {
                    normal_key_effect(*old(self), *final(self), key, c)
                },
                ActiveDialog::Inspector(_) => c is Nothing && inspector_key_effect(*old(self), *final(self), key),
                ActiveDialog::TextInput(_) => text_input_key_effect(*old(self), *final(self), key, c),
                ActiveDialog::Confirm(_) => confirm_key_effect(*old(self), *final(self), key, c),
            },
    {
        match &self.dialog {
            ActiveDialog::Inspector(_) => {
                self.handle_inspector_key(key);
                return Command::Nothing;
            },
            ActiveDialog::Info(_) => {
                let mut next = None;
                std::mem::swap(&mut next, &mut self.pending_warning);
                self.dialog = match next {
                    Some(w) => ActiveDialog::Info(w),
                    None => ActiveDialog::NoDialog,
                };
                return Command::Nothing;
            },
            ActiveDialog::TextInput(_) => {
                return self.handle_text_input_key(key);
            },
            ActiveDialog::Confirm(_) => {
                return self.handle_confirm_key(key);
            },
            ActiveDialog::Transfer(_) => {
                if key.code == KeyCode::Char('c') && key.control {
                    self.should_quit = true;
                }
                return Command::Nothing;
            },
            ActiveDialog::NoDialog => {},
        }
        if self.device_state.is_loading() && self.focus == FocusPane::Device {
            self.handle_loading_key(key);
            return Command::Nothing;
        }
        self.handle_normal_key(key)
    }
}

/// Whether `entries[k]` is the first device file named `name`.
pub open spec fn is_first_file_named(entries: Seq<DeviceEntry>, name: Seq<char>, k: int) -> bool {
    &&& 0 <= k < entries.len()
    &&& entries[k].name@ == name
    &&& entries[k].kind == DeviceEntryKind::File
    &&& forall|j: int| 0 <= j < k ==> !(entries[j].name@ == name && entries[j].kind == DeviceEntryKind::File)
}

/// Position of the first device file named `name`.
pub fn find_file(entries: &Vec<DeviceEntry>, name: &str) -> (r: Option<usize>)
    ensures
        match r {
            Some(i) => is_first_file_named(entries@, name@, i as int),
            None => forall|k: int| 0 <= k < entries@.len() ==> !(entries@[k].name@ == name@ && entries@[k].kind == DeviceEntryKind::File),
        },
{
    let mut i: usize = 0;
    while i < entries.len()
        invariant
            i <= entries@.len(),
            forall|k: int| 0 <= k < i ==> !(entries@[k].name@ == name@ && entries@[k].kind == DeviceEntryKind::File),
        decreases entries@.len() - i,
    {
        if entries[i].kind == DeviceEntryKind::File && crate::pane::same_text(entries[i].name.as_str(), name) {
            return Some(i);
        }
        i = i + 1;
    }
    None
}

/// Pushing a selected host file hands the upload that file's own path, never
/// another one: whether the push starts at once or waits behind the overwrite
/// question, the source is a clone of the selected entry's path and the upload
/// is named like the entry.
pub proof fn law_push_sends_selected_file<B, C, P: Clone>(a: App<B, C, P>, z: App<B, C, P>, c: Command<B, P>)
    requires
        copy_host_to_device_effect(a, z, c),
        a.device_state is Connected,
        a.host.selection() < a.host.entries_view().len(),
        !a.host.entries_view()[a.host.selection() as int].is_dir,
    ensures
        ({
            let e = a.host.entries_view()[a.host.selection() as int];
            ||| (c matches Command::StartTransfer(j) && (j.kind matches TransferKind::Push { source, name, .. }
                && vstd::pervasive::cloned(e.path, source) && name == e.name))
            ||| (c is Nothing && (z.dialog matches ActiveDialog::Confirm(d) && (d.on_confirm matches ConfirmAction::OverwritePush {
                source,
                name,
                ..
            } && vstd::pervasive::cloned(e.path, source) && name == e.name)))
        }),
{
}

/// A pull writes into the current host folder, the folder in which the
/// caller checked for an existing file: the pull started after that check,
/// and the one started by confirming the overwrite question, both target a
/// clone of the host folder the application is in.
pub proof fn law_pull_targets_current_host_folder<B: DeviceBackend, C, P: Clone>(
    a: App<B, C, P>,
    z: App<B, C, P>,
    entry_id: String,
    filename: String,
    c: Command<B, P>,
    z2: App<B, C, P>,
    c2: Command<B, P>,
)
    requires
        a.device_state is Connected,
        pull_target_checked_effect(a, z, entry_id, filename, false, c),
        confirm_effect(a, z2, ConfirmAction::OverwritePull { entry_id, filename }, c2),
    ensures
        c matches Command::StartTransfer(j) && (j.kind matches TransferKind::Pull { target_dir, .. }
            && vstd::pervasive::cloned(a.host_cwd, target_dir)),
        c2 matches Command::StartTransfer(j) && (j.kind matches TransferKind::Pull { target_dir, .. }
            && vstd::pervasive::cloned(a.host_cwd, target_dir)),
{
}

/// Going up on the device pane asks the backend itself to go up, exactly
/// once: when it works, the relisting job carries the backend that answered
/// and the path that backend reports afterwards, which is also the path named
/// in the status; when it fails, the status carries the backend's own error.
pub proof fn law_device_go_up_moves_the_backend<B: DeviceBackend, C, P>(a: App<B, C, P>, z: App<B, C, P>, c: Command<B, P>)
    requires
        go_up_effect(a, z, c),
        a.focus == FocusPane::Device,
        a.device_state is Connected,
    ensures
        c matches Command::StartListing(j) ==> went_up(a.device_state->backend, Ok(()))
            && reports_path(j.backend, j.cache.path@) && z.status@ == "Device: "@ + j.cache.path@,
        !(c is StartListing) ==> exists|e: String| went_up(a.device_state->backend, Err(e)) && z.status@ == error_text(e@),
{
}

/// Entering a device folder asks the backend to enter the selected folder by
/// its object id and name; the relisting job carries the path the backend
/// reports afterwards.
pub proof fn law_device_enter_uses_selected_folder<B: DeviceBackend, C, P: Clone>(
    a: App<B, C, P>,
    z: App<B, C, P>,
    c: Command<B, P>,
)
    requires
        enter_selected_effect(a, z, c),
        a.focus == FocusPane::Device,
        a.device_state is Connected,
        a.device_pane.selection() < a.device_pane.entries_view().len(),
        a.device_pane.entries_view()[a.device_pane.selection() as int].kind == DeviceEntryKind::Directory,
    ensures
        ({
            let e = a.device_pane.entries_view()[a.device_pane.selection() as int];
            &&& c matches Command::StartListing(j) ==> entered_dir(a.device_state->backend, e.id@, e.name@, Ok(()))
                && reports_path(j.backend, j.cache.path@)
            &&& !(c is StartListing) ==> exists|m: String| entered_dir(a.device_state->backend, e.id@, e.name@, Err(m))
        }),
{
}

/// Submitting a rename passes the backend exactly the typed name for exactly
/// the entry the dialog was opened on, and the status names what was asked
/// for only when the backend accepted it; a new folder is created under
/// exactly the typed name.
pub proof fn law_submit_passes_input_unchanged<B: DeviceBackend, C, P>(
    a: App<B, C, P>,
    z: App<B, C, P>,
    entry_id: String,
    input: Seq<char>,
    c: Command<B, P>,
    z2: App<B, C, P>,
    c2: Command<B, P>,
)
    requires
        a.device_state is Connected,
        submit_effect(a, z, TextInputAction::Rename { entry_id }, input, c),
        submit_effect(a, z2, TextInputAction::Mkdir, input, c2),
    ensures
        exists|r: Result<(), String>| renamed(a.device_state->backend, entry_id@, input, r) && (r is Ok <==> c is StartListing)
            && (r is Ok ==> z.status@ == "Renamed to "@ + input),
        exists|r: Result<(), String>| made_dir(a.device_state->backend, input, r) && (r is Ok <==> c2 is StartListing)
            && (r is Ok ==> z2.status@ == "Created directory "@ + input),
{
}

/// A finished listing caches the name and path the listed backend reports,
/// and a first connection names that device in the status.
pub proof fn law_listing_caches_what_backend_reports<B: DeviceBackend, C, P>(
    a: App<B, C, P>,
    z: App<B, C, P>,
    backend: B,
    entries: Vec<DeviceEntry>,
    storage_info: Option<(u64, u64)>,
    warning: Option<String>,
)
    requires
        listing_done(a, z, backend, Ok(entries), storage_info, warning),
    ensures
        z.device_state == (DeviceState::<B, C>::Connected { backend, cache: z.device_state->Connected_cache }),
        reports_name(backend, z.device_state->Connected_cache.name@),
        reports_path(backend, z.device_state->Connected_cache.path@),
        a.device_state is Connecting ==> exists|n: &str| n@ == z.device_state->Connected_cache.name@
            && call_ensures(B::device_name, (&backend,), n) && z.status@ == "Connected to "@ + n@,
{
}

/// An overwriting push deletes the old device object first and uploads the
/// host file only when the delete succeeded: the first call is `delete` with
/// the old object's id; the upload, if any, is `push_file` with the source,
/// made after a successful delete; a failed delete is the transfer's result
/// and nothing runs after it.
pub proof fn law_overwrite_deletes_then_uploads<B: DeviceBackend>(
    source: String,
    name: String,
    id: String,
    r: Result<(), String>,
    log: Seq<(TransferOp<String>, Result<(), String>)>,
    states: Seq<B>,
)
    requires
        transfer_outcome(transfer_plan(TransferKind::Push { source, name, delete_id: Some(id) }), log, r),
        transfer_calls(log, states),
    ensures
        deleted(states[0], id@, log[0].1),
        log[0].1 is Err ==> log.len() == 1 && r == log[0].1,
        log.len() == 2 ==> log[0].1 is Ok && pushed(states[1], source@, log[1].1) && r == log[1].1,
        log.len() <= 2,
{
    assert(op_call(states[0], log[0].0, log[0].1));
    if log.len() == 2 {
        assert(op_call(states[1], log[1].0, log[1].1));
    }
}

} // verus!
