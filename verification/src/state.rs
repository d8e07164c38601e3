//! Application state types: focus, device connection state, dialogs, and
//! the device backend interface the application drives.
use vstd::prelude::*;
use crate::entries::DeviceEntry;
use crate::textinput::TextInputDialog;
use crate::text::push_str;

verus! {

/// Which pane has the keyboard focus.
#[derive(Debug, Clone, Copy, PartialEq, Eq, Structural)]
pub enum FocusPane {
    Host,
    Device,
}

/// Device facts kept while the backend is busy elsewhere.
pub struct DeviceCache {
    pub name: String,
    pub path: String,
    /// (free, total) bytes of the storage.
    pub storage_info: Option<(u64, u64)>,
}

/// Message from a device listing worker; `B` is the backend type.
pub enum ListingMsg<B> {
    Progress { fetched: usize, total: usize },
    Done {
        backend: B,
        result: Result<Vec<DeviceEntry>, String>,
        storage_info: Option<(u64, u64)>,
        warning: Option<String>,
    },
    InitFailed(String),
}

/// A listing in progress; `C` is the channel the worker answers on.
pub struct LoadingState<C> {
    pub rx: C,
    pub progress: Option<(usize, usize)>,
    pub spinner_tick: usize,
    pub cache: DeviceCache,
    pub selected_name: Option<String>,
}

/// Connection state of the device pane.
pub enum DeviceState<B, C> {
    Connecting { rx: C, spinner_tick: usize },
    Loading(Box<LoadingState<C>>),
    Connected { backend: B, cache: DeviceCache },
    Transferring { cache: DeviceCache },
    Disconnected { error: Option<String> },
}

/// Spinner advance with wrap-around.
pub open spec fn next_tick(t: usize) -> usize {
    if t == usize::MAX {
        0
    } else {
        (t + 1) as usize
    }
}

fn wrapping_tick(t: usize) -> (r: usize)
    ensures
        r == next_tick(t),
{
    if t == usize::MAX {
        0
    } else {
        t + 1
    }
}

impl<B, C> DeviceState<B, C> {
    /// A worker is busy with the device (connecting, listing or transferring).
    pub open spec fn loading(&self) -> bool {
        self is Connecting || self is Loading || self is Transferring
    }

    /// Whether a worker is busy with the device.
    pub fn is_loading(&self) -> (r: bool)
        ensures
            r == self.loading(),
    {
        match self {
            DeviceState::Connecting { .. } => true,
            DeviceState::Loading(_) => true,
            DeviceState::Transferring { .. } => true,
            _ => false,
        }
    }

    /// Advances the spinner of a connecting or loading pane.
    pub fn tick_spinner(&mut self)
        ensures
            match *old(self) {
                DeviceState::Connecting { rx, spinner_tick } => *final(self) == (DeviceState::<B, C>::Connecting {
                    rx,
                    spinner_tick: next_tick(spinner_tick),
                }),
                DeviceState::Loading(s) => *final(self) == DeviceState::<B, C>::Loading(
                    Box::new(LoadingState { spinner_tick: next_tick(s.spinner_tick), ..*s }),
                ),
                _ => *final(self) == *old(self),
            },
    {
        match self {
            DeviceState::Connecting { spinner_tick, .. } => {
                *spinner_tick = wrapping_tick(*spinner_tick);
            },
            DeviceState::Loading(state) => {
                state.spinner_tick = wrapping_tick(state.spinner_tick);
            },
            _ => {},
        }
    }
}

/// Direction of a transfer.
#[derive(Debug, Clone, Copy, PartialEq, Eq, Structural)]
pub enum TransferDirection {
    Pushing,
    Pulling,
}

/// The label shown for a transfer direction.
pub open spec fn direction_label(d: TransferDirection) -> Seq<char> {
    match d {
        TransferDirection::Pushing => "Pushing"@,
        TransferDirection::Pulling => "Pulling"@,
    }
}

impl TransferDirection {
    /// "Pushing" or "Pulling".
    pub fn label(&self) -> (s: &'static str)
        ensures
            s@ == direction_label(*self),
    {
        match self {
            TransferDirection::Pushing => "Pushing",
            TransferDirection::Pulling => "Pulling",
        }
    }
}

/// A transfer to start; `P` is the host path type.
pub enum TransferKind<P> {
    /// Upload the host file `source` (named `name`), deleting the device
    /// object `delete_id` first when overwriting.
    Push { source: P, name: String, delete_id: Option<String> },
    /// Download device object `entry_id` as `filename` into `target_dir`.
    Pull { entry_id: String, filename: String, target_dir: P },
}

/// Message from a transfer worker.
pub enum TransferMsg<B> {
    Done { backend: B, result: Result<(), String>, storage_info: Option<(u64, u64)> },
}

/// The dialog shown while a transfer runs.
pub struct TransferDialog<C> {
    /// The channel the worker answers on, once the worker has started.
    pub rx: Option<C>,
    pub filename: String,
    pub direction: TransferDirection,
    pub spinner_tick: usize,
}

/// A message dialog closed by any key.
pub struct InfoDialog {
    pub title: String,
    pub message: String,
}

/// What a confirmation dialog does on "yes".
pub enum ConfirmAction<P> {
    OverwritePush { source: P, name: String, delete_id: String },
    OverwritePull { entry_id: String, filename: String },
    Delete { entry_id: String, name: String },
    Quit,
}

/// A yes/no dialog.
pub struct ConfirmDialog<P> {
    pub title: String,
    pub message: String,
    pub on_confirm: ConfirmAction<P>,
}

/// One MTP property shown by the inspector.
pub struct InspectorProperty {
    pub code: u16,
    pub name: String,
    pub value: String,
    pub is_error: bool,
}

/// Object metadata shown by the inspector.
pub struct InspectorData {
    pub object_handle: String,
    pub filename: String,
    pub format: String,
    pub size: String,
    pub storage_id: String,
    pub parent_id: String,
    pub protection: String,
    pub created: Option<String>,
    pub modified: Option<String>,
    pub keywords: String,
    pub image_dimensions: Option<String>,
    pub thumb_dimensions: Option<String>,
    pub properties: Vec<InspectorProperty>,
    pub scroll_offset: usize,
}

/// The dialog on top of the panes.
pub enum ActiveDialog<C, P> {
    NoDialog,
    Confirm(ConfirmDialog<P>),
    TextInput(TextInputDialog),
    Info(InfoDialog),
    Inspector(Box<InspectorData>),
    Transfer(TransferDialog<C>),
}

/// A `String` holding the text `s`.
pub fn owned(s: &str) -> (r: String)
    ensures
        r@ == s@,
{
    let mut r = String::new();
    push_str(&mut r, s);
    assert(r@ =~= s@);
    r
}

/// The device as the application drives it: browsing, file operations and
/// storage figures. Errors are reported as their display text.
pub trait DeviceBackend {
    /// Manufacturer and model.
    fn device_name(&self) -> &str;

    /// Path of the current folder.
    fn current_path(&self) -> &str;

    /// Lists the current folder.
    fn list_current_dir(&self) -> Result<Vec<DeviceEntry>, String>;

    /// Enters child folder `entry_id` named `name`.
    fn enter_dir(&mut self, entry_id: &str, name: &str) -> Result<(), String>;

    /// Goes to the parent folder.
    fn go_up(&mut self) -> Result<(), String>;

    /// Downloads object `entry_id` as `filename` into the host folder `target_dir`.
    /// A backend without it reports that it is not implemented and stays as it was.
    fn pull_file(&mut self, entry_id: &str, filename: &str, target_dir: &str) -> (r: Result<(), String>)
        where Self: Sized,
        default_ensures
            r is Err && r->Err_0@ == "pull_file is not implemented yet"@,
            *final(self) == *old(self),
    {
        Err(owned("pull_file is not implemented yet"))
    }

    /// Uploads the host file `source` into the current folder.
    /// A backend without it reports that it is not implemented and stays as it was.
    fn push_file(&mut self, source: &str) -> (r: Result<(), String>)
        where Self: Sized,
        default_ensures
            r is Err && r->Err_0@ == "push_file is not implemented yet"@,
            *final(self) == *old(self),
    {
        Err(owned("push_file is not implemented yet"))
    }

    /// Creates folder `name` in the current folder.
    /// A backend without it reports that it is not implemented and stays as it was.
    fn mkdir(&mut self, name: &str) -> (r: Result<(), String>)
        where Self: Sized,
        default_ensures
            r is Err && r->Err_0@ == "mkdir is not implemented yet"@,
            *final(self) == *old(self),
    {
        Err(owned("mkdir is not implemented yet"))
    }

    /// Deletes object `entry_id`.
    /// A backend without it reports that it is not implemented and stays as it was.
    fn delete(&mut self, entry_id: &str) -> (r: Result<(), String>)
        where Self: Sized,
        default_ensures
            r is Err && r->Err_0@ == "delete is not implemented yet"@,
            *final(self) == *old(self),
    {
        Err(owned("delete is not implemented yet"))
    }

    /// Renames object `entry_id` to `new_name`.
    /// A backend without it reports that it is not implemented and stays as it was.
    fn rename(&mut self, entry_id: &str, new_name: &str) -> (r: Result<(), String>)
        where Self: Sized,
        default_ensures
            r is Err && r->Err_0@ == "rename is not implemented yet"@,
            *final(self) == *old(self),
    {
        Err(owned("rename is not implemented yet"))
    }

    /// Cached (free, total) bytes of the storage.
    fn storage_info(&self) -> Option<(u64, u64)>;

    /// Re-reads the storage figures from the device.
    fn refresh_storage_info(&mut self) -> Option<(u64, u64)>;

    /// Reads the metadata of object `entry_id` for the inspector.
    fn inspect_object(&self, entry_id: &str) -> Result<InspectorData, String>;
}

/// `b` answered `name` to one call of `device_name`.
pub open spec fn reports_name<B: DeviceBackend>(b: B, name: Seq<char>) -> bool {
    exists|r: &str| r@ == name && #[trigger] call_ensures(B::device_name, (&b,), r)
}

/// `b` answered `path` to one call of `current_path`.
pub open spec fn reports_path<B: DeviceBackend>(b: B, path: Seq<char>) -> bool {
    exists|r: &str| r@ == path && #[trigger] call_ensures(B::current_path, (&b,), r)
}

/// `b` answered `r` to one call of `list_current_dir`.
pub open spec fn listed<B: DeviceBackend>(b: B, r: Result<Vec<DeviceEntry>, String>) -> bool {
    call_ensures(B::list_current_dir, (&b,), r)
}

/// `go_up` was called on `before` and answered `r`.
pub open spec fn went_up<B: DeviceBackend>(before: B, r: Result<(), String>) -> bool {
    exists|m: &mut B| mut_ref_current(m) == before && #[trigger] call_ensures(B::go_up, (m,), r)
}

/// `enter_dir` was called on `before` with the object id `id` and the name
/// `name`, and answered `r`.
pub open spec fn entered_dir<B: DeviceBackend>(before: B, id: Seq<char>, name: Seq<char>, r: Result<(), String>) -> bool {
    exists|m: &mut B, i: &str, n: &str|
        mut_ref_current(m) == before && i@ == id && n@ == name && #[trigger] call_ensures(B::enter_dir, (m, i, n), r)
}

/// `mkdir` was called on `before` with the name `name`, and answered `r`.
pub open spec fn made_dir<B: DeviceBackend>(before: B, name: Seq<char>, r: Result<(), String>) -> bool {
    exists|m: &mut B, n: &str| mut_ref_current(m) == before && n@ == name && #[trigger] call_ensures(B::mkdir, (m, n), r)
}

/// `rename` was called on `before` for object `id` with the new name
/// `new_name`, and answered `r`.
pub open spec fn renamed<B: DeviceBackend>(before: B, id: Seq<char>, new_name: Seq<char>, r: Result<(), String>) -> bool {
    exists|m: &mut B, i: &str, n: &str|
        mut_ref_current(m) == before && i@ == id && n@ == new_name && #[trigger] call_ensures(B::rename, (m, i, n), r)
}

/// `delete` was called on `before` for object `id`, and answered `r`.
pub open spec fn deleted<B: DeviceBackend>(before: B, id: Seq<char>, r: Result<(), String>) -> bool {
    exists|m: &mut B, i: &str| mut_ref_current(m) == before && i@ == id && #[trigger] call_ensures(B::delete, (m, i), r)
}

/// `push_file` was called on `before` with the host file `source`, and answered `r`.
pub open spec fn pushed<B: DeviceBackend>(before: B, source: Seq<char>, r: Result<(), String>) -> bool {
    exists|m: &mut B, f: &str| mut_ref_current(m) == before && f@ == source && #[trigger] call_ensures(B::push_file, (m, f), r)
}

/// `pull_file` was called on `before` for object `id`, saved as `filename` in
/// the host folder `target_dir`, and answered `r`.
pub open spec fn pulled<B: DeviceBackend>(
    before: B,
    id: Seq<char>,
    filename: Seq<char>,
    target_dir: Seq<char>,
    r: Result<(), String>,
) -> bool {
    exists|m: &mut B, i: &str, f: &str, t: &str|
        mut_ref_current(m) == before && i@ == id && f@ == filename && t@ == target_dir
            && #[trigger] call_ensures(B::pull_file, (m, i, f, t), r)
}

/// `inspect_object` was called on `b` for object `id`, and answered `r`.
pub open spec fn inspected<B: DeviceBackend>(b: B, id: Seq<char>, r: Result<InspectorData, String>) -> bool {
    exists|i: &str| i@ == id && #[trigger] call_ensures(B::inspect_object, (&b, i), r)
}

/// `b` answered `info` to one call of `storage_info`.
pub open spec fn reports_storage<B: DeviceBackend>(b: B, info: Option<(u64, u64)>) -> bool {
    call_ensures(B::storage_info, (&b,), info)
}

} // verus!
