//! Directory listings on a device storage, with the device quirks of
//! Android (root listing through the "all objects" handle), Samsung (root
//! listing refused) and Fuji (objects of other folders returned for root).
use vstd::prelude::*;
use crate::text::{chars_of, contains_seq, contains_chars, lowercase, to_lowercase};

verus! {

/// Handle of the storage root (as a parent).
pub const HANDLE_ROOT: u32 = 0;
/// Handle that stands for all objects.
pub const HANDLE_ALL: u32 = 0xFFFF_FFFF;
/// Response code: the object handle is invalid.
pub const RESPONSE_INVALID_OBJECT_HANDLE: u16 = 0x2009;

/// Which listed objects are kept, by their parent handle.
#[derive(Debug, Clone, Copy, PartialEq, Eq, Structural)]
pub enum ParentFilter {
    /// Keep objects whose parent is exactly this handle.
    Exact(u32),
    /// Root of an Android device: keep parents 0 and 0xFFFFFFFF.
    AndroidRoot,
}

/// Whether `filter` keeps an object whose parent is `parent`.
pub open spec fn keeps(filter: Option<ParentFilter>, parent: u32) -> bool {
    match filter {
        None => true,
        Some(ParentFilter::Exact(p)) => parent == p,
        Some(ParentFilter::AndroidRoot) => parent == HANDLE_ROOT || parent == HANDLE_ALL,
    }
}

/// Computes [`keeps`].
pub fn filter_keeps(filter: Option<ParentFilter>, parent: u32) -> (r: bool)
    ensures
        r == keeps(filter, parent),
{
    match filter {
        None => true,
        Some(ParentFilter::Exact(p)) => parent == p,
        Some(ParentFilter::AndroidRoot) => parent == HANDLE_ROOT || parent == HANDLE_ALL,
    }
}

/// The vendor extension text marks an Android device: it contains "android.com",
/// compared in lower case.
pub open spec fn android_marker(desc: Seq<char>) -> bool {
    contains_seq(lowercase(desc), seq!['a', 'n', 'd', 'r', 'o', 'i', 'd', '.', 'c', 'o', 'm'])
}

/// Whether a device with this vendor extension descriptor is an Android device.
pub fn is_android(vendor_extension_desc: &str) -> (r: bool)
    ensures
        r == android_marker(vendor_extension_desc@),
{
    let lower = to_lowercase(vendor_extension_desc);
    let hay = chars_of(lower.as_str());
    let needle: Vec<char> = vec!['a', 'n', 'd', 'r', 'o', 'i', 'd', '.', 'c', 'o', 'm'];
    assert(needle@ =~= seq!['a', 'n', 'd', 'r', 'o', 'i', 'd', '.', 'c', 'o', 'm']);
    contains_chars(&hay, &needle)
}

/// The parent handle sent with GetObjectHandles to list `parent` (`None` is the root):
/// the root of an Android device is asked for with the all-objects handle.
pub open spec fn request_parent(parent: Option<u32>, android: bool) -> Option<u32> {
    if parent is None && android {
        Some(HANDLE_ALL)
    } else {
        parent
    }
}

/// The filter applied to the objects returned for `parent`.
pub open spec fn listing_filter(parent: Option<u32>, android: bool) -> ParentFilter {
    if parent is None && android {
        ParentFilter::AndroidRoot
    } else {
        ParentFilter::Exact(
            match parent {
                Some(p) => p,
                None => HANDLE_ROOT,
            },
        )
    }
}

/// How to list a folder: the parent handle to ask for and the filter to apply.
#[derive(Debug, Clone, Copy, PartialEq, Eq, Structural)]
pub struct ListingPlan {
    pub request_parent: Option<u32>,
    pub filter: ParentFilter,
}

/// Plans the listing of `parent` (`None` is the root).
pub fn plan_listing(parent: Option<u32>, android: bool) -> (p: ListingPlan)
    ensures
        p.request_parent == request_parent(parent, android),
        p.filter == listing_filter(parent, android),
{
    if parent.is_none() && android {
        ListingPlan { request_parent: Some(HANDLE_ALL), filter: ParentFilter::AndroidRoot }
    } else {
        let p = match parent {
            Some(p) => p,
            None => HANDLE_ROOT,
        };
        ListingPlan { request_parent: parent, filter: ParentFilter::Exact(p) }
    }
}

/// When the device refused the handle request with response code `code`:
/// the plan to fall back to (a root listing refused as an invalid handle is
/// retried recursively and filtered to root objects), or `None` to fail.
pub fn fallback_plan(parent: Option<u32>, code: u16) -> (p: Option<ListingPlan>)
    ensures
        p is Some <==> (code == RESPONSE_INVALID_OBJECT_HANDLE && parent is None),
        p is Some ==> p->Some_0 == (ListingPlan {
            request_parent: Some(HANDLE_ALL),
            filter: ParentFilter::AndroidRoot,
        }),
{
    if code == RESPONSE_INVALID_OBJECT_HANDLE && parent.is_none() {
        Some(ListingPlan { request_parent: Some(HANDLE_ALL), filter: ParentFilter::AndroidRoot })
    } else {
        None
    }
}

/// A listing in progress: the handles the device returned and how many
/// of them have been fetched.
pub struct ObjectListing {
    handles: Vec<u32>,
    cursor: usize,
    filter: Option<ParentFilter>,
}

impl ObjectListing {
    /// The handles, in the order the device returned them.
    pub closed spec fn handles(&self) -> Seq<u32> {
        self.handles@
    }

    /// How many handles have been processed.
    pub closed spec fn cursor(&self) -> nat {
        self.cursor as nat
    }

    /// The parent filter.
    pub closed spec fn filter(&self) -> Option<ParentFilter> {
        self.filter
    }

    /// The cursor never passes the end.
    pub closed spec fn wf(&self) -> bool {
        self.cursor <= self.handles@.len()
    }

    /// A listing of `handles`, none fetched yet.
    pub fn new(handles: Vec<u32>, filter: Option<ParentFilter>) -> (l: Self)
        ensures
            l.wf(),
            l.handles() == handles@,
            l.cursor() == 0,
            l.filter() == filter,
    {
        ObjectListing { handles, cursor: 0, filter }
    }

    /// Total number of handles returned by the device.
    pub fn total(&self) -> (n: usize)
        ensures
            n == self.handles().len(),
    {
        self.handles.len()
    }

    /// Number of handles processed so far (including filtered-out ones).
    pub fn fetched(&self) -> (n: usize)
        ensures
            n == self.cursor(),
    {
        self.cursor
    }

    /// The next handle whose object must be fetched, advancing the cursor;
    /// `None` once all handles are processed.
    pub fn next_handle(&mut self) -> (h: Option<u32>)
        requires
            old(self).wf(),
        ensures
            final(self).wf(),
            final(self).handles() == old(self).handles(),
            final(self).filter() == old(self).filter(),
            old(self).cursor() < old(self).handles().len() ==> h == Some(
                old(self).handles()[old(self).cursor() as int],
            ) && final(self).cursor() == old(self).cursor() + 1,
            old(self).cursor() >= old(self).handles().len() ==> h is None && final(self).cursor()
                == old(self).cursor(),
    {
        if self.cursor >= self.handles.len() {
            return None;
        }
        let h = self.handles[self.cursor];
        self.cursor = self.cursor + 1;
        Some(h)
    }

    /// Whether a fetched object with parent `parent` is yielded.
    pub fn accepts(&self, parent: u32) -> (r: bool)
        ensures
            r == keeps(self.filter(), parent),
    {
        filter_keeps(self.filter, parent)
    }
}

/// A recursive listing that found objects but no files at all is taken as a
/// failed native listing, to be redone by walking the folders.
pub fn needs_manual_walk(is_folder: &Vec<bool>) -> (r: bool)
    ensures
        r == (is_folder@.len() > 0 && forall|i: int| 0 <= i < is_folder@.len() ==> is_folder@[i]),
{
    let mut i: usize = 0;
    while i < is_folder.len()
        invariant
            i <= is_folder@.len(),
            forall|k: int| 0 <= k < i ==> is_folder@[k],
        decreases is_folder@.len() - i,
    {
        if !is_folder[i] {
            return false;
        }
        i = i + 1;
    }
    is_folder.len() > 0
}


/// What a recursive listing asks the device for: every object below the root
/// when the root is listed, otherwise everything below `parent`.
pub fn recursive_request(parent: Option<u32>) -> (r: Option<u32>)
    ensures
        r == (match parent {
            None => Some(HANDLE_ALL),
            Some(p) => Some(p),
        }),
{
    match parent {
        None => Some(HANDLE_ALL),
        Some(p) => Some(p),
    }
}

/// The folders among listed objects, as parents to list next, in listing order.
pub open spec fn child_folders(handles: Seq<u32>, is_folder: Seq<bool>) -> Seq<Option<u32>>
    decreases handles.len(),
{
    if handles.len() == 0 {
        Seq::empty()
    } else {
        let rest = child_folders(handles.drop_last(), is_folder.take(handles.len() - 1));
        if is_folder[handles.len() - 1] {
            rest.push(Some(handles.last()))
        } else {
            rest
        }
    }
}

/// A depth-first walk over a folder tree, listing one folder at a time: the
/// folders still to list, the next one last.
pub struct FolderWalk {
    pending: Vec<Option<u32>>,
}

impl FolderWalk {
    /// The folders still to list; the next one is the last.
    pub closed spec fn pending(&self) -> Seq<Option<u32>> {
        self.pending@
    }

    /// A walk that starts by listing `parent` (`None` is the root).
    pub fn new(parent: Option<u32>) -> (w: Self)
        ensures
            w.pending() == seq![parent],
    {
        let mut pending = Vec::new();
        pending.push(parent);
        FolderWalk { pending }
    }

    /// The next folder to list, or `None` when the walk is over.
    pub fn next_folder(&mut self) -> (f: Option<Option<u32>>)
        ensures
            old(self).pending().len() == 0 ==> f is None && final(self).pending() == old(self).pending(),
            old(self).pending().len() > 0 ==> f == Some(old(self).pending().last())
                && final(self).pending() == old(self).pending().drop_last(),
    {
        self.pending.pop()
    }

    /// Records the objects of a listed folder: its sub-folders are listed later.
    pub fn add_listed(&mut self, handles: &Vec<u32>, is_folder: &Vec<bool>)
        requires
            handles@.len() == is_folder@.len(),
        ensures
            final(self).pending() == old(self).pending() + child_folders(handles@, is_folder@),
    {
        let mut i: usize = 0;
        let ghost start = self.pending@;
        assert(handles@.take(0) =~= Seq::<u32>::empty());
        while i < handles.len()
            invariant
                i <= handles@.len() == is_folder@.len(),
                self.pending@ == start + child_folders(handles@.take(i as int), is_folder@.take(i as int)),
            decreases handles@.len() - i,
        {
            proof {
                let h = handles@.take(i + 1);
                let f = is_folder@.take(i + 1);
                assert(h.drop_last() =~= handles@.take(i as int));
                assert(f.take(h.len() - 1) =~= is_folder@.take(i as int));
            }
            if is_folder[i] {
                self.pending.push(Some(handles[i]));
            }
            i = i + 1;
        }
        assert(handles@.take(i as int) =~= handles@);
        assert(is_folder@.take(i as int) =~= is_folder@);
    }
}

} // verus!
