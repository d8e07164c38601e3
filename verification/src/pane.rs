//! A scrollable list pane: entries, the selected row, and a stack of names
//! to reselect when going back up.
use vstd::prelude::*;

verus! {

/// An entry that has a display name.
pub trait Named {
    /// The name, as characters.
    spec fn name_view(&self) -> Seq<char>;

    /// The name.
    fn name(&self) -> (r: &str)
        ensures
            r@ == self.name_view();
}

/// Whether two strings hold the same characters.
pub fn same_text(a: &str, b: &str) -> (r: bool)
    ensures
        r == (a@ == b@),
{
    a.to_owned() == b.to_owned()
}

/// Index of the first entry named `name`, if any.
pub open spec fn first_named<T: Named>(entries: Seq<T>, name: Seq<char>) -> Option<int> {
    if exists|i: int| 0 <= i < entries.len() && entries[i].name_view() == name {
        Some(
            choose|i: int|
                0 <= i < entries.len() && entries[i].name_view() == name && forall|k: int|
                    0 <= k < i ==> entries[k].name_view() != name,
        )
    } else {
        None
    }
}

/// `selected` clamped into `0..len` (0 for an empty list).
pub open spec fn clamped(selected: nat, len: nat) -> nat {
    if len == 0 {
        0
    } else if selected < len {
        selected
    } else {
        (len - 1) as nat
    }
}

/// The selection points at an entry, or is 0 in an empty list.
pub open spec fn valid_selection(selected: nat, len: nat) -> bool {
    (len == 0 && selected == 0) || selected < len
}

/// The selection after looking for `name`: its first position, else the
/// current selection clamped.
pub open spec fn reselected<T: Named>(entries: Seq<T>, selected: nat, name: Option<Seq<char>>) -> nat {
    match name {
        Some(n) => match first_named(entries, n) {
            Some(i) => i as nat,
            None => clamped(selected, entries.len()),
        },
        None => clamped(selected, entries.len()),
    }
}

/// Position of the first entry named `n`.
pub fn find_named<T: Named>(entries: &Vec<T>, n: &str) -> (r: Option<usize>)
    ensures
        match r {
            Some(i) => first_named(entries@, n@) == Some(i as int) && i < entries@.len(),
            None => first_named(entries@, n@) is None,
        },
{
    let mut i: usize = 0;
    while i < entries.len()
        invariant
            i <= entries@.len(),
            forall|k: int| 0 <= k < i ==> entries@[k].name_view() != n@,
        decreases entries@.len() - i,
    {
        if same_text(entries[i].name(), n) {
            assert(first_named(entries@, n@) == Some(i as int)) by {
                let j = choose|j: int|
                    0 <= j < entries@.len() && entries@[j].name_view() == n@ && forall|k: int|
                        0 <= k < j ==> entries@[k].name_view() != n@;
                if j < i {
                } else if j > i {
                }
            };
            return Some(i);
        }
        i = i + 1;
    }
    None
}

/// The row below `sel` in a list of `len` rows, stopping at the last one.
pub open spec fn next_row(sel: nat, len: nat) -> nat {
    if len == 0 {
        0
    } else if sel + 1 < len {
        sel + 1
    } else {
        (len - 1) as nat
    }
}

/// The row above `sel`, stopping at the first one.
pub open spec fn prev_row(sel: nat, len: nat) -> nat {
    if len == 0 || sel == 0 {
        0
    } else {
        (sel - 1) as nat
    }
}

/// Moving keeps the selection on a row, and a move down that moved is undone
/// by a move up.
pub proof fn lemma_moves_stay_in_list(sel: nat, len: nat)
    ensures
        valid_selection(next_row(sel, len), len),
        valid_selection(sel, len) ==> valid_selection(prev_row(sel, len), len),
        sel + 1 < len ==> prev_row(next_row(sel, len), len) == sel,
{
}

/// Pane state: entries, selected row and the stack of names to reselect.
pub struct PaneState<T> {
    pub entries: Vec<T>,
    pub selected: usize,
    cursor_name_stack: Vec<String>,
}

impl<T: Named> PaneState<T> {
    /// The entries shown.
    pub closed spec fn entries_view(&self) -> Seq<T> {
        self.entries@
    }

    /// The selected row.
    pub closed spec fn selection(&self) -> nat {
        self.selected as nat
    }

    /// The names pushed when entering folders, innermost last.
    pub closed spec fn cursor_stack(&self) -> Seq<String> {
        self.cursor_name_stack@
    }

    /// The entries, read-only.
    pub fn entries_ref(&self) -> (r: &Vec<T>)
        ensures
            r@ == self.entries_view(),
    {
        &self.entries
    }

    /// Number of entries.
    pub fn len(&self) -> (n: usize)
        ensures
            n == self.entries_view().len(),
    {
        self.entries.len()
    }

    /// Replaces the entries, leaving the selection and the name stack alone.
    pub fn set_entries(&mut self, entries: Vec<T>)
        ensures
            final(self).entries_view() == entries@,
            final(self).selection() == old(self).selection(),
            final(self).cursor_stack() == old(self).cursor_stack(),
    {
        self.entries = entries;
    }

    /// Sets the selected row.
    pub fn set_selected(&mut self, selected: usize)
        ensures
            final(self).entries_view() == old(self).entries_view(),
            final(self).selection() == selected,
            final(self).cursor_stack() == old(self).cursor_stack(),
    {
        self.selected = selected;
    }

    /// A pane showing `entries` with the first row selected.
    pub fn new(entries: Vec<T>) -> (p: Self)
        ensures
            p.entries_view() == entries@,
            p.selection() == 0,
            p.cursor_stack() == Seq::<String>::empty(),
    {
        PaneState { entries, selected: 0, cursor_name_stack: Vec::new() }
    }

    /// Remembers `name` to reselect when coming back.
    pub fn push_cursor(&mut self, name: String)
        ensures
            final(self).cursor_stack() == old(self).cursor_stack().push(name),
            final(self).entries_view() == old(self).entries_view(),
            final(self).selection() == old(self).selection(),
    {
        self.cursor_name_stack.push(name);
    }

    /// Takes the innermost remembered name.
    pub fn pop_cursor_name(&mut self) -> (r: Option<String>)
        ensures
            old(self).cursor_stack().len() == 0 ==> r is None && final(self).cursor_stack()
                == old(self).cursor_stack(),
            old(self).cursor_stack().len() > 0 ==> r == Some(old(self).cursor_stack().last())
                && final(self).cursor_stack() == old(self).cursor_stack().drop_last(),
            final(self).entries_view() == old(self).entries_view(),
            final(self).selection() == old(self).selection(),
    {
        self.cursor_name_stack.pop()
    }

    /// Takes the innermost remembered name and selects the entry of that name
    /// (clamping the selection when there is none).
    pub fn pop_cursor(&mut self)
        ensures
            final(self).entries_view() == old(self).entries_view(),
            old(self).cursor_stack().len() == 0 ==> final(self).cursor_stack() == old(self).cursor_stack()
                && final(self).selection() == clamped(old(self).selection(), old(self).entries_view().len()),
            old(self).cursor_stack().len() > 0 ==> final(self).cursor_stack() == old(self).cursor_stack().drop_last()
                && final(self).selection() == reselected(old(self).entries_view(), old(self).selection(), Some(old(self).cursor_stack().last()@)),
            valid_selection(final(self).selection(), final(self).entries_view().len()),
    {
        match self.cursor_name_stack.pop() {
            Some(name) => self.restore_selection_by_name(Some(name.as_str())),
            None => self.clamp_selected(),
        }
    }

    /// A pane never holds more rows than `usize` counts.
    pub proof fn lemma_rows_fit(&self)
        ensures
            self.entries_view().len() <= usize::MAX,
    {
        assert(self.entries@.len() == self.entries.len());
    }

    /// Moves the selection one row down, stopping at the last row.
    pub fn select_next(&mut self)
        requires
            old(self).selection() < usize::MAX,
        ensures
            final(self).entries_view() == old(self).entries_view(),
            final(self).cursor_stack() == old(self).cursor_stack(),
            final(self).selection() == next_row(old(self).selection(), old(self).entries_view().len()),
    {
        if self.entries.len() == 0 {
            self.selected = 0;
        } else {
            let last = self.entries.len() - 1;
            self.selected = if self.selected + 1 < last { self.selected + 1 } else { last };
        }
    }

    /// Moves the selection one row up, stopping at the first row.
    pub fn select_prev(&mut self)
        ensures
            final(self).entries_view() == old(self).entries_view(),
            final(self).cursor_stack() == old(self).cursor_stack(),
            final(self).selection() == prev_row(old(self).selection(), old(self).entries_view().len()),
    {
        if self.entries.len() == 0 {
            self.selected = 0;
        } else {
            self.selected = if self.selected == 0 { 0 } else { self.selected - 1 };
        }
    }

    /// The selected entry, if the selection points at one.
    pub fn selected(&self) -> (r: Option<&T>)
        ensures
            self.selection() < self.entries_view().len() ==> r == Some(&self.entries_view()[self.selection() as int]),
            self.selection() >= self.entries_view().len() ==> r is None,
    {
        if self.selected < self.entries.len() {
            Some(&self.entries[self.selected])
        } else {
            None
        }
    }

    /// Clamps the selection into the list.
    pub fn clamp_selected(&mut self)
        ensures
            final(self).entries_view() == old(self).entries_view(),
            final(self).cursor_stack() == old(self).cursor_stack(),
            final(self).selection() == clamped(old(self).selection(), old(self).entries_view().len()),
            valid_selection(final(self).selection(), final(self).entries_view().len()),
    {
        if self.entries.len() == 0 {
            self.selected = 0;
        } else if self.selected >= self.entries.len() {
            self.selected = self.entries.len() - 1;
        }
    }

    /// Selects the first entry named `name`; without a name or a match, clamps.
    pub fn restore_selection_by_name(&mut self, name: Option<&str>)
        ensures
            final(self).entries_view() == old(self).entries_view(),
            final(self).cursor_stack() == old(self).cursor_stack(),
            final(self).selection() == reselected(
                old(self).entries_view(),
                old(self).selection(),
                match name {
                    Some(n) => Some(n@),
                    None => None,
                },
            ),
            valid_selection(final(self).selection(), final(self).entries_view().len()),
    {
        if let Some(n) = name {
            if let Some(i) = find_named(&self.entries, n) {
                self.selected = i;
                return;
            }
        }
        self.clamp_selected();
    }

    /// Replaces the entries, keeping the selection on the entry of the same name.
    pub fn update_entries(&mut self, new_entries: Vec<T>)
        ensures
            final(self).entries_view() == new_entries@,
            final(self).cursor_stack() == old(self).cursor_stack(),
            final(self).selection() == reselected(
                new_entries@,
                old(self).selection(),
                if old(self).selection() < old(self).entries_view().len() {
                    Some(old(self).entries_view()[old(self).selection() as int].name_view())
                } else {
                    None
                },
            ),
            valid_selection(final(self).selection(), final(self).entries_view().len()),
    {
        let prev: Option<String> = match self.selected() {
            Some(e) => Some(e.name().to_owned()),
            None => None,
        };
        self.entries = new_entries;
        match &prev {
            Some(n) => self.restore_selection_by_name(Some(n.as_str())),
            None => self.restore_selection_by_name(None),
        }
    }
}

/// Going into a folder and back out hands back the name remembered on the way
/// in and restores the stack: pushing then popping is the identity.
pub proof fn lemma_cursor_push_pop(stack: Seq<String>, name: String)
    ensures
        stack.push(name).len() > 0,
        stack.push(name).last() == name,
        stack.push(name).drop_last() == stack,
{
    assert(stack.push(name).drop_last() =~= stack);
}

/// Reselecting by name lands on an entry with that name whenever one exists,
/// and on a valid row in every case.
pub proof fn lemma_reselect_finds_name<T: Named>(entries: Seq<T>, selected: nat, name: Seq<char>)
    ensures
        valid_selection(reselected(entries, selected, Some(name)), entries.len()),
        (exists|i: int| 0 <= i < entries.len() && entries[i].name_view() == name) ==> entries[reselected(
            entries,
            selected,
            Some(name),
        ) as int].name_view() == name,
{
    if exists|i: int| 0 <= i < entries.len() && entries[i].name_view() == name {
        let w = choose|i: int| 0 <= i < entries.len() && entries[i].name_view() == name;
        lemma_first_exists(entries, name, w);
    }
}

proof fn lemma_first_exists<T: Named>(entries: Seq<T>, name: Seq<char>, w: int)
    requires
        0 <= w < entries.len(),
        entries[w].name_view() == name,
    ensures
        exists|i: int|
            0 <= i < entries.len() && entries[i].name_view() == name && forall|k: int|
                0 <= k < i ==> entries[k].name_view() != name,
    decreases w,
{
    if exists|k: int| 0 <= k < w && entries[k].name_view() == name {
        let k = choose|k: int| 0 <= k < w && entries[k].name_view() == name;
        lemma_first_exists(entries, name, k);
    } else {
        assert(forall|k: int| 0 <= k < w ==> entries[k].name_view() != name);
    }
}

} // verus!
