//! Entries of the host and device panes, and the device-side folder path.
use vstd::prelude::*;
use crate::pane::Named;
use crate::text::{decimal, decimal_string, push_str, chars_of};

verus! {

/// Kind of a device object.
#[derive(Debug, Clone, Copy, PartialEq, Eq, Structural)]
pub enum DeviceEntryKind {
    Directory,
    File,
}

/// A file or folder on the host; `P` is the host's path type.
#[derive(Debug, Clone)]
pub struct HostEntry<P> {
    pub name: String,
    pub path: P,
    pub is_dir: bool,
    pub size: Option<u64>,
}

/// An object on the device.
#[derive(Debug, Clone)]
pub struct DeviceEntry {
    /// Object handle, in decimal.
    pub id: String,
    pub name: String,
    pub kind: DeviceEntryKind,
    /// Size in bytes; `None` for folders.
    pub size: Option<u64>,
}

impl<P> Named for HostEntry<P> {
    open spec fn name_view(&self) -> Seq<char> {
        self.name@
    }

    fn name(&self) -> (r: &str) {
        self.name.as_str()
    }
}

impl Named for DeviceEntry {
    open spec fn name_view(&self) -> Seq<char> {
        self.name@
    }

    fn name(&self) -> (r: &str) {
        self.name.as_str()
    }
}

/// The pane entry for a device object with handle `handle`.
pub fn entry_from_object(handle: u32, filename: String, is_folder: bool, size: u64) -> (e: DeviceEntry)
    ensures
        e.id@ == decimal(handle as nat),
        e.name == filename,
        e.kind == (if is_folder { DeviceEntryKind::Directory } else { DeviceEntryKind::File }),
        e.size == (if is_folder { None } else { Some(size) }),
{
    DeviceEntry {
        id: decimal_string(handle as u64),
        size: if is_folder { None } else { Some(size) },
        kind: if is_folder { DeviceEntryKind::Directory } else { DeviceEntryKind::File },
        name: filename,
    }
}

/// Why a decimal object handle was rejected (the three ways integer parsing fails).
#[derive(Debug, Clone, Copy, PartialEq, Eq, Structural)]
pub enum ParseFault {
    /// Nothing to parse.
    Empty,
    /// A character that is not a decimal digit.
    InvalidDigit,
    /// The number does not fit in 32 bits.
    Overflow,
}

/// Value of the decimal digit `c`, if it is one.
pub open spec fn digit_value(c: char) -> Option<nat> {
    if '0' <= c && c <= '9' {
        Some((c as u32 - '0' as u32) as nat)
    } else {
        None
    }
}

/// Parses the digits `s` left to right onto `acc`, as unsigned 32-bit parsing does:
/// the first non-digit or the first overflow ends it.
pub open spec fn parse_digits(acc: nat, s: Seq<char>) -> Result<nat, ParseFault>
    decreases s.len(),
{
    if s.len() == 0 {
        Ok(acc)
    } else {
        match digit_value(s[0]) {
            None => Err(ParseFault::InvalidDigit),
            Some(d) => if acc * 10 + d > u32::MAX {
                Err(ParseFault::Overflow)
            } else {
                parse_digits(acc * 10 + d, s.drop_first())
            },
        }
    }
}

/// Unsigned 32-bit decimal parsing: an optional leading `+`, then at least one digit.
pub open spec fn parse_u32_spec(s: Seq<char>) -> Result<nat, ParseFault> {
    if s.len() == 0 {
        Err(ParseFault::Empty)
    } else if s == seq!['+'] {
        Err(ParseFault::InvalidDigit)
    } else if s[0] == '+' {
        parse_digits(0, s.drop_first())
    } else {
        parse_digits(0, s)
    }
}

proof fn lemma_parse_digits_bound(acc: nat, s: Seq<char>)
    requires
        acc <= u32::MAX,
    ensures
        parse_digits(acc, s) matches Ok(v) ==> v <= u32::MAX,
    decreases s.len(),
{
    if s.len() > 0 {
        if let Some(d) = digit_value(s[0]) {
            if acc * 10 + d <= u32::MAX {
                lemma_parse_digits_bound(acc * 10 + d, s.drop_first());
            }
        }
    }
}

/// Parses an object handle written in decimal.
pub fn parse_handle(s: &str) -> (r: Result<u32, ParseFault>)
    ensures
        match parse_u32_spec(s@) {
            Ok(v) => r == Ok::<u32, ParseFault>(v as u32),
            Err(f) => r == Err::<u32, ParseFault>(f),
        },
{
    let cs = chars_of(s);
    if cs.len() == 0 {
        return Err(ParseFault::Empty);
    }
    if cs.len() == 1 && cs[0] == '+' {
        assert(s@ =~= seq!['+']);
        return Err(ParseFault::InvalidDigit);
    }
    assert(!(s@ =~= seq!['+']) ==> s@ != seq!['+']);
    let start: usize = if cs[0] == '+' { 1 } else { 0 };
    let ghost digits = cs@.subrange(start as int, cs@.len() as int);
    assert(digits =~= if cs@[0] == '+' { s@.drop_first() } else { s@ });
    assert(parse_u32_spec(s@) == parse_digits(0, digits));
    proof {
        lemma_parse_digits_bound(0, digits);
    }
    let mut acc: u32 = 0;
    let mut i: usize = start;
    while i < cs.len()
        invariant
            start <= i <= cs@.len(),
            parse_digits(0, digits) == parse_digits(acc as nat, cs@.subrange(i as int, cs@.len() as int)),
            digits == cs@.subrange(start as int, cs@.len() as int),
            parse_u32_spec(s@) == parse_digits(0, digits),
            parse_digits(0, digits) matches Ok(v) ==> v <= u32::MAX,
        decreases cs@.len() - i,
    {
        let ghost rest = cs@.subrange(i as int, cs@.len() as int);
        assert(rest.drop_first() =~= cs@.subrange(i + 1, cs@.len() as int));
        assert(rest[0] == cs@[i as int]);
        let c = cs[i];
        if c < '0' || c > '9' {
            assert(digit_value(rest[0]) is None);
            assert(parse_digits(acc as nat, rest) == Err::<nat, ParseFault>(ParseFault::InvalidDigit));
            return Err(ParseFault::InvalidDigit);
        }
        let d = (c as u32) - ('0' as u32);
        assert(digit_value(rest[0]) == Some(d as nat));
        if acc > 429_496_729 || (acc == 429_496_729 && d > 5) {
            assert(parse_digits(acc as nat, rest) == Err::<nat, ParseFault>(ParseFault::Overflow));
            return Err(ParseFault::Overflow);
        }
        acc = acc * 10 + d;
        i = i + 1;
    }
    assert(cs@.subrange(cs@.len() as int, cs@.len() as int) =~= Seq::<char>::empty());
    Ok(acc)
}

/// The folder path shown for a stack of (handle, name) levels: "/" at the root,
/// otherwise "/" before each name below the root.
pub open spec fn path_text(stack: Seq<(Option<u32>, String)>) -> Seq<char>
    decreases stack.len(),
{
    if stack.len() <= 1 {
        "/"@
    } else if stack.len() == 2 {
        "/"@ + stack[1].1@
    } else {
        path_text(stack.drop_last()) + "/"@ + stack.last().1@
    }
}

/// The folder currently shown on the device: a stack of (handle, name) levels,
/// the root first, and its path text.
pub struct DevicePath {
    stack: Vec<(Option<u32>, String)>,
    path: String,
}

impl DevicePath {
    /// The levels, root first.
    pub closed spec fn levels(&self) -> Seq<(Option<u32>, String)> {
        self.stack@
    }

    /// The stack is never empty and the path text matches it.
    pub closed spec fn wf(&self) -> bool {
        &&& self.stack@.len() >= 1
        &&& self.path@ == path_text(self.stack@)
    }

    /// The root folder.
    pub fn new() -> (p: Self)
        ensures
            p.wf(),
            p.levels().len() == 1,
            p.levels()[0].0 is None,
    {
        let mut stack: Vec<(Option<u32>, String)> = Vec::new();
        let mut root = String::new();
        push_str(&mut root, "/");
        stack.push((None, root));
        let mut path = String::new();
        push_str(&mut path, "/");
        DevicePath { stack, path }
    }

    /// Handle of the current folder (`None` at the root).
    pub fn current_handle(&self) -> (h: Option<u32>)
        requires
            self.wf(),
        ensures
            h == self.levels().last().0,
    {
        self.stack[self.stack.len() - 1].0
    }

    /// The path text of the current folder.
    pub fn current_path(&self) -> (s: &str)
        requires
            self.wf(),
        ensures
            s@ == path_text(self.levels()),
    {
        self.path.as_str()
    }

    fn rebuild_path(&mut self)
        requires
            old(self).stack@.len() >= 1,
        ensures
            final(self).wf(),
            final(self).levels() == old(self).levels(),
    {
        let mut path = String::new();
        if self.stack.len() <= 1 {
            push_str(&mut path, "/");
        } else {
            let mut i: usize = 1;
            while i < self.stack.len()
                invariant
                    1 <= i <= self.stack@.len(),
                    self.stack@.len() >= 2,
                    i == 1 ==> path@ == Seq::<char>::empty(),
                    i >= 2 ==> path@ == path_text(self.stack@.subrange(0, i as int)),
                decreases self.stack@.len() - i,
            {
                let ghost sub = self.stack@.subrange(0, i + 1);
                assert(sub.drop_last() =~= self.stack@.subrange(0, i as int));
                push_str(&mut path, "/");
                push_str(&mut path, self.stack[i].1.as_str());
                if i == 1 {
                    assert(path@ =~= "/"@ + sub[1].1@);
                }
                i = i + 1;
            }
            assert(self.stack@.subrange(0, self.stack@.len() as int) =~= self.stack@);
        }
        self.path = path;
    }

    /// Enters the child folder with decimal handle `entry_id` and name `name`.
    pub fn enter(&mut self, entry_id: &str, name: &str) -> (r: Result<(), ParseFault>)
        requires
            old(self).wf(),
        ensures
            final(self).wf(),
            match parse_u32_spec(entry_id@) {
                Ok(h) => r is Ok && final(self).levels().len() == old(self).levels().len() + 1
                    && final(self).levels().drop_last() == old(self).levels()
                    && final(self).levels().last().0 == Some(h as u32)
                    && final(self).levels().last().1@ == name@,
                Err(f) => r == Err::<(), ParseFault>(f) && final(self).levels() == old(self).levels(),
            },
    {
        let handle = match parse_handle(entry_id) {
            Ok(h) => h,
            Err(f) => return Err(f),
        };
        self.stack.push((Some(handle), name.to_owned()));
        self.rebuild_path();
        Ok(())
    }

    /// Goes to the parent folder (stays at the root).
    pub fn go_up(&mut self)
        requires
            old(self).wf(),
        ensures
            final(self).wf(),
            old(self).levels().len() > 1 ==> final(self).levels() == old(self).levels().drop_last(),
            old(self).levels().len() <= 1 ==> final(self).levels() == old(self).levels(),
    {
        if self.stack.len() > 1 {
            self.stack.pop();
            self.rebuild_path();
        }
    }
}

/// Entering a folder and going back up returns to the same folder: the same
/// levels, hence the same handle and path text.
pub proof fn lemma_enter_then_up(levels: Seq<(Option<u32>, String)>, h: u32, name: String)
    requires
        levels.len() >= 1,
    ensures
        ({
            let entered = levels.push((Some(h), name));
            &&& entered.len() > 1
            &&& entered.drop_last() == levels
            &&& path_text(entered.drop_last()) == path_text(levels)
        }),
{
    assert(levels.push((Some(h), name)).drop_last() =~= levels);
}

} // verus!
