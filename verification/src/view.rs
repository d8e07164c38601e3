//! What the screen shows, as text and sizes: pane titles and rows, dialog
//! geometry, and the inspector's lines. Drawing them is left to the caller.
use vstd::prelude::*;
use crate::entries::{DeviceEntry, DeviceEntryKind, HostEntry};
use crate::format::{format_size, size_text};
use crate::state::{owned, DeviceCache, DeviceState, InspectorData, InspectorProperty};
use crate::text::{chars_of, decimal, decimal_string, hex, hex_string, push_char, push_str};
use crate::textinput::{byte_len, byte_len_of};

verus! {

/// A rectangle of terminal cells.
#[derive(Debug, Clone, Copy, PartialEq, Eq, Structural)]
pub struct Area {
    pub x: u16,
    pub y: u16,
    pub width: u16,
    pub height: u16,
}

/// A box of at most `width` by `height` cells centred in `area`.
pub fn centered_fixed(area: Area, width: u16, height: u16) -> (r: Area)
    requires
        area.x + area.width <= u16::MAX,
        area.y + area.height <= u16::MAX,
    ensures
        r.width == if width < area.width { width } else { area.width },
        r.height == if height < area.height { height } else { area.height },
        r.x == area.x + (area.width - r.width) / 2,
        r.y == area.y + (area.height - r.height) / 2,
{
    let w = if width < area.width { width } else { area.width };
    let h = if height < area.height { height } else { area.height };
    let x = area.x + (area.width - w) / 2;
    let y = area.y + (area.height - h) / 2;
    Area { x, y, width: w, height: h }
}

/// The spinner glyph for tick `t`.
pub open spec fn spinner_glyph(t: nat) -> char {
    let i = t % 10;
    if i == 0 {
        '\u{280B}'
    } else if i == 1 {
        '\u{2819}'
    } else if i == 2 {
        '\u{2839}'
    } else if i == 3 {
        '\u{2838}'
    } else if i == 4 {
        '\u{283C}'
    } else if i == 5 {
        '\u{2834}'
    } else if i == 6 {
        '\u{2826}'
    } else if i == 7 {
        '\u{2827}'
    } else if i == 8 {
        '\u{2807}'
    } else {
        '\u{280F}'
    }
}

/// The spinner glyph for tick `t`; the glyphs repeat every ten ticks.
pub fn spinner_frame(t: usize) -> (c: char)
    ensures
        c == spinner_glyph(t as nat),
{
    let i = t % 10;
    if i == 0 {
        '\u{280B}'
    } else if i == 1 {
        '\u{2819}'
    } else if i == 2 {
        '\u{2839}'
    } else if i == 3 {
        '\u{2838}'
    } else if i == 4 {
        '\u{283C}'
    } else if i == 5 {
        '\u{2834}'
    } else if i == 6 {
        '\u{2826}'
    } else if i == 7 {
        '\u{2827}'
    } else if i == 8 {
        '\u{2807}'
    } else {
        '\u{280F}'
    }
}

/// A pane title, marked with ">" when the pane has the focus.
pub open spec fn marked_title(title: Seq<char>, focused: bool) -> Seq<char> {
    if focused {
        seq!['>'] + title
    } else {
        title
    }
}

/// Marks a pane title with ">" when the pane has the focus.
pub fn pane_title(title: String, focused: bool) -> (r: String)
    ensures
        r@ == marked_title(title@, focused),
{
    if focused {
        let mut r = owned(">");
        push_str(&mut r, title.as_str());
        proof {
            reveal_strlit(">");
        }
        r
    } else {
        title
    }
}

/// The host pane title for the folder `cwd`.
pub fn host_pane_title(cwd: &str, focused: bool) -> (r: String)
    ensures
        r@ == marked_title(" Host "@ + cwd@ + " "@, focused),
{
    let mut t = owned(" Host ");
    push_str(&mut t, cwd);
    push_str(&mut t, " ");
    pane_title(t, focused)
}

/// The size column of a row: the size, or "<DIR>" for none.
pub open spec fn size_column(size: Option<u64>) -> Seq<char> {
    match size {
        Some(n) => "  "@ + size_text(n as nat),
        None => "  "@ + "<DIR>"@,
    }
}

fn size_cell(size: Option<u64>) -> (r: String)
    ensures
        r@ == size_column(size),
{
    let mut r = owned("  ");
    match size {
        Some(n) => {
            let s = format_size(n);
            push_str(&mut r, s.as_str());
        },
        None => push_str(&mut r, "<DIR>"),
    }
    r
}

/// A host pane row: icon and name, then the size column.
pub fn host_row<P>(e: &HostEntry<P>) -> (r: (String, String))
    ensures
        r.0@ == (if e.is_dir { "\u{1F4C1} "@ } else { "\u{1F4C4} "@ }) + e.name@,
        r.1@ == size_column(e.size),
{
    let mut first = if e.is_dir {
        owned("\u{1F4C1} ")
    } else {
        owned("\u{1F4C4} ")
    };
    push_str(&mut first, e.name.as_str());
    (first, size_cell(e.size))
}

/// A device pane row: icon and name, then the size column.
pub fn device_row(e: &DeviceEntry) -> (r: (String, String))
    ensures
        r.0@ == (if e.kind == DeviceEntryKind::Directory {
            "\u{1F4C1} "@
        } else {
            "\u{1F4DA} "@
        }) + e.name@,
        r.1@ == size_column(e.size),
{
    let mut first = match e.kind {
        DeviceEntryKind::Directory => owned("\u{1F4C1} "),
        DeviceEntryKind::File => owned("\u{1F4DA} "),
    };
    push_str(&mut first, e.name.as_str());
    (first, size_cell(e.size))
}

/// The status bar: the key summary, then the status text.
pub fn status_line(status: &str) -> (r: String)
    ensures
        r@ == "Tab pane \u{2022} i inspect \u{2022} p push \u{2022} g pull \u{2022} d del \u{2022} m mkdir \u{2022} R rename \u{2022} r refresh \u{2022} ? help \u{2022} q quit    "@
            + status@,
{
    let mut r = owned(
        "Tab pane \u{2022} i inspect \u{2022} p push \u{2022} g pull \u{2022} d del \u{2022} m mkdir \u{2022} R rename \u{2022} r refresh \u{2022} ? help \u{2022} q quit    ",
    );
    push_str(&mut r, status);
    r
}

/// The storage line under the device pane: " FREE free / TOTAL ".
pub open spec fn storage_text(free: u64, total: u64) -> Seq<char> {
    " "@ + size_text(free as nat) + " free / "@ + size_text(total as nat) + " "@
}

/// What the device pane shows: a message, or the entry list.
pub enum DevicePaneBody {
    Message(String),
    Entries,
}

/// The device pane: its title, the storage line under it, and its body.
pub struct DevicePaneView {
    pub title: String,
    pub footer: Option<String>,
    pub body: DevicePaneBody,
}

/// The title of a device pane showing a folder: " NAME PATH ", or with the
/// spinner glyph before the last space while loading.
pub open spec fn folder_title(cache: &DeviceCache, spinner: Option<char>) -> Seq<char> {
    match spinner {
        Some(c) => " "@ + cache.name@ + " "@ + cache.path@ + " "@ + seq![c] + " "@,
        None => " "@ + cache.name@ + " "@ + cache.path@ + " "@,
    }
}

/// The text of a loading device pane with no entries yet.
pub open spec fn loading_text(progress: Option<(usize, usize)>) -> Seq<char> {
    match progress {
        Some((fetched, total)) => if total > 0 {
            "Loading ("@ + decimal(fetched as nat) + "/"@ + decimal(total as nat) + ")\u{2026}"@
        } else {
            "Loading\u{2026}"@
        },
        None => "Loading\u{2026}"@,
    }
}

/// The footer for the storage figures, if known.
pub open spec fn storage_footer(info: Option<(u64, u64)>) -> Option<Seq<char>> {
    match info {
        Some((free, total)) => Some(storage_text(free, total)),
        None => None,
    }
}

/// The view of an optional string.
pub open spec fn opt_text(s: Option<String>) -> Option<Seq<char>> {
    match s {
        Some(t) => Some(t@),
        None => None,
    }
}

/// What the device pane shows in state `state` (see the function body's cases).
pub open spec fn device_pane_spec<B, C>(state: &DeviceState<B, C>, no_entries: bool, focused: bool) -> (
    Seq<char>,
    Option<Seq<char>>,
    Option<Seq<char>>,
) {
    match state {
        DeviceState::Disconnected { error } => (
            marked_title(" Device (not connected) "@, focused),
            None,
            Some(
                match error {
                    Some(e) => e@,
                    None => "No MTP device found"@,
                },
            ),
        ),
        DeviceState::Connecting { spinner_tick, .. } => (
            marked_title(
                " Device (connecting\u{2026}) "@ + seq![spinner_glyph(*spinner_tick as nat)] + " "@,
                focused,
            ),
            None,
            Some("Connecting to device\u{2026}"@),
        ),
        DeviceState::Loading(l) => (
            marked_title(folder_title(&l.cache, Some(spinner_glyph(l.spinner_tick as nat))), focused),
            storage_footer(l.cache.storage_info),
            if no_entries {
                Some(loading_text(l.progress))
            } else {
                None
            },
        ),
        DeviceState::Connected { cache, .. } => (
            marked_title(folder_title(cache, None), focused),
            storage_footer(cache.storage_info),
            None,
        ),
        DeviceState::Transferring { cache } => (
            marked_title(folder_title(cache, None), focused),
            storage_footer(cache.storage_info),
            None,
        ),
    }
}

fn folder_title_text(cache: &DeviceCache, spinner: Option<char>) -> (r: String)
    ensures
        r@ == folder_title(cache, spinner),
{
    let mut r = owned(" ");
    push_str(&mut r, cache.name.as_str());
    push_str(&mut r, " ");
    push_str(&mut r, cache.path.as_str());
    push_str(&mut r, " ");
    match spinner {
        Some(c) => {
            push_char(&mut r, c);
            push_str(&mut r, " ");
        },
        None => {},
    }
    r
}

fn footer_text(info: Option<(u64, u64)>) -> (r: Option<String>)
    ensures
        opt_text(r) == storage_footer(info),
{
    match info {
        Some((free, total)) => {
            let mut r = owned(" ");
            let f = format_size(free);
            push_str(&mut r, f.as_str());
            push_str(&mut r, " free / ");
            let t = format_size(total);
            push_str(&mut r, t.as_str());
            push_str(&mut r, " ");
            Some(r)
        },
        None => None,
    }
}

/// The text of a loading device pane with no entries yet (see [`loading_text`]).
pub fn loading_message(progress: Option<(usize, usize)>) -> (r: String)
    ensures
        r@ == loading_text(progress),
{
    match progress {
        Some((fetched, total)) => if total > 0 {
            let mut r = owned("Loading (");
            let a = decimal_string(fetched as u64);
            push_str(&mut r, a.as_str());
            push_str(&mut r, "/");
            let b = decimal_string(total as u64);
            push_str(&mut r, b.as_str());
            push_str(&mut r, ")\u{2026}");
            r
        } else {
            owned("Loading\u{2026}")
        },
        None => owned("Loading\u{2026}"),
    }
}

/// What the device pane shows (see [`device_pane_spec`]); `no_entries` says the
/// entry list is empty.
pub fn device_pane<B, C>(state: &DeviceState<B, C>, no_entries: bool, focused: bool) -> (v: DevicePaneView)
    ensures
        (v.title@, opt_text(v.footer), match v.body {
            DevicePaneBody::Message(m) => Some(m@),
            DevicePaneBody::Entries => None,
        }) == device_pane_spec(state, no_entries, focused),
{
    match state {
        DeviceState::Disconnected { error } => {
            let msg = match error {
                Some(e) => owned(e.as_str()),
                None => owned("No MTP device found"),
            };
            DevicePaneView {
                title: pane_title(owned(" Device (not connected) "), focused),
                footer: None,
                body: DevicePaneBody::Message(msg),
            }
        },
        DeviceState::Connecting { spinner_tick, .. } => {
            let mut t = owned(" Device (connecting\u{2026}) ");
            push_char(&mut t, spinner_frame(*spinner_tick));
            push_str(&mut t, " ");
            DevicePaneView {
                title: pane_title(t, focused),
                footer: None,
                body: DevicePaneBody::Message(owned("Connecting to device\u{2026}")),
            }
        },
        DeviceState::Loading(l) => {
            let t = folder_title_text(&l.cache, Some(spinner_frame(l.spinner_tick)));
            let body = if no_entries {
                DevicePaneBody::Message(loading_message(l.progress))
            } else {
                DevicePaneBody::Entries
            };
            DevicePaneView {
                title: pane_title(t, focused),
                footer: footer_text(l.cache.storage_info),
                body,
            }
        },
        DeviceState::Connected { cache, .. } => DevicePaneView {
            title: pane_title(folder_title_text(cache, None), focused),
            footer: footer_text(cache.storage_info),
            body: DevicePaneBody::Entries,
        },
        DeviceState::Transferring { cache } => DevicePaneView {
            title: pane_title(folder_title_text(cache, None), focused),
            footer: footer_text(cache.storage_info),
            body: DevicePaneBody::Entries,
        },
    }
}

/// `n / d` rounded up.
pub open spec fn ceil_div(n: nat, d: nat) -> nat {
    (((n + d - 1) as int) / (d as int)) as nat
}

/// Rows a text of `len` bytes takes in a dialog `inner` cells wide; the byte
/// count is taken modulo 2^16 as the dialog measures it in 16 bits.
pub open spec fn wrapped_rows(len: nat, inner: nat) -> nat {
    if inner > 0 {
        ceil_div(len % 0x10000, inner)
    } else {
        1
    }
}

/// Width of a dialog of at most `cap` cells on a screen `screen` cells wide.
pub open spec fn dialog_width(screen: u16, cap: u16) -> u16 {
    if screen < cap {
        screen
    } else {
        cap
    }
}

/// Cells inside a dialog's border.
pub open spec fn inner_width(w: u16) -> nat {
    if w >= 2 {
        (w - 2) as nat
    } else {
        0
    }
}

/// The confirm dialog's width and height for `message`: a message row per
/// `inner` bytes, plus borders, padding and the [Y]es/[N]o row.
pub open spec fn confirm_size(message: Seq<char>, screen: u16) -> (u16, u16) {
    let w = dialog_width(screen, 60);
    (w, (5 + wrapped_rows(byte_len(message), inner_width(w))) as u16)
}

/// The confirm dialog's width and height (see [`confirm_size`]).
pub fn confirm_dialog_size(message: &str, screen_width: u16) -> (r: (u16, u16))
    requires
        5 + wrapped_rows(byte_len(message@), inner_width(dialog_width(screen_width, 60)))
            <= u16::MAX,
    ensures
        r == confirm_size(message@, screen_width),
{
    let w: u16 = if screen_width < 60 {
        screen_width
    } else {
        60
    };
    let inner: u16 = if w >= 2 {
        w - 2
    } else {
        0
    };
    let len: usize = byte_len_of(message);
    let n: u16 = (len % 0x10000) as u16;
    let rows: u16 = if inner > 0 {
        let q = ((n as u32) + (inner as u32) - 1) / (inner as u32);
        q as u16
    } else {
        1
    };
    (w, 5 + rows)
}

/// A line with a trailing carriage return removed.
pub open spec fn without_cr(l: Seq<char>) -> Seq<char> {
    if l.len() > 0 && l.last() == '\r' {
        l.drop_last()
    } else {
        l
    }
}

/// The lines of `s` after the partial line `cur`, split at '\n' (a '\r'
/// before it dropped); a final line without '\n' is kept as it is, and an
/// empty final line is not a line.
pub open spec fn lines_from(s: Seq<char>, cur: Seq<char>) -> Seq<Seq<char>>
    decreases s.len(),
{
    if s.len() == 0 {
        if cur.len() == 0 {
            Seq::empty()
        } else {
            seq![cur]
        }
    } else if s[0] == '\n' {
        seq![without_cr(cur)] + lines_from(s.drop_first(), Seq::empty())
    } else {
        lines_from(s.drop_first(), cur.push(s[0]))
    }
}

/// The lines of a text, as `str::lines` splits it.
pub open spec fn text_lines(s: Seq<char>) -> Seq<Seq<char>> {
    lines_from(s, Seq::empty())
}

proof fn lemma_lines_step(s: Seq<char>, i: int, cur: Seq<char>)
    requires
        0 <= i < s.len(),
    ensures
        lines_from(s.skip(i), cur) == (if s[i] == '\n' {
            seq![without_cr(cur)] + lines_from(s.skip(i + 1), Seq::empty())
        } else {
            lines_from(s.skip(i + 1), cur.push(s[i]))
        }),
{
    assert(s.skip(i).drop_first() =~= s.skip(i + 1));
}

/// The lines of `s`, as `str::lines` gives them (see [`text_lines`]).
pub fn message_lines(s: &str) -> (v: Vec<String>)
    ensures
        v@.map_values(|l: String| l@) == text_lines(s@),
{
    let c = chars_of(s);
    let mut v: Vec<String> = Vec::new();
    let mut cur = String::new();
    let mut i: usize = 0;
    assert(c@.skip(0) =~= c@);
    while i < c.len()
        invariant
            i <= c@.len(),
            c@ == s@,
            v@.map_values(|l: String| l@) + lines_from(c@.skip(i as int), cur@) == text_lines(s@),
        decreases c@.len() - i,
    {
        proof {
            lemma_lines_step(c@, i as int, cur@);
        }
        if c[i] == '\n' {
            let mut line = String::new();
            std::mem::swap(&mut line, &mut cur);
            let chars = chars_of(line.as_str());
            let done = if chars.len() > 0 && chars[chars.len() - 1] == '\r' {
                let mut t = String::new();
                let mut k: usize = 0;
                while k < chars.len() - 1
                    invariant
                        chars@.len() > 0,
                        k + 1 <= chars@.len(),
                        t@ == chars@.subrange(0, k as int),
                    decreases chars@.len() - k,
                {
                    push_char(&mut t, chars[k]);
                    k = k + 1;
                    assert(t@ =~= chars@.subrange(0, k as int));
                }
                assert(t@ =~= chars@.drop_last());
                t
            } else {
                line
            };
            let ghost before = v@;
            v.push(done);
            proof {
                assert(v@.map_values(|l: String| l@) =~= before.map_values(|l: String| l@).push(
                    without_cr(chars@),
                ));
                assert(v@.map_values(|l: String| l@) + lines_from(c@.skip(i + 1), cur@) =~= before.map_values(
                    |l: String| l@,
                ) + (seq![without_cr(chars@)] + lines_from(c@.skip(i + 1), Seq::empty())));
            }
        } else {
            push_char(&mut cur, c[i]);
        }
        i = i + 1;
    }
    assert(c@.skip(i as int) =~= Seq::<char>::empty());
    if !cur.as_str().is_empty() {
        let ghost before = v@;
        v.push(cur);
        assert(v@.map_values(|l: String| l@) =~= before.map_values(|l: String| l@) + seq![
            cur@,
        ]);
    } else {
        assert(v@.map_values(|l: String| l@) =~= v@.map_values(|l: String| l@) + Seq::<
            Seq<char>,
        >::empty());
    }
    v
}

/// Rows the lines take in a dialog `inner` cells wide, at least one each.
pub open spec fn info_rows(lines: Seq<Seq<char>>, inner: nat) -> nat
    decreases lines.len(),
{
    if lines.len() == 0 {
        0
    } else {
        let r = wrapped_rows(byte_len(lines[0]), inner);
        (if r == 0 {
            1
        } else {
            r
        }) + info_rows(lines.drop_first(), inner)
    }
}

/// The information dialog's width and height for `message`.
pub open spec fn info_size(message: Seq<char>, screen: u16) -> (u16, u16) {
    let w = dialog_width(screen, 55);
    (w, (5 + info_rows(text_lines(message), inner_width(w))) as u16)
}

proof fn lemma_info_rows_split(a: Seq<Seq<char>>, b: Seq<Seq<char>>, inner: nat)
    ensures
        info_rows(a + b, inner) == info_rows(a, inner) + info_rows(b, inner),
    decreases a.len(),
{
    if a.len() > 0 {
        assert((a + b).drop_first() =~= a.drop_first() + b);
        lemma_info_rows_split(a.drop_first(), b, inner);
    } else {
        assert(a + b =~= b);
    }
}

/// The information dialog's width and height (see [`info_size`]).
pub fn info_dialog_size(message: &str, screen_width: u16) -> (r: (u16, u16))
    requires
        5 + info_rows(text_lines(message@), inner_width(dialog_width(screen_width, 55)))
            <= u16::MAX,
    ensures
        r == info_size(message@, screen_width),
{
    let w: u16 = if screen_width < 55 {
        screen_width
    } else {
        55
    };
    let inner: u16 = if w >= 2 {
        w - 2
    } else {
        0
    };
    let lines = message_lines(message);
    let ghost all = lines@.map_values(|l: String| l@);
    let ghost total = info_rows(all, inner as nat);
    let mut sum: u16 = 0;
    let mut i: usize = 0;
    assert(all.subrange(0, 0) =~= Seq::<Seq<char>>::empty());
    while i < lines.len()
        invariant
            i <= lines@.len(),
            all == lines@.map_values(|l: String| l@),
            total == info_rows(all, inner as nat),
            5 + total <= u16::MAX,
            sum == info_rows(all.subrange(0, i as int), inner as nat),
        decreases lines@.len() - i,
    {
        proof {
            lemma_info_rows_split(all.subrange(0, i as int), all.subrange(i as int, all.len() as int), inner as nat);
            assert(all =~= all.subrange(0, i as int) + all.subrange(i as int, all.len() as int));
            lemma_info_rows_split(all.subrange(0, i as int), seq![all[i as int]], inner as nat);
            assert(all.subrange(0, i + 1) =~= all.subrange(0, i as int) + seq![all[i as int]]);
            lemma_info_rows_split(seq![all[i as int]], all.subrange(i + 1, all.len() as int), inner as nat);
            assert(all.subrange(i as int, all.len() as int) =~= seq![all[i as int]] + all.subrange(i + 1, all.len() as int));
            assert(seq![all[i as int]].drop_first() =~= Seq::<Seq<char>>::empty());
        }
        let len: usize = byte_len_of(lines[i].as_str());
        let n: u16 = (len % 0x10000) as u16;
        let rows: u16 = if inner > 0 {
            let q = ((n as u32) + (inner as u32) - 1) / (inner as u32);
            assert(q <= 65535) by (nonlinear_arith)
                requires
                    n <= 65535,
                    inner >= 1,
                    q == (n + inner - 1) / (inner as int),
            ;
            let q16 = q as u16;
            if q16 == 0 {
                1
            } else {
                q16
            }
        } else {
            1
        };
        proof {
            assert(lines@[i as int]@ == all[i as int]);
            let w = wrapped_rows(byte_len(all[i as int]), inner as nat);
            assert(rows == (if w == 0 { 1 } else { w }));
            reveal_with_fuel(info_rows, 2);
            assert(seq![all[i as int]].drop_first() =~= Seq::<Seq<char>>::empty());
            assert(info_rows(seq![all[i as int]], inner as nat) == rows);
        }
        sum = sum + rows;
        i = i + 1;
    }
    assert(all.subrange(0, i as int) =~= all);
    (w, 5 + sum)
}

/// One line of the inspector, as text.
pub enum LineSpec {
    Heading(Seq<char>),
    Blank,
    Field(Seq<char>, Seq<char>),
    Property(Seq<char>, Seq<char>, bool),
    Hint(Seq<char>),
}

/// One line of the inspector.
pub enum InspectorLine {
    /// A section heading, shown bold.
    Heading(String),
    Blank,
    /// A dim label and a value.
    Field { label: String, value: String },
    /// A dim label and a value, the value dim too when reading it failed.
    Property { label: String, value: String, is_error: bool },
    /// A dim hint.
    Hint(String),
}

impl View for InspectorLine {
    type V = LineSpec;

    open spec fn view(&self) -> LineSpec {
        match self {
            InspectorLine::Heading(s) => LineSpec::Heading(s@),
            InspectorLine::Blank => LineSpec::Blank,
            InspectorLine::Field { label, value } => LineSpec::Field(label@, value@),
            InspectorLine::Property { label, value, is_error } => LineSpec::Property(
                label@,
                value@,
                *is_error,
            ),
            InspectorLine::Hint(s) => LineSpec::Hint(s@),
        }
    }
}

/// `s` padded on the right with spaces to at least `width` characters.
pub open spec fn padded_right(s: Seq<char>, width: nat) -> Seq<char> {
    if s.len() >= width {
        s
    } else {
        s + Seq::new((width - s.len()) as nat, |i: int| ' ')
    }
}

/// The inspector line of one property.
pub open spec fn property_line(p: InspectorProperty) -> LineSpec {
    LineSpec::Property(
        "  0x"@ + hex(p.code as nat, 4, true) + " "@ + padded_right(p.name@, 20) + " "@,
        (if p.is_error {
            "ERR "@
        } else {
            Seq::empty()
        }) + p.value@,
        p.is_error,
    )
}

/// An optional field line, present when `value` is.
pub open spec fn optional_field(label: Seq<char>, value: Option<String>) -> Seq<LineSpec> {
    match value {
        Some(v) => seq![LineSpec::Field(label, v@)],
        None => Seq::empty(),
    }
}

/// The value of an optional field, "(none)" when absent.
pub open spec fn or_none(value: Option<String>) -> Seq<char> {
    match value {
        Some(v) => v@,
        None => "(none)"@,
    }
}

/// All the inspector's lines for `data`: the object facts, then one line per
/// property, then the key hint.
pub open spec fn inspector_text(data: &InspectorData) -> Seq<LineSpec> {
    seq![
        LineSpec::Heading("--- ObjectInfo ---"@),
        LineSpec::Blank,
        LineSpec::Field("  Handle:      "@, data.object_handle@),
        LineSpec::Field("  Filename:    "@, data.filename@),
        LineSpec::Field("  Format:      "@, data.format@),
        LineSpec::Field("  Size:        "@, data.size@),
        LineSpec::Field("  Storage:     "@, data.storage_id@),
        LineSpec::Field("  Parent:      "@, data.parent_id@),
        LineSpec::Field("  Protection:  "@, data.protection@),
        LineSpec::Field("  Created:     "@, or_none(data.created)),
        LineSpec::Field("  Modified:    "@, or_none(data.modified)),
    ] + (if data.keywords@.len() > 0 {
        seq![LineSpec::Field("  Keywords:    "@, data.keywords@)]
    } else {
        Seq::empty()
    }) + optional_field("  Image dims:  "@, data.image_dimensions) + optional_field(
        "  Thumbnail:   "@,
        data.thumb_dimensions,
    ) + seq![
        LineSpec::Blank,
        LineSpec::Heading("--- MTP Properties (GetObjectPropValue) ---"@),
        LineSpec::Blank,
    ] + data.properties@.map_values(|p: InspectorProperty| property_line(p)) + seq![
        LineSpec::Blank,
        LineSpec::Hint("  j/k scroll \u{2022} Esc/i/q close"@),
    ]
}

fn field(label: &str, value: &str) -> (l: InspectorLine)
    ensures
        l@ == LineSpec::Field(label@, value@),
{
    InspectorLine::Field { label: owned(label), value: owned(value) }
}

fn opt_str(value: &Option<String>) -> (r: &str)
    ensures
        r@ == or_none(*value),
{
    match value {
        Some(v) => v.as_str(),
        None => "(none)",
    }
}

fn property_row(p: &InspectorProperty) -> (l: InspectorLine)
    ensures
        l@ == property_line(*p),
{
    let mut label = owned("  0x");
    let code = hex_string(p.code as u64, 4, true);
    push_str(&mut label, code.as_str());
    push_str(&mut label, " ");
    push_str(&mut label, p.name.as_str());
    let n = chars_of(p.name.as_str()).len();
    let ghost start = label@;
    if n < 20 {
        let mut k: usize = n;
        while k < 20
            invariant
                n <= k <= 20,
                label@ == start + Seq::new((k - n) as nat, |i: int| ' '),
            decreases 20 - k,
        {
            push_char(&mut label, ' ');
            k = k + 1;
            assert(label@ =~= start + Seq::new((k - n) as nat, |i: int| ' '));
        }
    }
    push_str(&mut label, " ");
    assert(label@ =~= "  0x"@ + hex(p.code as nat, 4, true) + " "@ + padded_right(p.name@, 20) + " "@);
    let mut value = if p.is_error {
        owned("ERR ")
    } else {
        String::new()
    };
    push_str(&mut value, p.value.as_str());
    assert(value@ =~= (if p.is_error { "ERR "@ } else { Seq::<char>::empty() }) + p.value@);
    let l = InspectorLine::Property { label, value, is_error: p.is_error };
    assert(l@ =~= property_line(*p));
    l
}

/// The inspector's lines (see [`inspector_text`]).
pub fn inspector_lines(data: &InspectorData) -> (v: Vec<InspectorLine>)
    ensures
        v@.map_values(|l: InspectorLine| l@) == inspector_text(data),
{
    let mut v: Vec<InspectorLine> = Vec::new();
    v.push(InspectorLine::Heading(owned("--- ObjectInfo ---")));
    v.push(InspectorLine::Blank);
    v.push(field("  Handle:      ", data.object_handle.as_str()));
    v.push(field("  Filename:    ", data.filename.as_str()));
    v.push(field("  Format:      ", data.format.as_str()));
    v.push(field("  Size:        ", data.size.as_str()));
    v.push(field("  Storage:     ", data.storage_id.as_str()));
    v.push(field("  Parent:      ", data.parent_id.as_str()));
    v.push(field("  Protection:  ", data.protection.as_str()));
    v.push(field("  Created:     ", opt_str(&data.created)));
    v.push(field("  Modified:    ", opt_str(&data.modified)));
    let ghost first = seq![
        LineSpec::Heading("--- ObjectInfo ---"@),
        LineSpec::Blank,
        LineSpec::Field("  Handle:      "@, data.object_handle@),
        LineSpec::Field("  Filename:    "@, data.filename@),
        LineSpec::Field("  Format:      "@, data.format@),
        LineSpec::Field("  Size:        "@, data.size@),
        LineSpec::Field("  Storage:     "@, data.storage_id@),
        LineSpec::Field("  Parent:      "@, data.parent_id@),
        LineSpec::Field("  Protection:  "@, data.protection@),
        LineSpec::Field("  Created:     "@, or_none(data.created)),
        LineSpec::Field("  Modified:    "@, or_none(data.modified)),
    ];
    assert(v@.map_values(|l: InspectorLine| l@) =~= first);
    let ghost kw = if data.keywords@.len() > 0 {
        seq![LineSpec::Field("  Keywords:    "@, data.keywords@)]
    } else {
        Seq::<LineSpec>::empty()
    };
    if !data.keywords.as_str().is_empty() {
        v.push(field("  Keywords:    ", data.keywords.as_str()));
    }
    assert(v@.map_values(|l: InspectorLine| l@) =~= first + kw);
    match &data.image_dimensions {
        Some(d) => v.push(field("  Image dims:  ", d.as_str())),
        None => {},
    }
    assert(v@.map_values(|l: InspectorLine| l@) =~= first + kw + optional_field(
        "  Image dims:  "@,
        data.image_dimensions,
    ));
    match &data.thumb_dimensions {
        Some(d) => v.push(field("  Thumbnail:   ", d.as_str())),
        None => {},
    }
    let ghost mid = first + kw + optional_field("  Image dims:  "@, data.image_dimensions)
        + optional_field("  Thumbnail:   "@, data.thumb_dimensions);
    assert(v@.map_values(|l: InspectorLine| l@) =~= mid);
    v.push(InspectorLine::Blank);
    v.push(InspectorLine::Heading(owned("--- MTP Properties (GetObjectPropValue) ---")));
    v.push(InspectorLine::Blank);
    assert(v@.map_values(|l: InspectorLine| l@) =~= mid + seq![
        LineSpec::Blank,
        LineSpec::Heading("--- MTP Properties (GetObjectPropValue) ---"@),
        LineSpec::Blank,
    ]);
    let ghost head = v@.map_values(|l: InspectorLine| l@);
    let mut i: usize = 0;
    while i < data.properties.len()
        invariant
            i <= data.properties@.len(),
            v@.map_values(|l: InspectorLine| l@) == head + data.properties@.subrange(
                0,
                i as int,
            ).map_values(|p: InspectorProperty| property_line(p)),
        decreases data.properties@.len() - i,
    {
        let row = property_row(&data.properties[i]);
        let ghost old_v = v@;
        let ghost props = data.properties@;
        v.push(row);
        proof {
            assert(v@.map_values(|l: InspectorLine| l@) =~= old_v.map_values(|l: InspectorLine| l@).push(
                property_line(props[i as int]),
            ));
            assert(props.subrange(0, i + 1).map_values(|p: InspectorProperty| property_line(p))
                =~= props.subrange(0, i as int).map_values(|p: InspectorProperty| property_line(p)).push(
                property_line(props[i as int]),
            ));
        }
        i = i + 1;
        assert(v@.map_values(|l: InspectorLine| l@) =~= head + data.properties@.subrange(
            0,
            i as int,
        ).map_values(|p: InspectorProperty| property_line(p)));
    }
    assert(data.properties@.subrange(0, i as int) =~= data.properties@);
    let ghost body = v@.map_values(|l: InspectorLine| l@);
    v.push(InspectorLine::Blank);
    v.push(InspectorLine::Hint(owned("  j/k scroll \u{2022} Esc/i/q close")));
    assert(v@.map_values(|l: InspectorLine| l@) =~= body + seq![
        LineSpec::Blank,
        LineSpec::Hint("  j/k scroll \u{2022} Esc/i/q close"@),
    ]);
    assert(v@.map_values(|l: InspectorLine| l@) =~= inspector_text(data));
    v
}

/// The inspector's visible window: the first line shown and the number of
/// rows inside a dialog `height` cells high.
pub open spec fn inspector_window_spec(count: nat, height: u16, scroll: nat) -> (nat, nat) {
    let inner: nat = if height >= 2 {
        (height - 2) as nat
    } else {
        0
    };
    let max_offset: nat = if count >= inner {
        (count - inner) as nat
    } else {
        0
    };
    (if scroll < max_offset {
        scroll
    } else {
        max_offset
    }, inner)
}

/// The inspector's visible window (see [`inspector_window_spec`]): the scroll
/// offset is kept so that the last page stays full.
pub fn inspector_window(count: usize, height: u16, scroll: usize) -> (r: (usize, usize))
    ensures
        (r.0 as nat, r.1 as nat) == inspector_window_spec(count as nat, height, scroll as nat),
{
    let inner: usize = if height >= 2 {
        (height - 2) as usize
    } else {
        0
    };
    let max_offset: usize = if count >= inner {
        count - inner
    } else {
        0
    };
    (if scroll < max_offset {
        scroll
    } else {
        max_offset
    }, inner)
}

} // verus!
