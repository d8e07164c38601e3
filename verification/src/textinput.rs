//! The one-line text input dialog: key handling with a byte-offset cursor
//! over UTF-8 text, and the visible window of the input line.
use vstd::prelude::*;
use crate::text::{chars_of, string_of};

verus! {

/// A key, as far as the application distinguishes keys.
#[derive(Debug, Clone, Copy, PartialEq, Eq, Structural)]
pub enum KeyCode {
    Esc,
    Enter,
    Char(char),
    Backspace,
    Delete,
    Left,
    Right,
    Up,
    Down,
    Home,
    End,
    Tab,
    Other,
}

/// A key press; `control` says the modifiers are exactly Control.
#[derive(Debug, Clone, Copy, PartialEq, Eq, Structural)]
pub struct Key {
    pub code: KeyCode,
    pub control: bool,
}

/// What the dialog does when its text is submitted.
#[derive(Debug, Clone, PartialEq, Eq)]
pub enum TextInputAction {
    Mkdir,
    Rename { entry_id: String },
}

/// Result of a key in the text input dialog.
#[derive(Debug, Clone, PartialEq, Eq)]
pub enum TextInputResult {
    Consumed,
    Submit(String),
    Cancel,
}

/// A text input dialog; `cursor_pos` is a byte offset into `input`.
pub struct TextInputDialog {
    pub title: String,
    pub prompt: String,
    pub input: String,
    pub cursor_pos: usize,
    pub on_submit: TextInputAction,
}

/// UTF-8 length of a character.
pub open spec fn char_len(c: char) -> nat {
    if (c as u32) < 0x80 {
        1
    } else if (c as u32) < 0x800 {
        2
    } else if (c as u32) < 0x10000 {
        3
    } else {
        4
    }
}

/// `char::len_utf8`.
pub fn char_len_utf8(c: char) -> (n: usize)
    ensures
        n == char_len(c),
{
    let v = c as u32;
    if v < 0x80 {
        1
    } else if v < 0x800 {
        2
    } else if v < 0x10000 {
        3
    } else {
        4
    }
}

/// UTF-8 length of a character sequence.
pub open spec fn byte_len(s: Seq<char>) -> nat
    decreases s.len(),
{
    if s.len() == 0 {
        0
    } else {
        char_len(s[0]) + byte_len(s.drop_first())
    }
}

/// The byte length of a concatenation is the sum of the byte lengths.
pub proof fn lemma_byte_len_concat(a: Seq<char>, b: Seq<char>)
    ensures
        byte_len(a + b) == byte_len(a) + byte_len(b),
    decreases a.len(),
{
    if a.len() > 0 {
        assert((a + b).drop_first() =~= a.drop_first() + b);
        lemma_byte_len_concat(a.drop_first(), b);
    } else {
        assert(a + b =~= b);
    }
}

/// `byte_len` agrees with the length of vstd's UTF-8 encoding.
pub proof fn lemma_byte_len_encoding(s: Seq<char>)
    ensures
        byte_len(s) == vstd::utf8::encode_utf8(s).len(),
    decreases s.len(),
{
    if s.len() > 0 {
        vstd::utf8::char_is_scalar(s[0]);
        lemma_byte_len_encoding(s.drop_first());
    }
}

/// The byte offset of character position `k`.
pub open spec fn offset_of(s: Seq<char>, k: int) -> nat {
    byte_len(s.take(k))
}

/// `pos` is the byte offset of some character position of `s`.
pub open spec fn at_boundary(s: Seq<char>, pos: nat) -> bool {
    exists|k: int| 0 <= k <= s.len() && offset_of(s, k) == pos
}

/// The character position whose byte offset is `pos`.
pub open spec fn char_index(s: Seq<char>, pos: nat) -> int {
    choose|k: int| 0 <= k <= s.len() && offset_of(s, k) == pos
}

proof fn lemma_offset_step(s: Seq<char>, k: int)
    requires
        0 <= k < s.len(),
    ensures
        offset_of(s, k + 1) == offset_of(s, k) + char_len(s[k]),
{
    assert(s.take(k + 1) =~= s.take(k) + seq![s[k]]);
    lemma_byte_len_concat(s.take(k), seq![s[k]]);
    lemma_byte_len_single(s[k]);
}

proof fn lemma_byte_len_single(c: char)
    ensures
        byte_len(seq![c]) == char_len(c),
{
    assert(seq![c].drop_first() =~= Seq::<char>::empty());
    assert(byte_len(Seq::<char>::empty()) == 0);
}

/// Every character takes at least one byte.
proof fn lemma_len_le_byte_len(s: Seq<char>)
    ensures
        s.len() <= byte_len(s),
    decreases s.len(),
{
    if s.len() > 0 {
        lemma_len_le_byte_len(s.drop_first());
    }
}

/// The byte length of a string slice is the byte length of its characters.
pub fn byte_len_of(s: &str) -> (n: usize)
    ensures
        n == byte_len(s@),
{
    proof {
        lemma_byte_len_encoding(s@);
    }
    let b = s.as_bytes();
    b.len()
}

proof fn lemma_offset_monotone(s: Seq<char>, i: int, j: int)
    requires
        0 <= i < j <= s.len(),
    ensures
        offset_of(s, i) < offset_of(s, j),
    decreases j - i,
{
    lemma_offset_step(s, j - 1);
    if i < j - 1 {
        lemma_offset_monotone(s, i, j - 1);
    }
}

/// Offsets of distinct positions differ, so the position of a boundary is unique.
proof fn lemma_boundary_unique(s: Seq<char>, pos: nat, k: int)
    requires
        0 <= k <= s.len(),
        offset_of(s, k) == pos,
    ensures
        char_index(s, pos) == k,
{
    let c = char_index(s, pos);
    if c < k {
        lemma_offset_monotone(s, c, k);
    } else if c > k {
        lemma_offset_monotone(s, k, c);
    }
}

pub proof fn lemma_offset_full(s: Seq<char>)
    ensures
        offset_of(s, s.len() as int) == byte_len(s),
{
    assert(s.take(s.len() as int) =~= s);
}

/// Whether `c` has the Unicode White_Space property.
pub open spec fn is_white_space(c: char) -> bool {
    let u = c as u32;
    u == 0x20 || (0x09 <= u && u <= 0x0D) || u == 0x85 || u == 0xA0 || u == 0x1680 || (0x2000
        <= u && u <= 0x200A) || u == 0x2028 || u == 0x2029 || u == 0x202F || u == 0x205F || u
        == 0x3000
}

/// `s` without its leading white space.
pub open spec fn trim_start(s: Seq<char>) -> Seq<char>
    decreases s.len(),
{
    if s.len() > 0 && is_white_space(s[0]) {
        trim_start(s.drop_first())
    } else {
        s
    }
}

/// `s` without its trailing white space.
pub open spec fn trim_end(s: Seq<char>) -> Seq<char>
    decreases s.len(),
{
    if s.len() > 0 && is_white_space(s.last()) {
        trim_end(s.drop_last())
    } else {
        s
    }
}

/// `s` without leading and trailing white space.
pub open spec fn trimmed(s: Seq<char>) -> Seq<char> {
    trim_end(trim_start(s))
}

/// Whether `c` has the Unicode White_Space property.
fn white_space(c: char) -> (r: bool)
    ensures
        r == is_white_space(c),
{
    let u = c as u32;
    u == 0x20 || (0x09 <= u && u <= 0x0D) || u == 0x85 || u == 0xA0 || u == 0x1680 || (0x2000 <= u && u
        <= 0x200A) || u == 0x2028 || u == 0x2029 || u == 0x202F || u == 0x205F || u == 0x3000
}

/// The text without leading and trailing white space, in a new `String`.
pub fn trim_text(s: &str) -> (r: String)
    ensures
        r@ == trimmed(s@),
{
    let cs = chars_of(s);
    let mut a: usize = 0;
    assert(cs@.skip(0) =~= cs@);
    while a < cs.len() && white_space(cs[a])
        invariant
            a <= cs@.len(),
            trim_start(cs@) == trim_start(cs@.skip(a as int)),
        decreases cs@.len() - a,
    {
        assert(cs@.skip(a as int).drop_first() =~= cs@.skip(a + 1));
        a = a + 1;
    }
    let ghost t = cs@.skip(a as int);
    assert(trim_start(cs@) == t) by {
        if a == cs.len() {
            assert(t.len() == 0);
        }
    }
    let mut b: usize = cs.len();
    assert(t.take(b - a) =~= t);
    while b > a && white_space(cs[b - 1])
        invariant
            a <= b <= cs@.len(),
            t == cs@.skip(a as int),
            trim_end(t) == trim_end(t.take(b - a)),
        decreases b,
    {
        assert(t.take(b - a).drop_last() =~= t.take(b - 1 - a));
        b = b - 1;
    }
    let mut out: Vec<char> = Vec::new();
    let mut i: usize = a;
    while i < b
        invariant
            a <= i <= b <= cs@.len(),
            out@ == cs@.subrange(a as int, i as int),
        decreases b - i,
    {
        out.push(cs[i]);
        assert(out@ =~= cs@.subrange(a as int, i + 1));
        i = i + 1;
    }
    assert(trim_end(t) == t.take(b - a)) by {
        if b == a {
            assert(t.take(0).len() == 0);
        }
    }
    assert(out@ =~= t.take(b - a));
    string_of(&out)
}

/// Position of the cursor (a character index) and the character count.
fn locate_cursor(cs: &Vec<char>, pos: usize) -> (k: usize)
    requires
        at_boundary(cs@, pos as nat),
    ensures
        k == char_index(cs@, pos as nat),
        k <= cs@.len(),
        offset_of(cs@, k as int) == pos,
{
    let ghost target = char_index(cs@, pos as nat);
    let n = cs.len();
    let mut k: usize = 0;
    let mut off: usize = 0;
    proof {
        assert(cs@.take(0) =~= Seq::<char>::empty());
    }
    while off != pos
        invariant
            0 <= target <= cs@.len() == n,
            offset_of(cs@, target) == pos,
            k <= target,
            off == offset_of(cs@, k as int),
        decreases target - k,
    {
        proof {
            if k == target {
            }
            lemma_offset_step(cs@, k as int);
            if k + 1 < target {
                lemma_offset_monotone(cs@, k + 1, target);
            }
        }
        off = off + char_len_utf8(cs[k]);
        k = k + 1;
    }
    proof {
        lemma_boundary_unique(cs@, pos as nat, k as int);
    }
    k
}

/// The text after a key, with the cursor's character position `k`.
pub open spec fn edited_input(s: Seq<char>, k: int, code: KeyCode) -> Seq<char> {
    match code {
        KeyCode::Char(c) => s.take(k) + seq![c] + s.skip(k),
        KeyCode::Backspace => if k > 0 { s.take(k - 1) + s.skip(k) } else { s },
        KeyCode::Delete => if k < s.len() { s.take(k) + s.skip(k + 1) } else { s },
        _ => s,
    }
}

/// Typing a character and then pressing Backspace gives back the text and the
/// cursor position from before: the cursor after typing sits just past the new
/// character, and Backspace removes exactly that character.
pub proof fn lemma_type_then_backspace(s: Seq<char>, k: int, c: char)
    requires
        0 <= k <= s.len(),
    ensures
        ({
            let t = edited_input(s, k, KeyCode::Char(c));
            let k2 = moved_cursor(s, k, KeyCode::Char(c));
            &&& char_index(t, offset_of(t, k2)) == k2
            &&& edited_input(t, k2, KeyCode::Backspace) == s
            &&& moved_cursor(t, k2, KeyCode::Backspace) == k
        }),
{
    let t = edited_input(s, k, KeyCode::Char(c));
    let k2 = k + 1;
    lemma_boundary_unique(t, offset_of(t, k2), k2);
    assert(t.take(k2 - 1) =~= s.take(k));
    assert(t.skip(k2) =~= s.skip(k));
    assert(s.take(k) + s.skip(k) =~= s);
}

/// The cursor (a character position) after a key.
pub open spec fn moved_cursor(s: Seq<char>, k: int, code: KeyCode) -> int {
    match code {
        KeyCode::Char(_) => k + 1,
        KeyCode::Backspace => if k > 0 { k - 1 } else { k },
        KeyCode::Left => if k > 0 { k - 1 } else { k },
        KeyCode::Right => if k < s.len() { k + 1 } else { k },
        KeyCode::Home => 0,
        KeyCode::End => s.len() as int,
        _ => k,
    }
}

/// Whether `code` reads the text at the cursor, so that a cursor off a
/// character boundary would split a character.
pub open spec fn key_needs_boundary(code: KeyCode, s: Seq<char>, pos: nat) -> bool {
    match code {
        KeyCode::Char(_) | KeyCode::Backspace | KeyCode::Left => true,
        KeyCode::Delete | KeyCode::Right => pos < byte_len(s),
        _ => false,
    }
}

impl TextInputDialog {
    /// The cursor sits on a character boundary.
    pub open spec fn cursor_ok(&self) -> bool {
        at_boundary(self.input@, self.cursor_pos as nat)
    }

    /// Handles a key: edit and move keys change the text and cursor, Enter
    /// submits the trimmed text (cancels when it is empty), Esc cancels.
    pub fn handle_key(&mut self, key: Key) -> (r: TextInputResult)
        requires
            key_needs_boundary(key.code, old(self).input@, old(self).cursor_pos as nat) ==> old(self).cursor_ok(),
            byte_len(old(self).input@) + 4 <= usize::MAX,
        ensures
            final(self).title == old(self).title,
            final(self).prompt == old(self).prompt,
            final(self).on_submit == old(self).on_submit,
            ({
                let s = old(self).input@;
                let k = char_index(s, old(self).cursor_pos as nat);
                match key.code {
                    KeyCode::Esc => r == TextInputResult::Cancel && final(self).input@ == s
                        && final(self).cursor_pos == old(self).cursor_pos,
                    KeyCode::Enter => final(self).input@ == s && final(self).cursor_pos == old(self).cursor_pos
                        && if trimmed(s).len() == 0 {
                        r == TextInputResult::Cancel
                    } else {
                        r matches TextInputResult::Submit(t) && t@ == trimmed(s)
                    },
                    _ => r == TextInputResult::Consumed && if old(self).cursor_ok() {
                        &&& final(self).input@ == edited_input(s, k, key.code)
                        &&& final(self).cursor_pos == offset_of(final(self).input@, moved_cursor(s, k, key.code))
                        &&& final(self).cursor_ok()
                    } else {
                        &&& final(self).input@ == s
                        &&& final(self).cursor_pos == match key.code {
                            KeyCode::Home => 0,
                            KeyCode::End => byte_len(s),
                            _ => old(self).cursor_pos as nat,
                        }
                    },
                }
            }),
    {
        match key.code {
            KeyCode::Esc => return TextInputResult::Cancel,
            KeyCode::Enter => {
                let t = trim_text(self.input.as_str());
                if t.as_str().is_empty() {
                    return TextInputResult::Cancel;
                }
                return TextInputResult::Submit(t);
            },
            KeyCode::Home => {
                proof {
                    assert(self.input@.take(0) =~= Seq::<char>::empty());
                    assert(byte_len(Seq::<char>::empty()) == 0);
                    assert(offset_of(self.input@, 0) == 0);
                    lemma_boundary_unique(self.input@, 0, 0);
                }
                self.cursor_pos = 0;
                return TextInputResult::Consumed;
            },
            KeyCode::End => {
                let n = byte_len_of(self.input.as_str());
                proof {
                    lemma_offset_full(self.input@);
                    lemma_boundary_unique(self.input@, n as nat, self.input@.len() as int);
                }
                self.cursor_pos = n;
                return TextInputResult::Consumed;
            },
            KeyCode::Up | KeyCode::Down | KeyCode::Tab | KeyCode::Other => {
                return TextInputResult::Consumed;
            },
            KeyCode::Delete | KeyCode::Right => {
                let n = byte_len_of(self.input.as_str());
                if self.cursor_pos >= n {
                    proof {
                        let s = self.input@;
                        if self.cursor_ok() {
                            let k = char_index(s, self.cursor_pos as nat);
                            if k < s.len() {
                                lemma_offset_monotone(s, k, s.len() as int);
                            }
                            lemma_offset_full(s);
                        }
                    }
                    return TextInputResult::Consumed;
                }
            },
            _ => {},
        }
        let ghost s = self.input@;
        let mut cs = chars_of(self.input.as_str());
        let k = locate_cursor(&cs, self.cursor_pos);
        let ghost kk = k as int;
        proof {
            lemma_offset_full(s);
            assert(s.take(kk) + s.skip(kk) =~= s);
            lemma_byte_len_concat(s.take(kk), s.skip(kk));
            lemma_len_le_byte_len(s);
        }
        let new_k: usize = match key.code {
            KeyCode::Char(c) => {
                cs.insert(k, c);
                proof {
                    assert(cs@ =~= s.take(kk) + seq![c] + s.skip(kk));
                    lemma_byte_len_concat(s.take(kk) + seq![c], s.skip(kk));
                    lemma_byte_len_concat(s.take(kk), seq![c]);
                    lemma_byte_len_single(c);
                }
                k + 1
            },
            KeyCode::Backspace => {
                if k > 0 {
                    cs.remove(k - 1);
                    proof {
                        assert(cs@ =~= s.take(kk - 1) + s.skip(kk));
                        lemma_offset_step(s, kk - 1);
                        assert(s.take(kk - 1) =~= s.take(kk).take(kk - 1));
                        lemma_byte_len_concat(s.take(kk - 1), s.skip(kk));
                    }
                    k - 1
                } else {
                    k
                }
            },
            KeyCode::Delete => {
                if k < cs.len() {
                    cs.remove(k);
                    proof {
                        assert(cs@ =~= s.take(kk) + s.skip(kk + 1));
                        assert(s.skip(kk) =~= seq![s[kk]] + s.skip(kk + 1));
                        lemma_byte_len_concat(s.take(kk), s.skip(kk + 1));
                        lemma_byte_len_concat(seq![s[kk]], s.skip(kk + 1));
                        lemma_byte_len_single(s[kk]);
                    }
                }
                k
            },
            KeyCode::Left => if k > 0 { k - 1 } else { k },
            KeyCode::Right => if k < cs.len() { k + 1 } else { k },
            KeyCode::Home => 0,
            KeyCode::End => cs.len(),
            _ => k,
        };
        proof {
            let t = cs@;
            assert(0 <= new_k <= t.len());
            lemma_offset_full(t);
            if new_k < t.len() {
                lemma_offset_monotone(t, new_k as int, t.len() as int);
            }
            assert(t.take(new_k as int).len() == new_k);
            assert(t.take(0) =~= Seq::<char>::empty());
        }
        let mut off: usize = 0;
        let mut i: usize = 0;
        while i < new_k
            invariant
                i <= new_k <= cs@.len(),
                off == offset_of(cs@, i as int),
                offset_of(cs@, new_k as int) <= byte_len(cs@),
                byte_len(cs@) <= usize::MAX,
            decreases new_k - i,
        {
            proof {
                lemma_offset_step(cs@, i as int);
                if i + 1 < new_k {
                    lemma_offset_monotone(cs@, i + 1, new_k as int);
                }
            }
            off = off + char_len_utf8(cs[i]);
            i = i + 1;
        }
        self.input = string_of(&cs);
        self.cursor_pos = off;
        TextInputResult::Consumed
    }
}

/// The visible part of the input line around the cursor: the characters
/// before the cursor, the character under it (if any), and those after it.
#[derive(Debug, Clone, PartialEq, Eq)]
pub struct InputWindow {
    pub before: String,
    pub cursor: Option<char>,
    pub after: String,
}

/// Character position of the cursor for drawing: the character starting at
/// byte offset `pos`, or the end when no character starts there.
pub open spec fn draw_cursor(s: Seq<char>, pos: nat) -> int {
    if exists|k: int| 0 <= k < s.len() && offset_of(s, k) == pos {
        char_index(s, pos)
    } else {
        s.len() as int
    }
}

/// First visible character position for a cursor at `c` in a window of `width` characters.
pub open spec fn window_start(c: int, width: int) -> int {
    if c < width {
        0
    } else {
        c - width + 1
    }
}

/// End (exclusive) of the visible characters.
pub open spec fn window_end(c: int, width: int, count: int) -> int {
    if window_start(c, width) + width < count {
        window_start(c, width) + width
    } else {
        count
    }
}

/// The window of `s` shown in `width` columns with the cursor at byte offset `pos`.
pub open spec fn input_window(s: Seq<char>, pos: nat, width: int) -> (Seq<char>, Option<char>, Seq<char>) {
    let c = draw_cursor(s, pos);
    let start = window_start(c, width);
    let end = window_end(c, width, s.len() as int);
    let rel = c - start;
    let vis = s.subrange(start, end);
    if rel < vis.len() {
        (vis.take(rel), Some(vis[rel]), vis.skip(rel + 1))
    } else {
        (vis, None, Seq::empty())
    }
}

/// Splits the input line into the part before the cursor, the character
/// under the cursor and the rest, showing at most `width` characters.
pub fn input_window_of(input: &str, cursor_pos: usize, width: usize) -> (w: InputWindow)
    requires
        width > 0,
        width + input@.len() <= usize::MAX,
    ensures
        (w.before@, w.cursor, w.after@) == input_window(input@, cursor_pos as nat, width as int),
{
    let total = byte_len_of(input);
    let cs = chars_of(input);
    let count = cs.len();
    let mut off: usize = 0;
    let mut k: usize = 0;
    let mut found = false;
    proof {
        assert(cs@.take(0) =~= Seq::<char>::empty());
        lemma_offset_full(cs@);
    }
    while k < count && !found
        invariant
            k <= count == cs@.len(),
            cs@ == input@,
            off == offset_of(cs@, k as int),
            total == byte_len(cs@) == offset_of(cs@, count as int),
            found ==> k < count && offset_of(cs@, k as int) == cursor_pos,
            forall|j: int| 0 <= j < k ==> offset_of(cs@, j) != cursor_pos,
            width + count <= usize::MAX,
        decreases count - k, (if found { 0int } else { 1int }),
    {
        if off == cursor_pos {
            found = true;
        } else {
            proof {
                lemma_offset_step(cs@, k as int);
                if k + 1 < count {
                    lemma_offset_monotone(cs@, k + 1, count as int);
                }
            }
            off = off + char_len_utf8(cs[k]);
            k = k + 1;
        }
    }
    let cursor_char: usize = if found { k } else { count };
    proof {
        if found {
            lemma_boundary_unique(cs@, cursor_pos as nat, k as int);
        }
    }
    assert(cursor_char as int == draw_cursor(input@, cursor_pos as nat));
    let vis_start = if cursor_char < width { 0 } else { cursor_char - width + 1 };
    let vis_end = if vis_start + width < count { vis_start + width } else { count };
    let rel = cursor_char - vis_start;
    let mut before: Vec<char> = Vec::new();
    let mut after: Vec<char> = Vec::new();
    let mut cur: Option<char> = None;
    let mut i: usize = vis_start;
    while i < vis_end
        invariant
            vis_start <= i <= vis_end <= count == cs@.len(),
            rel == cursor_char - vis_start,
            before@ == cs@.subrange(vis_start as int, if i < vis_start + rel { i as int } else { vis_start + rel }),
            cur == (if i > vis_start + rel { Some(cs@[vis_start + rel]) } else { None::<char> }),
            after@ == (if i > vis_start + rel + 1 { cs@.subrange(vis_start + rel + 1, i as int) } else { Seq::<char>::empty() }),
        decreases vis_end - i,
    {
        let ch = cs[i];
        if i - vis_start < rel {
            before.push(ch);
        } else if i - vis_start == rel {
            cur = Some(ch);
        } else {
            after.push(ch);
        }
        i = i + 1;
    }
    proof {
        let vis = cs@.subrange(vis_start as int, vis_end as int);
        if (rel as int) < vis.len() {
            assert(before@ =~= vis.take(rel as int));
            assert(after@ =~= vis.skip(rel + 1));
        } else {
            assert(before@ =~= vis);
        }
    }
    InputWindow { before: string_of(&before), cursor: cur, after: string_of(&after) }
}

} // verus!
