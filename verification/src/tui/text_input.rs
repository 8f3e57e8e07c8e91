//! Reusable vim-aware text input: a buffer, a cursor (a byte offset into the
//! buffer's UTF-8 encoding) and the vim Normal/Insert mode.
use vstd::prelude::*;
use crate::text::{
    byte_offset, byte_offset_of, char_index_of, chars_of, cursor_at, is_whitespace,
    is_whitespace_spec, lemma_byte_offset_le_len, lemma_utf8_len_empty, lemma_utf8_len_insert, lemma_utf8_len_remove,
    string_of, string_of_range, trim, trimmed, utf8_len, utf8_len_of, utf8_width,
};
use crate::tui::keys::Key;

verus! {

#[derive(Debug, Clone, Copy, PartialEq, Eq, Structural)]
pub enum VimInputMode {
    Normal,
    Insert,
}

pub enum TextInputEvent {
    /// Keep editing — no action required.
    Continue,
    /// User confirmed — contains the trimmed buffer text.
    Submit(String),
    /// User cancelled (Esc in Normal mode or Esc in non-vim mode).
    Cancel,
}

pub struct TextInput {
    pub buffer: String,
    pub cursor_pos: usize,
    pub vim_mode: VimInputMode,
    /// True when the app-wide vim mode setting is enabled.
    pub vim_enabled: bool,
}

/// Longest buffer (in UTF-8 bytes) that still accepts typed characters.
pub open spec fn max_input_bytes() -> nat {
    256
}

/// The cursor sits on a character boundary of a buffer whose encoding fits in memory.
pub open spec fn input_wf(t: TextInput) -> bool {
    &&& utf8_len(t.buffer@) <= usize::MAX
    &&& exists|k: nat| cursor_at(t.buffer@, t.cursor_pos as nat, k)
}

/// The character index of the cursor.
pub open spec fn cursor_index(t: TextInput) -> nat {
    choose|k: nat| cursor_at(t.buffer@, t.cursor_pos as nat, k)
}

/// The character index the cursor is drawn at: past the end counts as the end.
pub open spec fn spans_index(t: TextInput) -> nat {
    if t.cursor_pos >= utf8_len(t.buffer@) {
        t.buffer@.len()
    } else {
        cursor_index(t)
    }
}

// ── Editing operations on (buffer, character index) ─────────────────────────

pub open spec fn op_insert(s: Seq<char>, k: nat, c: char) -> (Seq<char>, nat) {
    if utf8_len(s) < max_input_bytes() {
        (s.insert(k as int, c), k + 1)
    } else {
        (s, k)
    }
}

pub open spec fn op_left(k: nat) -> nat {
    if k == 0 {
        0
    } else {
        (k - 1) as nat
    }
}

pub open spec fn op_right(s: Seq<char>, k: nat) -> nat {
    if k >= s.len() {
        k
    } else {
        k + 1
    }
}

/// Normal-mode right move: one character on, but never past the last
/// character.
pub open spec fn op_right_normal(s: Seq<char>, k: nat) -> nat {
    if s.len() == 0 || k + 1 >= s.len() {
        k
    } else {
        k + 1
    }
}

/// Normal-mode cursor: on the last character at most.
pub open spec fn op_clamp(s: Seq<char>, k: nat) -> nat {
    if s.len() == 0 {
        0
    } else if k > s.len() - 1 {
        (s.len() - 1) as nat
    } else {
        k
    }
}

pub open spec fn op_backspace(s: Seq<char>, k: nat) -> (Seq<char>, nat) {
    if k == 0 {
        (s, k)
    } else {
        (s.remove(k - 1), (k - 1) as nat)
    }
}

pub open spec fn op_delete(s: Seq<char>, k: nat) -> (Seq<char>, nat) {
    if k >= s.len() {
        (s, k)
    } else {
        (s.remove(k as int), k)
    }
}

pub open spec fn op_end_normal(s: Seq<char>) -> nat {
    if s.len() == 0 {
        0
    } else {
        (s.len() - 1) as nat
    }
}

pub open spec fn skip_word(s: Seq<char>, i: nat) -> nat
    decreases s.len() - i,
{
    if i < s.len() && !is_whitespace_spec(s[i as int]) {
        skip_word(s, i + 1)
    } else {
        i
    }
}

pub open spec fn skip_space(s: Seq<char>, i: nat) -> nat
    decreases s.len() - i,
{
    if i < s.len() && is_whitespace_spec(s[i as int]) {
        skip_space(s, i + 1)
    } else {
        i
    }
}

/// `w`: to the start of the next word (from the start of the buffer when the
/// cursor is past the end), then clamped for Normal mode.
pub open spec fn op_word_forward(s: Seq<char>, k: nat) -> nat {
    let start = if k < s.len() {
        k
    } else {
        0
    };
    op_clamp(s, skip_space(s, skip_word(s, start)))
}

pub open spec fn back_space(s: Seq<char>, i: nat) -> nat
    decreases i,
{
    if i > 0 && i < s.len() && is_whitespace_spec(s[i as int]) {
        back_space(s, (i - 1) as nat)
    } else {
        i
    }
}

pub open spec fn back_word(s: Seq<char>, i: nat) -> nat
    decreases i,
{
    if i > 0 && i <= s.len() && !is_whitespace_spec(s[i - 1]) {
        back_word(s, (i - 1) as nat)
    } else {
        i
    }
}

/// `b`: to the start of the previous word.
pub open spec fn op_word_backward(s: Seq<char>, k: nat) -> nat {
    if k == 0 {
        k
    } else {
        back_word(s, back_space(s, (k - 1) as nat))
    }
}

/// Buffer, cursor index and mode after a key press.
pub open spec fn edit(s: Seq<char>, k: nat, mode: VimInputMode, vim_enabled: bool, key: Key) -> (
    Seq<char>,
    nat,
    VimInputMode,
) {
    if !vim_enabled || mode == VimInputMode::Insert {
        match key {
            Key::Esc => if vim_enabled {
                (s, op_clamp(s, k), VimInputMode::Normal)
            } else {
                (s, k, mode)
            },
            Key::Char(c) => (op_insert(s, k, c).0, op_insert(s, k, c).1, mode),
            Key::Backspace => (op_backspace(s, k).0, op_backspace(s, k).1, mode),
            Key::Delete => (op_delete(s, k).0, op_delete(s, k).1, mode),
            Key::Left => (s, op_left(k), mode),
            Key::Right => (s, op_right(s, k), mode),
            _ => (s, k, mode),
        }
    } else {
        match key {
            Key::Char('i') => (s, k, VimInputMode::Insert),
            Key::Char('a') => (s, op_right(s, k), VimInputMode::Insert),
            Key::Char('A') => (s, s.len(), VimInputMode::Insert),
            Key::Char('I') => (s, 0, VimInputMode::Insert),
            Key::Char('h') | Key::Left => (s, op_left(k), mode),
            Key::Char('l') | Key::Right => (s, op_right_normal(s, k), mode),
            Key::Char('0') | Key::Home => (s, 0, mode),
            Key::Char('$') | Key::End => (s, op_end_normal(s), mode),
            Key::Char('w') => (s, op_word_forward(s, k), mode),
            Key::Char('b') => (s, op_word_backward(s, k), mode),
            Key::Char('x') => (
                op_delete(s, k).0,
                op_clamp(op_delete(s, k).0, op_delete(s, k).1),
                mode,
            ),
            Key::Char('D') => (s.take(k as int), op_clamp(s.take(k as int), k), mode),
            _ => (s, k, mode),
        }
    }
}

/// Esc cancels in plain input and in Normal mode (in Insert mode it switches to Normal).
pub open spec fn cancels(mode: VimInputMode, vim_enabled: bool, key: Key) -> bool {
    key == Key::Esc && (!vim_enabled || mode == VimInputMode::Normal)
}

/// The input after an edit leaves it with buffer `s`, cursor index `k` and mode `m`.
pub open spec fn input_is(t: TextInput, s: Seq<char>, k: nat, m: VimInputMode, vim_enabled: bool) -> bool {
    &&& t.buffer@ == s
    &&& cursor_at(s, t.cursor_pos as nat, k)
    &&& t.vim_mode == m
    &&& t.vim_enabled == vim_enabled
    &&& input_wf(t)
    &&& cursor_index(t) == k
}

/// What a key press does: Enter submits the trimmed buffer, Esc in plain
/// input or Normal mode cancels, and every other key edits the input.
pub open spec fn key_handled(t: TextInput, t2: TextInput, key: Key, r: TextInputEvent) -> bool {
    let e = edit(t.buffer@, cursor_index(t), t.vim_mode, t.vim_enabled, key);
    if key == Key::Enter {
        (r matches TextInputEvent::Submit(v) && v@ == trim(t.buffer@)) && t2 == t
    } else if cancels(t.vim_mode, t.vim_enabled, key) {
        r is Cancel && t2 == t
    } else {
        r is Continue && input_is(t2, e.0, e.1, e.2, t.vim_enabled)
    }
}

pub proof fn lemma_cursor_index(t: TextInput)
    requires
        input_wf(t),
    ensures
        cursor_at(t.buffer@, t.cursor_pos as nat, cursor_index(t)),
{
}

/// Typing a character and then pressing Backspace gives back the buffer and
/// cursor as they were (when the buffer had room for the character).
pub proof fn law_type_then_backspace(s: Seq<char>, k: nat, mode: VimInputMode, vim_enabled: bool, c: char)
    requires
        k <= s.len(),
        utf8_len(s) < max_input_bytes(),
        !vim_enabled || mode == VimInputMode::Insert,
    ensures
        ({
            let e1 = edit(s, k, mode, vim_enabled, Key::Char(c));
            let e2 = edit(e1.0, e1.1, e1.2, vim_enabled, Key::Backspace);
            e2.0 == s && e2.1 == k && e2.2 == mode
        }),
{
    assert(s.insert(k as int, c).remove(k as int) =~= s);
}

/// A key press keeps the input valid and its vim setting; the buffer grows
/// only by the one character typed, and only while it holds fewer than 256
/// bytes; Enter submits the trimmed text and Esc cancels, both leaving the
/// input as it was.
pub proof fn law_key_keeps_input(t: TextInput, key: Key, t2: TextInput, r: TextInputEvent)
    requires
        input_wf(t),
        key_handled(t, t2, key, r),
    ensures
        input_wf(t2),
        t2.vim_enabled == t.vim_enabled,
        t2.buffer@.len() > t.buffer@.len() ==> utf8_len(t.buffer@) < max_input_bytes()
            && t2.buffer@.len() == t.buffer@.len() + 1,
        r matches TextInputEvent::Submit(v) ==> v@ == trim(t.buffer@) && t2 == t,
        r is Cancel ==> t2 == t,
{
    lemma_cursor_index(t);
}

/// Over any sequence of key presses the input stays valid and keeps its vim
/// setting, and each press obeys `law_key_keeps_input`.
pub proof fn law_keys_keep_input(keys: Seq<Key>, ts: Seq<TextInput>, rs: Seq<TextInputEvent>)
    requires
        ts.len() == keys.len() + 1,
        rs.len() == keys.len(),
        input_wf(ts[0]),
        forall|i: int| 0 <= i < keys.len() ==> #[trigger] key_handled(ts[i], ts[i + 1], keys[i], rs[i]),
    ensures
        forall|i: int| 0 <= i < ts.len() ==> input_wf(#[trigger] ts[i]) && ts[i].vim_enabled == ts[0].vim_enabled,
        forall|i: int|
            0 <= i < keys.len() ==> (#[trigger] ts[i + 1].buffer@.len() > ts[i].buffer@.len() ==> utf8_len(
                ts[i].buffer@,
            ) < max_input_bytes()),
    decreases keys.len(),
{
    if keys.len() > 0 {
        let n = keys.len() - 1;
        law_keys_keep_input(keys.drop_last(), ts.drop_last(), rs.drop_last());
        assert(ts.drop_last()[n] == ts[n]);
        assert(key_handled(ts[n], ts[n + 1], keys[n], rs[n]));
        law_key_keeps_input(ts[n], keys[n], ts[n + 1], rs[n]);
        assert forall|i: int| 0 <= i < ts.len() implies input_wf(#[trigger] ts[i]) && ts[i].vim_enabled
            == ts[0].vim_enabled by {
            if i < ts.len() - 1 {
                assert(ts.drop_last()[i] == ts[i]);
            }
        }
        assert forall|i: int| 0 <= i < keys.len() implies (#[trigger] ts[i + 1].buffer@.len()
            > ts[i].buffer@.len() ==> utf8_len(ts[i].buffer@) < max_input_bytes()) by {
            if i < n {
                assert(ts.drop_last()[i] == ts[i]);
                assert(ts.drop_last()[i + 1] == ts[i + 1]);
            }
        }
    }
}

impl TextInput {
    pub fn new(vim_enabled: bool) -> (r: Self)
        ensures
            r.buffer@.len() == 0,
            r.cursor_pos == 0,
            r.vim_mode == VimInputMode::Insert,
            r.vim_enabled == vim_enabled,
            input_wf(r),
    {
        let r = TextInput {
            buffer: String::new(),
            cursor_pos: 0,
            vim_mode: VimInputMode::Insert,
            vim_enabled,
        };
        proof {
            lemma_utf8_len_empty();
        }
        assert(cursor_at(r.buffer@, r.cursor_pos as nat, 0));
        r
    }

    /// Reset to empty, ready for fresh input. Starts in Insert mode.
    pub fn reset(&mut self)
        ensures
            final(self).buffer@.len() == 0,
            final(self).cursor_pos == 0,
            final(self).vim_mode == VimInputMode::Insert,
            final(self).vim_enabled == old(self).vim_enabled,
            input_wf(*final(self)),
    {
        self.buffer = String::new();
        self.cursor_pos = 0;
        self.vim_mode = VimInputMode::Insert;
        proof {
            lemma_utf8_len_empty();
        }
        assert(cursor_at(self.buffer@, self.cursor_pos as nat, 0));
    }

    /// Pre-fill with an existing value (e.g. rename prompts). Cursor goes to end.
    pub fn set_value(&mut self, s: &str)
        requires
            utf8_len(s@) <= usize::MAX,
        ensures
            input_is(*final(self), s@, s@.len(), VimInputMode::Insert, old(self).vim_enabled),
    {
        let v = chars_of(s);
        let n = utf8_len_of(&v);
        self.buffer = string_of(&v);
        self.cursor_pos = n;
        self.vim_mode = VimInputMode::Insert;
        assert(v@.take(v@.len() as int) =~= v@);
        assert(cursor_at(self.buffer@, self.cursor_pos as nat, v@.len()));
        proof {
            crate::text::lemma_cursor_at_unique(self.buffer@, self.cursor_pos as nat, v@.len(), cursor_index(*self));
        }
    }

    /// Sync the vim_enabled flag (call when the setting changes at runtime).
    pub fn set_vim_enabled(&mut self, enabled: bool)
        ensures
            *final(self) == (TextInput { vim_enabled: enabled, ..*old(self) }),
    {
        self.vim_enabled = enabled;
    }

    /// Return the buffer content trimmed.
    pub fn value(&self) -> (r: String)
        ensures
            r@ == trim(self.buffer@),
    {
        trimmed(self.buffer.as_str())
    }

    /// Returns `(before_cursor, cursor_char, after_cursor)` for rendering;
    /// `cursor_char` is a space when the cursor is at or past the end (a
    /// cursor past the end counts as at the end).
    pub fn cursor_spans(&self) -> (r: (String, String, String))
        requires
            utf8_len(self.buffer@) <= usize::MAX,
            self.cursor_pos >= utf8_len(self.buffer@) || exists|k: nat|
                cursor_at(self.buffer@, self.cursor_pos as nat, k),
        ensures
            ({
                let s = self.buffer@;
                let k = spans_index(*self);
                &&& r.0@ == s.take(k as int)
                &&& k < s.len() ==> r.1@ == seq![s[k as int]] && r.2@ == s.skip((k + 1) as int)
                &&& k >= s.len() ==> r.1@ == seq![' '] && r.2@.len() == 0
            }),
    {
        let v = chars_of(self.buffer.as_str());
        let n = utf8_len_of(&v);
        if self.cursor_pos >= n {
            let before = string_of_range(&v, 0, v.len());
            assert(v@.subrange(0, v@.len() as int) =~= v@.take(v@.len() as int));
            let mut cur = String::new();
            cur.push(' ');
            return (before, cur, String::new());
        }
        let k = char_index_of(&v, self.cursor_pos);
        let before = string_of_range(&v, 0, k);
        proof {
            crate::text::lemma_cursor_at_unique(v@, self.cursor_pos as nat, k as nat, cursor_index(*self));
        }
        if k < v.len() {
            let cur = string_of_range(&v, k, k + 1);
            let after = string_of_range(&v, k + 1, v.len());
            assert(v@.subrange(k as int, k + 1) =~= seq![v@[k as int]]);
            assert(v@.subrange(k + 1, v@.len() as int) =~= v@.skip(k + 1));
            (before, cur, after)
        } else {
            let mut cur = String::new();
            cur.push(' ');
            (before, cur, String::new())
        }
    }

    /// Mode label suitable for display (`-- INSERT --`, `-- NORMAL --`, or `""`).
    pub fn mode_label(&self) -> (r: &'static str)
        ensures
            r@ == (if !self.vim_enabled {
                ""@
            } else if self.vim_mode == VimInputMode::Insert {
                "-- INSERT --"@
            } else {
                "-- NORMAL --"@
            }),
    {
        if !self.vim_enabled {
            return "";
        }
        match self.vim_mode {
            VimInputMode::Insert => "-- INSERT --",
            VimInputMode::Normal => "-- NORMAL --",
        }
    }

    /// Hint text for the current mode.
    pub fn hint(&self) -> (r: &'static str)
        ensures
            r@ == (if !self.vim_enabled {
                "[Enter] save  [Esc] cancel"@
            } else if self.vim_mode == VimInputMode::Insert {
                "[Esc] normal  [Enter] save"@
            } else {
                "[i/a/A/I] insert  [h/l] move  [w/b] word  [x] del  [D] del→end  [Enter] save  [Esc] cancel"@
            }),
    {
        if !self.vim_enabled {
            return "[Enter] save  [Esc] cancel";
        }
        match self.vim_mode {
            VimInputMode::Insert => "[Esc] normal  [Enter] save",
            VimInputMode::Normal => {
                "[i/a/A/I] insert  [h/l] move  [w/b] word  [x] del  [D] del→end  [Enter] save  [Esc] cancel"
            },
        }
    }

    // ── Buffer primitives ──────────────────────────────────────────────────

    /// Store buffer `v` with the cursor at character index `k`.
    fn store(&mut self, v: &Vec<char>, k: usize)
        requires
            k <= v@.len(),
            utf8_len(v@) <= usize::MAX,
        ensures
            input_is(*final(self), v@, k as nat, old(self).vim_mode, old(self).vim_enabled),
    {
        let b = byte_offset_of(v, k);
        self.buffer = string_of(v);
        self.cursor_pos = b;
        assert(cursor_at(self.buffer@, self.cursor_pos as nat, k as nat));
        proof {
            crate::text::lemma_cursor_at_unique(v@, self.cursor_pos as nat, k as nat, cursor_index(*self));
        }
    }

    /// Switch the vim mode, keeping buffer and cursor.
    fn set_mode(&mut self, m: VimInputMode)
        requires
            input_wf(*old(self)),
        ensures
            input_is(*final(self), old(self).buffer@, cursor_index(*old(self)), m, old(self).vim_enabled),
    {
        proof {
            lemma_cursor_index(*self);
        }
        self.vim_mode = m;
        assert(cursor_at(self.buffer@, self.cursor_pos as nat, cursor_index(*old(self))));
        proof {
            crate::text::lemma_cursor_at_unique(self.buffer@, self.cursor_pos as nat, cursor_index(*old(self)), cursor_index(*self));
        }
    }

    fn load(&self) -> (r: (Vec<char>, usize))
        requires
            input_wf(*self),
        ensures
            r.0@ == self.buffer@,
            r.1 as nat == cursor_index(*self),
            cursor_at(self.buffer@, self.cursor_pos as nat, r.1 as nat),
    {
        let v = chars_of(self.buffer.as_str());
        let k = char_index_of(&v, self.cursor_pos);
        proof {
            crate::text::lemma_cursor_at_unique(v@, self.cursor_pos as nat, k as nat, cursor_index(*self));
        }
        (v, k)
    }

    fn insert_char(&mut self, c: char)
        requires
            input_wf(*old(self)),
        ensures
            input_is(
                *final(self),
                op_insert(old(self).buffer@, cursor_index(*old(self)), c).0,
                op_insert(old(self).buffer@, cursor_index(*old(self)), c).1,
                old(self).vim_mode,
                old(self).vim_enabled,
            ),
    {
        let (mut v, k) = self.load();
        let len = utf8_len_of(&v);
        if len < 256 {
            proof {
                lemma_utf8_len_insert(v@, k as int, c);
            }
            v.insert(k, c);
            assert(k < v.len());
            self.store(&v, k + 1);
        } else {
            self.store(&v, k);
        }
    }

    fn move_left(&mut self)
        requires
            input_wf(*old(self)),
        ensures
            input_is(
                *final(self),
                old(self).buffer@,
                op_left(cursor_index(*old(self))),
                old(self).vim_mode,
                old(self).vim_enabled,
            ),
    {
        let (v, k) = self.load();
        if k == 0 {
            self.store(&v, 0);
            return ;
        }
        self.store(&v, k - 1);
    }

    fn move_right(&mut self)
        requires
            input_wf(*old(self)),
        ensures
            input_is(
                *final(self),
                old(self).buffer@,
                op_right(old(self).buffer@, cursor_index(*old(self))),
                old(self).vim_mode,
                old(self).vim_enabled,
            ),
    {
        let (v, k) = self.load();
        if k >= v.len() {
            self.store(&v, k);
            return ;
        }
        self.store(&v, k + 1);
    }

    fn move_right_normal(&mut self)
        requires
            input_wf(*old(self)),
        ensures
            input_is(
                *final(self),
                old(self).buffer@,
                op_right_normal(old(self).buffer@, cursor_index(*old(self))),
                old(self).vim_mode,
                old(self).vim_enabled,
            ),
    {
        let (v, k) = self.load();
        if v.len() == 0 || k >= v.len() - 1 {
            self.store(&v, k);
            return ;
        }
        self.move_right();
    }

    fn clamp_normal(&mut self)
        requires
            input_wf(*old(self)),
        ensures
            input_is(
                *final(self),
                old(self).buffer@,
                op_clamp(old(self).buffer@, cursor_index(*old(self))),
                old(self).vim_mode,
                old(self).vim_enabled,
            ),
    {
        let (v, k) = self.load();
        if v.len() == 0 {
            self.store(&v, 0);
            return ;
        }
        if k > v.len() - 1 {
            self.store(&v, v.len() - 1);
        } else {
            self.store(&v, k);
        }
    }

    fn backspace(&mut self)
        requires
            input_wf(*old(self)),
        ensures
            input_is(
                *final(self),
                op_backspace(old(self).buffer@, cursor_index(*old(self))).0,
                op_backspace(old(self).buffer@, cursor_index(*old(self))).1,
                old(self).vim_mode,
                old(self).vim_enabled,
            ),
    {
        let (mut v, k) = self.load();
        if k == 0 {
            self.store(&v, 0);
            return ;
        }
        proof {
            lemma_utf8_len_remove(v@, k - 1);
        }
        v.remove(k - 1);
        self.store(&v, k - 1);
    }

    fn delete_at_cursor(&mut self)
        requires
            input_wf(*old(self)),
        ensures
            input_is(
                *final(self),
                op_delete(old(self).buffer@, cursor_index(*old(self))).0,
                op_delete(old(self).buffer@, cursor_index(*old(self))).1,
                old(self).vim_mode,
                old(self).vim_enabled,
            ),
    {
        let (mut v, k) = self.load();
        if k >= v.len() {
            self.store(&v, k);
            return ;
        }
        proof {
            lemma_utf8_len_remove(v@, k as int);
        }
        v.remove(k);
        self.store(&v, k);
    }

    fn end_normal(&mut self)
        requires
            input_wf(*old(self)),
        ensures
            input_is(
                *final(self),
                old(self).buffer@,
                op_end_normal(old(self).buffer@),
                old(self).vim_mode,
                old(self).vim_enabled,
            ),
    {
        let (v, _k) = self.load();
        if v.len() == 0 {
            self.store(&v, 0);
            return ;
        }
        self.store(&v, v.len() - 1);
    }

    fn word_forward(&mut self)
        requires
            input_wf(*old(self)),
        ensures
            input_is(
                *final(self),
                old(self).buffer@,
                op_word_forward(old(self).buffer@, cursor_index(*old(self))),
                old(self).vim_mode,
                old(self).vim_enabled,
            ),
    {
        let (v, k) = self.load();
        let n = v.len();
        let start = if k < n {
            k
        } else {
            0
        };
        let mut i = start;
        while i < n && !is_whitespace(v[i])
            invariant
                start <= i <= n,
                n == v@.len(),
                skip_word(v@, start as nat) == skip_word(v@, i as nat),
            decreases n - i,
        {
            i = i + 1;
        }
        let ghost w = i;
        while i < n && is_whitespace(v[i])
            invariant
                w <= i <= n,
                n == v@.len(),
                skip_space(v@, w as nat) == skip_space(v@, i as nat),
            decreases n - i,
        {
            i = i + 1;
        }
        let c = if n == 0 {
            0
        } else if i > n - 1 {
            n - 1
        } else {
            i
        };
        self.store(&v, c);
    }

    fn word_backward(&mut self)
        requires
            input_wf(*old(self)),
        ensures
            input_is(
                *final(self),
                old(self).buffer@,
                op_word_backward(old(self).buffer@, cursor_index(*old(self))),
                old(self).vim_mode,
                old(self).vim_enabled,
            ),
    {
        let (v, k) = self.load();
        if k == 0 {
            self.store(&v, k);
            return ;
        }
        let mut i = k - 1;
        while i > 0 && is_whitespace(v[i])
            invariant
                i < v@.len(),
                back_space(v@, (k - 1) as nat) == back_space(v@, i as nat),
            decreases i,
        {
            i = i - 1;
        }
        let ghost w = i;
        while i > 0 && !is_whitespace(v[i - 1])
            invariant
                i <= w < v@.len(),
                back_word(v@, w as nat) == back_word(v@, i as nat),
            decreases i,
        {
            i = i - 1;
        }
        self.store(&v, i);
    }

    fn truncate_at_cursor(&mut self)
        requires
            input_wf(*old(self)),
        ensures
            input_is(
                *final(self),
                old(self).buffer@.take(cursor_index(*old(self)) as int),
                cursor_index(*old(self)),
                old(self).vim_mode,
                old(self).vim_enabled,
            ),
    {
        let (mut v, k) = self.load();
        proof {
            lemma_byte_offset_le_len(v@, k as nat);
            assert(v@.take(k as int).take(k as int) =~= v@.take(k as int));
        }
        v.truncate(k);
        self.store(&v, k);
    }

    // ── Key handling ───────────────────────────────────────────────────────

    /// Process a key press and return what the caller should do.
    pub fn handle_key(&mut self, key: Key) -> (r: TextInputEvent)
        requires
            input_wf(*old(self)),
        ensures
            key_handled(*old(self), *final(self), key, r),
    {
        proof {
            lemma_cursor_index(*self);
        }
        if self.vim_enabled {
            match self.vim_mode {
                VimInputMode::Insert => self.handle_insert(key),
                VimInputMode::Normal => self.handle_normal(key),
            }
        } else {
            self.handle_simple(key)
        }
    }

    fn keep(&mut self)
        requires
            input_wf(*old(self)),
        ensures
            input_is(
                *final(self),
                old(self).buffer@,
                cursor_index(*old(self)),
                old(self).vim_mode,
                old(self).vim_enabled,
            ),
            *final(self) == *old(self),
    {
        proof {
            lemma_cursor_index(*self);
        }
    }

    fn handle_simple(&mut self, key: Key) -> (r: TextInputEvent)
        requires
            input_wf(*old(self)),
            !old(self).vim_enabled,
        ensures
            key_handled(*old(self), *final(self), key, r),
    {
        match key {
            Key::Enter => TextInputEvent::Submit(self.value()),
            Key::Esc => TextInputEvent::Cancel,
            Key::Char(c) => {
                self.insert_char(c);
                TextInputEvent::Continue
            },
            Key::Backspace => {
                self.backspace();
                TextInputEvent::Continue
            },
            Key::Delete => {
                self.delete_at_cursor();
                TextInputEvent::Continue
            },
            Key::Left => {
                self.move_left();
                TextInputEvent::Continue
            },
            Key::Right => {
                self.move_right();
                TextInputEvent::Continue
            },
            _ => {
                self.keep();
                TextInputEvent::Continue
            },
        }
    }

    fn handle_insert(&mut self, key: Key) -> (r: TextInputEvent)
        requires
            input_wf(*old(self)),
            old(self).vim_enabled,
            old(self).vim_mode == VimInputMode::Insert,
        ensures
            key_handled(*old(self), *final(self), key, r),
    {
        match key {
            Key::Esc => {
                self.set_mode(VimInputMode::Normal);
                self.clamp_normal();
                TextInputEvent::Continue
            },
            Key::Enter => TextInputEvent::Submit(self.value()),
            Key::Char(c) => {
                self.insert_char(c);
                TextInputEvent::Continue
            },
            Key::Backspace => {
                self.backspace();
                TextInputEvent::Continue
            },
            Key::Delete => {
                self.delete_at_cursor();
                TextInputEvent::Continue
            },
            Key::Left => {
                self.move_left();
                TextInputEvent::Continue
            },
            Key::Right => {
                self.move_right();
                TextInputEvent::Continue
            },
            _ => {
                self.keep();
                TextInputEvent::Continue
            },
        }
    }

    fn handle_normal(&mut self, key: Key) -> (r: TextInputEvent)
        requires
            input_wf(*old(self)),
            old(self).vim_enabled,
            old(self).vim_mode == VimInputMode::Normal,
        ensures
            key_handled(*old(self), *final(self), key, r),
    {
        match key {
            Key::Char('i') => {
                self.set_mode(VimInputMode::Insert);
                TextInputEvent::Continue
            },
            Key::Char('a') => {
                self.move_right();
                self.set_mode(VimInputMode::Insert);
                TextInputEvent::Continue
            },
            Key::Char('A') => {
                let (v, _k) = self.load();
                self.store(&v, v.len());
                self.set_mode(VimInputMode::Insert);
                TextInputEvent::Continue
            },
            Key::Char('I') => {
                let (v, _k) = self.load();
                self.store(&v, 0);
                self.set_mode(VimInputMode::Insert);
                TextInputEvent::Continue
            },
            Key::Enter => TextInputEvent::Submit(self.value()),
            Key::Esc => TextInputEvent::Cancel,
            Key::Char('h') | Key::Left => {
                self.move_left();
                TextInputEvent::Continue
            },
            Key::Char('l') | Key::Right => {
                self.move_right_normal();
                TextInputEvent::Continue
            },
            Key::Char('0') | Key::Home => {
                let (v, _k) = self.load();
                self.store(&v, 0);
                TextInputEvent::Continue
            },
            Key::Char('$') | Key::End => {
                self.end_normal();
                TextInputEvent::Continue
            },
            Key::Char('w') => {
                self.word_forward();
                TextInputEvent::Continue
            },
            Key::Char('b') => {
                self.word_backward();
                TextInputEvent::Continue
            },
            Key::Char('x') => {
                self.delete_at_cursor();
                self.clamp_normal();
                TextInputEvent::Continue
            },
            Key::Char('D') => {
                self.truncate_at_cursor();
                self.clamp_normal();
                TextInputEvent::Continue
            },
            _ => {
                self.keep();
                TextInputEvent::Continue
            },
        }
    }
}

} // verus!
