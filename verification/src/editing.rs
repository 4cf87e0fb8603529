//! Editing the input box: inserting and deleting characters at the cursor,
//! and moving the cursor by whole characters. The cursor is a byte offset
//! into the UTF-8 text, always on a character boundary.

use vstd::prelude::*;
use crate::state::{AppModel, AppStateView, ChatModel, TuiApp, app_wf};
use crate::text::{
    char_index_at, char_index_of, char_len_utf8, char_width, chars_of, is_boundary,
    lemma_boundary_index_unique, lemma_utf8_len_concat, lemma_utf8_len_push,
    lemma_utf8_len_take_le, lemma_utf8_len_take_strict, str_byte_len, string_from_chars, utf8_len,
};

verus! {

/// The input box takes text: nothing runs, or an API key is asked for.
pub open spec fn input_active(m: AppModel) -> bool {
    m.state is Idle || m.state is AuthPrompting
}

/// Character index of the input cursor.
pub open spec fn cursor_index(m: AppModel) -> int {
    char_index_of(m.chat.input, m.chat.cursor_pos as int)
}

/// `m` with `c` inserted at the cursor and the cursor after it.
pub open spec fn char_inserted(m: AppModel, c: char) -> AppModel {
    let k = cursor_index(m);
    let s = m.chat.input;
    AppModel {
        chat: ChatModel {
            input: s.take(k) + seq![c] + s.skip(k),
            cursor_pos: (m.chat.cursor_pos + char_width(c)) as usize,
            ..m.chat
        },
        command_palette_cursor: 0,
        ..m
    }
}

/// `m` with the character before the cursor deleted (nothing at the start).
pub open spec fn char_deleted(m: AppModel) -> AppModel {
    if m.chat.cursor_pos == 0 {
        m
    } else {
        let k = cursor_index(m);
        let s = m.chat.input;
        AppModel {
            chat: ChatModel {
                input: s.take(k - 1) + s.skip(k),
                cursor_pos: utf8_len(s.take(k - 1)) as usize,
                ..m.chat
            },
            command_palette_cursor: 0,
            ..m
        }
    }
}

/// `m` with the cursor one character left (nothing at the start).
pub open spec fn cursor_moved_left(m: AppModel) -> AppModel {
    if m.chat.cursor_pos == 0 {
        m
    } else {
        AppModel {
            chat: ChatModel {
                cursor_pos: utf8_len(m.chat.input.take(cursor_index(m) - 1)) as usize,
                ..m.chat
            },
            ..m
        }
    }
}

/// `m` with the cursor one character right (nothing at the end).
pub open spec fn cursor_moved_right(m: AppModel) -> AppModel {
    if m.chat.cursor_pos >= utf8_len(m.chat.input) {
        m
    } else {
        AppModel {
            chat: ChatModel {
                cursor_pos: utf8_len(m.chat.input.take(cursor_index(m) + 1)) as usize,
                ..m.chat
            },
            ..m
        }
    }
}

impl TuiApp {
    /// Inserts `c` at the cursor.
    pub fn insert_char(&mut self, c: char)
        requires
            old(self).wf(),
        ensures
            final(self)@ == char_inserted(old(self)@, c),
            final(self).wf(),
    {
        let ghost m = self@;
        let v = chars_of(self.chat.input.as_str());
        let k = match char_index_at(&v, self.chat.cursor_pos) {
            Some(k) => k,
            None => {
                proof { assert(false); }
                0
            },
        };
        let mut w: Vec<char> = Vec::new();
        let mut i: usize = 0;
        while i < k
            invariant
                0 <= i <= k <= v.len(),
                w@ == v@.take(i as int),
            decreases k - i,
        {
            w.push(v[i]);
            assert(v@.take(i + 1) =~= v@.take(i as int).push(v@[i as int]));
            i = i + 1;
        }
        w.push(c);
        let mut j: usize = k;
        while j < v.len()
            invariant
                k <= j <= v.len(),
                w@ == v@.take(k as int) + seq![c] + v@.subrange(k as int, j as int),
            decreases v.len() - j,
        {
            w.push(v[j]);
            assert(v@.subrange(k as int, j + 1) =~= v@.subrange(k as int, j as int).push(v@[j as int]));
            j = j + 1;
        }
        assert(v@.subrange(k as int, v.len() as int) =~= v@.skip(k as int));
        let s = string_from_chars(&w);
        let ghost t = s@;
        proof {
            lemma_utf8_len_push(v@.take(k as int), c);
            assert(v@.take(k as int) + seq![c] =~= v@.take(k as int).push(c));
            assert(t.take(k + 1) =~= v@.take(k as int).push(c));
            lemma_utf8_len_take_le(t, k + 1);
            assert(is_boundary(t, utf8_len(t.take(k + 1)) as int));
        }
        let w8 = char_len_utf8(c);
        self.chat.input = s;
        self.chat.cursor_pos = self.chat.cursor_pos + w8;
        self.command_palette_cursor = 0;
        proof {
            assert(k == char_index_of(m.chat.input, m.chat.cursor_pos as int));
        }
    }

    /// Deletes the character before the cursor.
    pub fn delete_char(&mut self)
        requires
            old(self).wf(),
        ensures
            final(self)@ == char_deleted(old(self)@),
            final(self).wf(),
    {
        if self.chat.cursor_pos == 0 {
            return;
        }
        let ghost m = self@;
        let v = chars_of(self.chat.input.as_str());
        let k = match char_index_at(&v, self.chat.cursor_pos) {
            Some(k) => k,
            None => {
                proof { assert(false); }
                0
            },
        };
        if k == 0 {
            proof {
                assert(v@.take(0) =~= Seq::<char>::empty());
                assert(utf8_len(v@.take(0)) == 0);
                assert(false);
            }
            return;
        }
        let mut w: Vec<char> = Vec::new();
        let mut i: usize = 0;
        while i < k - 1
            invariant
                1 <= k <= v.len(),
                0 <= i <= k - 1,
                w@ == v@.take(i as int),
            decreases k - 1 - i,
        {
            w.push(v[i]);
            assert(v@.take(i + 1) =~= v@.take(i as int).push(v@[i as int]));
            i = i + 1;
        }
        let mut pos: usize = 0;
        let mut q: usize = 0;
        proof {
            assert(v@.take(0) =~= Seq::<char>::empty());
        }
        while q < k - 1
            invariant
                1 <= k <= v.len(),
                0 <= q <= k - 1,
                pos == utf8_len(v@.take(q as int)),
                utf8_len(v@.take(k as int)) == m.chat.cursor_pos,
            decreases k - 1 - q,
        {
            proof {
                lemma_utf8_len_push(v@.take(q as int), v@[q as int]);
                assert(v@.take(q + 1) =~= v@.take(q as int).push(v@[q as int]));
                lemma_utf8_len_take_strict(v@, q + 1, k as int);
            }
            pos = pos + char_len_utf8(v[q]);
            q = q + 1;
        }
        let mut j: usize = k;
        while j < v.len()
            invariant
                1 <= k <= j <= v.len(),
                w@ == v@.take(k - 1) + v@.subrange(k as int, j as int),
            decreases v.len() - j,
        {
            w.push(v[j]);
            assert(v@.subrange(k as int, j + 1) =~= v@.subrange(k as int, j as int).push(v@[j as int]));
            j = j + 1;
        }
        assert(v@.subrange(k as int, v.len() as int) =~= v@.skip(k as int));
        let s = string_from_chars(&w);
        let ghost t = s@;
        proof {
            assert(t.take(k - 1) =~= v@.take(k - 1));
            lemma_utf8_len_concat(v@.take(k - 1), v@.skip(k as int));
            lemma_utf8_len_concat(v@.take(k as int), v@.skip(k as int));
            assert(v@.take(k as int) + v@.skip(k as int) =~= v@);
            lemma_utf8_len_take_strict(v@, k - 1, k as int);
            assert(is_boundary(t, utf8_len(t.take(k - 1)) as int));
        }
        self.chat.input = s;
        self.chat.cursor_pos = pos;
        self.command_palette_cursor = 0;
    }

    /// Moves the cursor one character left.
    pub fn move_cursor_left(&mut self)
        requires
            old(self).wf(),
        ensures
            final(self)@ == cursor_moved_left(old(self)@),
            final(self).wf(),
    {
        if self.chat.cursor_pos == 0 {
            return;
        }
        let ghost m = self@;
        let v = chars_of(self.chat.input.as_str());
        let k = match char_index_at(&v, self.chat.cursor_pos) {
            Some(k) => k,
            None => {
                proof { assert(false); }
                0
            },
        };
        if k == 0 {
            proof {
                assert(v@.take(0) =~= Seq::<char>::empty());
                assert(utf8_len(v@.take(0)) == 0);
                assert(false);
            }
            return;
        }
        let pos = self.offset_of(&v, k - 1);
        self.chat.cursor_pos = pos;
        proof {
            assert(is_boundary(m.chat.input, pos as int));
        }
    }

    /// Moves the cursor one character right.
    pub fn move_cursor_right(&mut self)
        requires
            old(self).wf(),
        ensures
            final(self)@ == cursor_moved_right(old(self)@),
            final(self).wf(),
    {
        let n = str_byte_len(&self.chat.input);
        if self.chat.cursor_pos >= n {
            return;
        }
        let ghost m = self@;
        let v = chars_of(self.chat.input.as_str());
        let k = match char_index_at(&v, self.chat.cursor_pos) {
            Some(k) => k,
            None => {
                proof { assert(false); }
                0
            },
        };
        if k >= v.len() {
            proof {
                assert(v@.take(k as int) =~= v@);
                assert(false);
            }
            return;
        }
        let pos = self.offset_of(&v, k + 1);
        self.chat.cursor_pos = pos;
        proof {
            assert(is_boundary(m.chat.input, pos as int));
        }
    }

    /// Byte offset of character index `k` of the input text `v`.
    fn offset_of(&self, v: &Vec<char>, k: usize) -> (pos: usize)
        requires
            self.wf(),
            v@ == self.chat.input@,
            k <= v.len(),
        ensures
            pos == utf8_len(v@.take(k as int)),
    {
        let mut pos: usize = 0;
        let mut q: usize = 0;
        proof {
            assert(v@.take(0) =~= Seq::<char>::empty());
        }
        while q < k
            invariant
                0 <= q <= k <= v.len(),
                pos == utf8_len(v@.take(q as int)),
                utf8_len(v@) <= isize::MAX,
            decreases k - q,
        {
            proof {
                lemma_utf8_len_push(v@.take(q as int), v@[q as int]);
                assert(v@.take(q + 1) =~= v@.take(q as int).push(v@[q as int]));
                lemma_utf8_len_take_le(v@, q + 1);
            }
            pos = pos + char_len_utf8(v[q]);
            q = q + 1;
        }
        pos
    }
}

} // verus!
