//! A one-line text input box with a cursor.
use vstd::prelude::*;

use crate::ui::events::{KeyCode, KeyEvent, MouseButton, MouseEvent, MouseEventKind};
use crate::ui::layout::{Position, Rect};

verus! {

/// Calls `String::push`, which appends the character to the end of the
/// string; the contract says just that.
#[verifier::external_body]
pub(crate) fn push_char(s: &mut String, c: char)
    ensures
        final(s)@ == old(s)@.push(c),
{
    s.push(c);
}

/// A text input box: its text, and the cursor's position in it, counted in
/// characters (the cursor stands before the character at that position).
#[derive(Debug)]
pub struct InputBox {
    text: Vec<char>,
    cursor: usize,
}

/// The text after typing `c` at `cursor`.
pub open spec fn spec_insert(text: Seq<char>, cursor: int, c: char) -> Seq<char> {
    text.subrange(0, cursor) + seq![c] + text.subrange(cursor, text.len() as int)
}

/// The text without the character at `at`.
pub open spec fn spec_delete(text: Seq<char>, at: int) -> Seq<char> {
    text.subrange(0, at) + text.subrange(at + 1, text.len() as int)
}

/// What a key does to the text `t` with the cursor at `c`, giving `t2`
/// with the cursor at `c2`: a character is typed at the cursor; backspace
/// deletes the character before the cursor and delete the one after it;
/// left, right, home and end move the cursor; other keys do nothing.
pub open spec fn spec_key_edit(t: Seq<char>, c: int, key: KeyEvent, t2: Seq<char>, c2: int) -> bool {
    match key.code {
        KeyCode::Char(ch) => t2 == spec_insert(t, c, ch) && c2 == c + 1,
        KeyCode::Backspace => if c > 0 {
            t2 == spec_delete(t, c - 1) && c2 == c - 1
        } else {
            t2 == t && c2 == c
        },
        KeyCode::Delete => if c < t.len() {
            t2 == spec_delete(t, c) && c2 == c
        } else {
            t2 == t && c2 == c
        },
        KeyCode::Left => t2 == t && c2 == if c > 0 {
            c - 1
        } else {
            0
        },
        KeyCode::Right => t2 == t && c2 == if c < t.len() {
            c + 1
        } else {
            c
        },
        KeyCode::Home => t2 == t && c2 == 0,
        KeyCode::End => t2 == t && c2 == t.len(),
        _ => t2 == t && c2 == c,
    }
}

/// Where a mouse event puts the cursor of a box drawn in `area`, holding
/// `len` characters with the cursor at `c`: a left click in the box moves
/// it under the clicked column (inside the one-cell border), or to the end
/// of the text when the click is past it; other events leave it.
pub open spec fn spec_click_cursor(mouse: MouseEvent, area: Rect, len: nat, c: int) -> int {
    if area.spec_contains(Position { x: mouse.column, y: mouse.row }) && mouse.kind
        == MouseEventKind::Down(MouseButton::Left) {
        let offset = if mouse.column <= area.x {
            0
        } else {
            mouse.column - area.x - 1
        };
        if offset < len {
            offset
        } else {
            len as int
        }
    } else {
        c
    }
}

impl InputBox {
    #[verifier::type_invariant]
    spec fn cursor_in_text(self) -> bool {
        self.cursor <= self.text@.len()
    }

    /// The text in the box.
    pub closed spec fn content(&self) -> Seq<char> {
        self.text@
    }

    /// The cursor's position in the text.
    pub closed spec fn cursor_at(&self) -> int {
        self.cursor as int
    }

    /// An empty box.
    pub fn new() -> (r: Self)
        ensures
            r.content() == Seq::<char>::empty(),
            r.cursor_at() == 0,
    {
        InputBox { text: Vec::new(), cursor: 0 }
    }

    /// The text in the box.
    pub fn text(&self) -> (r: String)
        ensures
            r@ == self.content(),
    {
        let mut s = String::new();
        let mut i: usize = 0;
        while i < self.text.len()
            invariant
                i <= self.text@.len(),
                s@ == self.text@.subrange(0, i as int),
            decreases self.text@.len() - i,
        {
            push_char(&mut s, self.text[i]);
            assert(self.text@.subrange(0, i + 1) =~= self.text@.subrange(0, i as int).push(
                self.text@[i as int],
            ));
            i = i + 1;
        }
        assert(self.text@.subrange(0, self.text@.len() as int) =~= self.text@);
        s
    }

    /// Whether the box holds no text.
    pub fn is_empty(&self) -> (r: bool)
        ensures
            r == (self.content().len() == 0),
    {
        self.text.len() == 0
    }

    /// Empties the box.
    pub fn reset(&mut self)
        ensures
            final(self).content() == Seq::<char>::empty(),
            final(self).cursor_at() == 0,
    {
        self.cursor = 0;
        self.text = Vec::new();
    }

    /// Takes the text out, leaving the box empty.
    fn take_text(&mut self) -> (r: Vec<char>)
        ensures
            r@ == old(self).content(),
            final(self).content() == Seq::<char>::empty(),
            final(self).cursor_at() == 0,
    {
        self.cursor = 0;
        let mut t: Vec<char> = Vec::new();
        std::mem::swap(&mut t, &mut self.text);
        t
    }

    /// Edits the text as the key says (see [`spec_key_edit`]).
    pub fn handle_key_event(&mut self, key: KeyEvent)
        ensures
            spec_key_edit(old(self).content(), old(self).cursor_at(), key, final(self).content(), final(self).cursor_at()),
    {
        proof {
            use_type_invariant(&*self);
        }
        let len = self.text.len();
        match key.code {
            KeyCode::Char(ch) => {
                let at = self.cursor;
                let mut t = self.take_text();
                let ghost before = t@;
                t.insert(at, ch);
                assert(t@ =~= spec_insert(before, at as int, ch));
                let n = t.len();
                assert(at < n);
                self.text = t;
                self.cursor = at + 1;
            },
            KeyCode::Backspace => {
                if self.cursor > 0 {
                    let at = self.cursor - 1;
                    let mut t = self.take_text();
                    let ghost before = t@;
                    t.remove(at);
                    assert(t@ =~= spec_delete(before, at as int));
                    self.text = t;
                    self.cursor = at;
                }
            },
            KeyCode::Delete => {
                if self.cursor < len {
                    let at = self.cursor;
                    let mut t = self.take_text();
                    let ghost before = t@;
                    t.remove(at);
                    assert(t@ =~= spec_delete(before, at as int));
                    self.text = t;
                    self.cursor = at;
                }
            },
            KeyCode::Left => {
                if self.cursor > 0 {
                    self.cursor = self.cursor - 1;
                }
            },
            KeyCode::Right => {
                if self.cursor < len {
                    self.cursor = self.cursor + 1;
                }
            },
            KeyCode::Home => {
                self.cursor = 0;
            },
            KeyCode::End => {
                self.cursor = len;
            },
            _ => {},
        }
    }

    /// Moves the cursor where a click puts it (see [`spec_click_cursor`]);
    /// the text never changes.
    pub fn handle_mouse_event(&mut self, mouse: MouseEvent, area: Rect)
        ensures
            final(self).content() == old(self).content(),
            final(self).cursor_at() == spec_click_cursor(mouse, area, old(self).content().len(), old(self).cursor_at()),
    {
        let p = Position::new(mouse.column, mouse.row);
        if area.contains(p) && mouse.kind == MouseEventKind::Down(MouseButton::Left) {
            let offset: usize = if mouse.column <= area.x {
                0
            } else {
                (mouse.column - area.x - 1) as usize
            };
            let len = self.text.len();
            self.cursor = if offset < len {
                offset
            } else {
                len
            };
        }
    }
}

/// Typing a character and then deleting it with backspace gives back the
/// text and the cursor as they were.
pub proof fn lemma_type_then_backspace(t: Seq<char>, c: int, ch: char)
    requires
        0 <= c <= t.len(),
    ensures
        spec_delete(spec_insert(t, c, ch), c) == t,
        spec_insert(t, c, ch).len() == t.len() + 1,
{
    assert(spec_delete(spec_insert(t, c, ch), c) =~= t);
}

/// Typing with the cursor at the end appends the character.
pub proof fn lemma_type_at_end(t: Seq<char>, ch: char)
    ensures
        spec_insert(t, t.len() as int, ch) == t.push(ch),
{
    assert(spec_insert(t, t.len() as int, ch) =~= t.push(ch));
}

/// Whatever the key, the cursor stays within the text.
pub proof fn lemma_key_keeps_cursor(t: Seq<char>, c: int, key: KeyEvent, t2: Seq<char>, c2: int)
    requires
        0 <= c <= t.len(),
        spec_key_edit(t, c, key, t2, c2),
    ensures
        0 <= c2 <= t2.len(),
{
}

} // verus!
