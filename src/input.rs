use vstd::prelude::*;
use vstd::string::*;
use vstd::utf8::encode_utf8;
use crate::text::char_to_string;

verus! {

/// The editable query line: its text, a cursor counted in characters, and
/// the error banner shown below it.
pub struct Input {
    pub text: String,
    pub char_index: usize,
    pub error_message: String,
}

/// Characters of `s` before position `k`, clamped to the length of `s`.
pub open spec fn prefix_chars(s: Seq<char>, k: int) -> Seq<char> {
    if k <= s.len() {
        s.subrange(0, k)
    } else {
        s
    }
}

/// `min(a, b)` over integers.
pub open spec fn min_int(a: int, b: int) -> int {
    if a <= b {
        a
    } else {
        b
    }
}

/// `s` with `c` inserted at character position `k` (at the end when `k` is
/// past it).
pub open spec fn insert_char(s: Seq<char>, k: int, c: char) -> Seq<char> {
    let at = min_int(k, s.len() as int);
    s.subrange(0, at) + seq![c] + s.subrange(at, s.len() as int)
}


/// What the input box shows while the query is empty.
pub const INPUT_PLACEHOLDER: &'static str = " pattern [flags] • /help";

impl Input {
    /// The cursor stays within the text.
    pub open spec fn wf(&self) -> bool {
        self.char_index <= self.text@.len()
    }

    /// Same text, cursor and error banner.
    pub open spec fn same_as(&self, other: Input) -> bool {
        &&& self.text@ == other.text@
        &&& self.char_index == other.char_index
        &&& self.error_message@ == other.error_message@
    }

    pub fn new() -> (r: Input)
        ensures
            r.text@.len() == 0,
            r.char_index == 0,
            r.error_message@.len() == 0,
            r.wf(),
    {
        Input { text: String::new(), char_index: 0, error_message: String::new() }
    }

    pub fn move_cursor_left(&mut self)
        ensures
            final(self).char_index == min_int(
                if old(self).char_index == 0 { 0 } else { old(self).char_index - 1 },
                old(self).text@.len() as int,
            ),
            final(self).text@ == old(self).text@,
            final(self).error_message@ == old(self).error_message@,
            final(self).wf(),
    {
        let new_cursor_pos = self.char_index.saturating_sub(1);
        self.char_index = self.clamp_cursor(new_cursor_pos);
    }

    pub fn move_cursor_right(&mut self)
        ensures
            final(self).char_index == min_int(
                if old(self).char_index == usize::MAX { usize::MAX as int } else { old(self).char_index + 1 },
                old(self).text@.len() as int,
            ),
            final(self).text@ == old(self).text@,
            final(self).error_message@ == old(self).error_message@,
            final(self).wf(),
    {
        let new_cursor_pos = self.char_index.saturating_add(1);
        self.char_index = self.clamp_cursor(new_cursor_pos);
    }

    /// The position clamped to `[0, number of characters]`.
    pub fn clamp_cursor(&self, new_cursor_pos: usize) -> (r: usize)
        ensures
            r == min_int(new_cursor_pos as int, self.text@.len() as int),
    {
        let count = self.text.as_str().unicode_len();
        if new_cursor_pos < count {
            new_cursor_pos
        } else {
            count
        }
    }

    /// The byte offset in the UTF-8 text of the character at the cursor (the
    /// text's byte length when the cursor is at or past the end).
    pub fn byte_index(&self) -> (r: usize)
        ensures
            r == encode_utf8(prefix_chars(self.text@, self.char_index as int)).len() as usize,
    {
        let count = self.text.as_str().unicode_len();
        let k = if self.char_index < count {
            self.char_index
        } else {
            count
        };
        let head = self.text.as_str().substring_char(0, k);
        assert(head@ == prefix_chars(self.text@, self.char_index as int));
        head.len()
    }

    /// Inserts a character at the cursor and moves the cursor past it.
    pub fn update_input(&mut self, incoming_char: char)
        requires
            old(self).text@.len() < usize::MAX,
        ensures
            final(self).text@ == insert_char(
                old(self).text@,
                old(self).char_index as int,
                incoming_char,
            ),
            final(self).char_index == min_int(
                old(self).char_index as int + 1,
                (old(self).text@.len() + 1) as int,
            ),
            final(self).error_message@ == old(self).error_message@,
            final(self).wf(),
    {
        let count = self.text.as_str().unicode_len();
        let k = if self.char_index < count {
            self.char_index
        } else {
            count
        };
        let head = self.text.as_str().substring_char(0, k);
        let tail = self.text.as_str().substring_char(k, count);
        let middle = char_to_string(incoming_char);
        let joined = String::from_str(head).concat(middle.as_str()).concat(tail);
        self.text = joined;
        self.move_cursor_right();
    }

    /// Removes the character before the cursor and moves the cursor onto its
    /// place; does nothing at the start of the text.
    pub fn delete_char(&mut self)
        requires
            old(self).wf(),
        ensures
            old(self).char_index == 0 ==> final(self).text@ == old(self).text@
                && final(self).char_index == 0,
            old(self).char_index > 0 ==> final(self).text@ == old(self).text@.remove(
                old(self).char_index - 1,
            ) && final(self).char_index == old(self).char_index - 1,
            final(self).error_message@ == old(self).error_message@,
            final(self).wf(),
    {
        if self.char_index != 0 {
            let count = self.text.as_str().unicode_len();
            let head = self.text.as_str().substring_char(0, self.char_index - 1);
            let tail = self.text.as_str().substring_char(self.char_index, count);
            let joined = String::from_str(head).concat(tail);
            assert(joined@ =~= old(self).text@.remove(old(self).char_index - 1));
            self.text = joined;
            self.move_cursor_left();
        }
    }

    /// The text the input box shows, and whether it is the dimmed
    /// placeholder (shown while the query is empty).
    pub fn display_text(&self) -> (r: (String, bool))
        ensures
            self.text@.len() == 0 ==> r.0@ == INPUT_PLACEHOLDER@ && r.1,
            self.text@.len() > 0 ==> r.0@ == self.text@ && !r.1,
    {
        if self.text.as_str().unicode_len() == 0 {
            (String::from_str(INPUT_PLACEHOLDER), true)
        } else {
            (self.text.clone(), false)
        }
    }

    /// The screen column of the cursor in a box whose left edge is at `x`:
    /// past the border and padding, `char_index` columns in (saturating).
    pub fn cursor_column(&self, x: u16) -> (r: u16)
        ensures
            r == (if x as int + self.char_index + 2 <= u16::MAX {
                (x as int + self.char_index + 2) as u16
            } else {
                u16::MAX
            }),
    {
        let index: u16 = if self.char_index < u16::MAX as usize {
            self.char_index as u16
        } else {
            u16::MAX
        };
        x.saturating_add(index).saturating_add(2)
    }

    /// Empties the text and the error banner and puts the cursor at the start.
    pub fn clear_input(&mut self)
        ensures
            final(self).text@.len() == 0,
            final(self).char_index == 0,
            final(self).error_message@.len() == 0,
            final(self).wf(),
    {
        self.char_index = 0;
        self.text = String::new();
        self.clear_error();
    }

    pub fn clear_error(&mut self)
        ensures
            final(self).error_message@.len() == 0,
            final(self).text@ == old(self).text@,
            final(self).char_index == old(self).char_index,
    {
        self.error_message = String::new();
    }

    pub fn set_error(&mut self, message: String)
        ensures
            final(self).error_message@ == message@,
            final(self).text@ == old(self).text@,
            final(self).char_index == old(self).char_index,
    {
        self.error_message = message;
    }
}

impl Default for Input {
    fn default() -> (r: Input)
        ensures
            r.text@.len() == 0,
            r.char_index == 0,
            r.error_message@.len() == 0,
    {
        Input::new()
    }
}

} // verus!
