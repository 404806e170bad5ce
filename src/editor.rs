//! The state behind the input box: the line being typed, a cursor over its
//! characters, and the status lines produced so far.
use vstd::prelude::*;
use crate::dispatch::{line_status, status_of_line};
use crate::shape::{classify_trimmed, shape_of, trim, utf8_len, utf8_prefix_len, InputShape};

verus! {

/// Whether keys go to the input box.
#[derive(Clone, Copy, Debug, PartialEq, Eq)]
pub enum InputMode {
    Normal,
    Editing,
}

/// The editor: the line being typed, the cursor (a character position), the
/// mode, and the status lines produced so far.
pub struct App {
    pub input: Vec<char>,
    pub character_index: usize,
    pub input_mode: InputMode,
    pub messages: Vec<String>,
}

impl App {
    /// The cursor stands within the line or just after it, and the line's
    /// length is a `usize`.
    pub open spec fn wf(&self) -> bool {
        self.character_index <= self.input@.len() <= usize::MAX
    }

    /// An empty line, the cursor at its start, in normal mode, with no messages.
    pub fn new() -> (r: App)
        ensures
            r.wf(),
            r.input@ == Seq::<char>::empty(),
            r.character_index == 0,
            r.input_mode == InputMode::Normal,
            r.messages@ == Seq::<String>::empty(),
    {
        App {
            input: Vec::new(),
            input_mode: InputMode::Normal,
            messages: Vec::new(),
            character_index: 0,
        }
    }

    /// The position brought within `0..=` the number of characters.
    pub fn clamp_cursor(&self, new_cursor_pos: usize) -> (r: usize)
        ensures
            r == if new_cursor_pos <= self.input@.len() {
                new_cursor_pos as int
            } else {
                self.input@.len() as int
            },
    {
        if new_cursor_pos <= self.input.len() {
            new_cursor_pos
        } else {
            self.input.len()
        }
    }

    /// One character to the left, not past the start.
    pub fn move_cursor_left(&mut self)
        requires
            old(self).input@.len() <= usize::MAX,
        ensures
            final(self).wf(),
            final(self).character_index == if old(self).character_index == 0 {
                0
            } else if old(self).character_index - 1 <= old(self).input@.len() {
                old(self).character_index - 1
            } else {
                old(self).input@.len() as int
            },
            final(self).input == old(self).input,
            final(self).input_mode == old(self).input_mode,
            final(self).messages == old(self).messages,
    {
        let cursor_moved_left = self.character_index.saturating_sub(1);
        self.character_index = self.clamp_cursor(cursor_moved_left);
    }

    /// One character to the right, not past the end.
    pub fn move_cursor_right(&mut self)
        requires
            old(self).wf(),
        ensures
            final(self).wf(),
            final(self).character_index == if old(self).character_index as int + 1
                <= old(self).input@.len() {
                old(self).character_index + 1
            } else {
                old(self).input@.len() as int
            },
            final(self).input == old(self).input,
            final(self).input_mode == old(self).input_mode,
            final(self).messages == old(self).messages,
    {
        let cursor_moved_right = self.character_index.saturating_add(1);
        self.character_index = self.clamp_cursor(cursor_moved_right);
    }

    /// Inserts `new_char` at the cursor and moves the cursor past it.
    pub fn enter_char(&mut self, new_char: char)
        requires
            old(self).wf(),
            old(self).input@.len() < usize::MAX,
        ensures
            final(self).wf(),
            final(self).input@ == old(self).input@.insert(
                old(self).character_index as int,
                new_char,
            ),
            final(self).character_index == old(self).character_index + 1,
            final(self).input_mode == old(self).input_mode,
            final(self).messages == old(self).messages,
    {
        let index = self.character_index;
        self.input.insert(index, new_char);
        self.move_cursor_right();
    }

    /// Where the cursor stands in the line's UTF-8 bytes: the width of the
    /// characters before it.
    pub fn byte_index(&self) -> (r: usize)
        requires
            self.input@.len() <= usize::MAX / 4,
        ensures
            r == utf8_len(
                self.input@.take(
                    if self.character_index <= self.input@.len() {
                        self.character_index as int
                    } else {
                        self.input@.len() as int
                    },
                ),
            ),
    {
        let end = self.clamp_cursor(self.character_index);
        utf8_prefix_len(self.input.as_slice(), end)
    }

    /// Removes the character before the cursor and moves the cursor onto its
    /// place; at the start of the line nothing changes.
    pub fn delete_char(&mut self)
        requires
            old(self).wf(),
        ensures
            final(self).wf(),
            old(self).character_index == 0 ==> final(self).input@ == old(self).input@
                && final(self).character_index == 0,
            old(self).character_index != 0 ==> final(self).input@ == old(self).input@.remove(
                old(self).character_index - 1,
            ) && final(self).character_index == old(self).character_index - 1,
            final(self).input_mode == old(self).input_mode,
            final(self).messages == old(self).messages,
    {
        let is_not_cursor_leftmost = self.character_index != 0;
        if is_not_cursor_leftmost {
            let current_index = self.character_index;
            self.input.remove(current_index - 1);
            self.move_cursor_left();
        }
    }

    /// The cursor back at the start of the line.
    pub fn reset_cursor(&mut self)
        ensures
            final(self).character_index == 0,
            final(self).input == old(self).input,
            final(self).input_mode == old(self).input_mode,
            final(self).messages == old(self).messages,
    {
        self.character_index = 0;
    }

    /// The shape of a line, judged on its trimmed text. Every line has
    /// exactly one.
    pub fn input_type_validation(input: &[char]) -> (r: InputShape)
        ensures
            r == shape_of(input@),
    {
        let trimmed_input = trim(input);
        classify_trimmed(trimmed_input.as_slice())
    }

    /// Converts the line, records its status line, and empties the input box.
    pub fn submit_message(&mut self)
        requires
            old(self).wf(),
        ensures
            final(self).wf(),
            final(self).messages@.len() == old(self).messages@.len() + 1,
            final(self).messages@.drop_last() == old(self).messages@,
            final(self).messages@.last()@ == status_of_line(old(self).input@),
            final(self).input@ == Seq::<char>::empty(),
            final(self).character_index == 0,
            final(self).input_mode == old(self).input_mode,
    {
        let result = line_status(self.input.as_slice());
        self.messages.push(result);
        self.input.clear();
        self.reset_cursor();
        assert(self.messages@.drop_last() =~= old(self).messages@);
    }
}

} // verus!
