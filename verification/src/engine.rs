//! A plain engine for normal mode: motions over words separated by spaces,
//! deletion, and one register for yanked text.

use crate::buffer::{
    buffer_cursor, buffer_text, delete_range, insert_target, raw_clear, raw_cursor, raw_text,
    removed, resolve, spliced, BufferError, Location,
};
use crate::state::LineMode;
use crate::text::{chars_of, find_word_end, find_word_start, string_of, word_end, word_start};
use crate::vi::ViCursorBuffer;
use shrs_utils::CursorBuffer;
use shrs_vi::{Action, Motion};
use vstd::prelude::*;

verus! {

/// The first position from `pos` on that holds no space, or the end of the
/// text.
pub open spec fn after_spaces(s: Seq<char>, pos: int) -> int
    decreases s.len() - pos,
{
    if pos >= s.len() {
        s.len() as int
    } else if s[pos] != ' ' {
        pos
    } else {
        after_spaces(s, pos + 1)
    }
}

/// The last position up to `pos` that has no space just before it, or the
/// start of the text.
pub open spec fn before_spaces(s: Seq<char>, pos: int) -> int
    decreases pos,
{
    if pos <= 0 {
        0
    } else if s[pos - 1] != ' ' {
        pos
    } else {
        before_spaces(s, pos - 1)
    }
}

/// The first position from `pos` on that holds `c`, or the end of the text.
pub open spec fn first_from(s: Seq<char>, pos: int, c: char) -> int
    decreases s.len() - pos,
{
    if pos >= s.len() {
        s.len() as int
    } else if s[pos] == c {
        pos
    } else {
        first_from(s, pos + 1, c)
    }
}

/// Where the word after the one at `pos` begins.
pub open spec fn next_word(s: Seq<char>, pos: int) -> int {
    after_spaces(s, word_end(s, pos))
}

/// Where the word begins that ends at or before `pos`.
pub open spec fn previous_word(s: Seq<char>, pos: int) -> int {
    word_start(s, before_spaces(s, pos))
}

/// The location that `motion` leads to in `text` with the cursor at
/// `cursor`.
pub open spec fn motion_target(text: Seq<char>, cursor: nat, motion: Motion) -> Location {
    let from = if cursor <= text.len() {
        cursor as int
    } else {
        text.len() as int
    };
    match motion {
        Motion::Left => Location::Rel(-1isize),
        Motion::Right => Location::Rel(1),
        Motion::Start => Location::Abs(0),
        Motion::End | Motion::All => Location::Abs(text.len() as usize),
        Motion::Word | Motion::WordPunc => Location::Abs(next_word(text, from) as usize),
        Motion::BackWord => Location::Abs(previous_word(text, from) as usize),
        Motion::Find(c) => if first_from(text, from + 1, c) < text.len() {
            Location::Abs(first_from(text, from + 1, c) as usize)
        } else {
            Location::Rel(0)
        },
        Motion::Up | Motion::Down | Motion::None => Location::Rel(0),
    }
}

/// What the engine works on: the buffer and the register.
pub ghost struct EngineView {
    pub text: Seq<char>,
    pub cursor: nat,
    pub register: Seq<char>,
}

/// An engine state together with what the engine reports.
pub type Report = (EngineView, Result<LineMode, BufferError>);

impl EngineView {
    /// The state with the buffer holding `text` and the cursor at `cursor`.
    pub open spec fn with_buffer(self, text: Seq<char>, cursor: nat) -> EngineView {
        EngineView { text, cursor, ..self }
    }

    /// The range between the cursor and the place that `motion` leads to.
    pub open spec fn reach(self, motion: Motion) -> Result<(nat, nat), BufferError> {
        delete_range(
            self.text.len(),
            self.cursor,
            Location::Rel(0),
            motion_target(self.text, self.cursor, motion),
        )
    }

    /// The action carried out. `Insert` asks for insert mode and every other
    /// action for normal mode. A move puts the cursor where the motion leads
    /// (moves up and down are not the engine's). A deletion takes out what
    /// lies between the cursor and that place, or the whole line. Yank copies
    /// the same stretch into the register and Paste puts the register in at
    /// the cursor. A chain carries out its first action and, if that is not
    /// refused, its second. All other actions leave the buffer alone.
    pub open spec fn executed(self, action: Action) -> Report
        decreases action,
    {
        match action {
            Action::Insert => (self, Ok(LineMode::Insert)),
            Action::Move(Motion::Up) | Action::Move(Motion::Down) => (self, Ok(LineMode::Normal)),
            Action::Move(motion) => match resolve(
                self.text.len(),
                self.cursor,
                motion_target(self.text, self.cursor, motion),
            ) {
                Ok(at) => (self.with_buffer(self.text, at), Ok(LineMode::Normal)),
                Err(e) => (self, Err(e)),
            },
            Action::Delete(Motion::All) => (self.with_buffer(Seq::empty(), 0), Ok(LineMode::Normal)),
            Action::Delete(motion) => match self.reach(motion) {
                Ok((lo, hi)) => (
                    self.with_buffer(removed(self.text, lo as int, hi as int), lo),
                    Ok(LineMode::Normal),
                ),
                Err(e) => (self, Err(e)),
            },
            Action::Yank(motion) => match self.reach(motion) {
                Ok((lo, hi)) => (
                    EngineView { register: self.text.subrange(lo as int, hi as int), ..self },
                    Ok(LineMode::Normal),
                ),
                Err(e) => (self, Err(e)),
            },
            Action::Paste(_) => match insert_target(
                self.text.len(),
                self.cursor,
                Location::Rel(0),
                self.register.len(),
            ) {
                Ok(at) => (
                    self.with_buffer(
                        spliced(self.text, at as int, self.register),
                        at + self.register.len(),
                    ),
                    Ok(LineMode::Normal),
                ),
                Err(e) => (self, Err(e)),
            },
            Action::Chain(first, second) => {
                let begun = self.executed(*first);
                if begun.1 is Err {
                    begun
                } else {
                    begun.0.executed(*second)
                }
            },
            _ => (self, Ok(LineMode::Normal)),
        }
    }
}

/// The engine that the editor can be given where no other is at hand.
pub struct DefaultEngine {
    register: String,
}

impl DefaultEngine {
    /// An engine with an empty register.
    pub fn new() -> (engine: Self)
        ensures
            engine.register() == Seq::<char>::empty(),
    {
        DefaultEngine { register: String::new() }
    }

    /// The text that was last yanked.
    pub closed spec fn register(&self) -> Seq<char> {
        self.register@
    }

    /// The engine and the buffer as plain values.
    pub open spec fn over(&self, cb: &CursorBuffer) -> EngineView {
        EngineView { text: buffer_text(*cb), cursor: buffer_cursor(*cb), register: self.register() }
    }

    /// The location that `motion` leads to from the cursor of `cb`.
    pub fn target(&self, cb: &CursorBuffer, motion: Motion) -> (loc: Location)
        ensures
            loc == motion_target(buffer_text(*cb), buffer_cursor(*cb), motion),
    {
        let text = raw_text(cb);
        let chars = chars_of(text.as_str());
        let len = chars.len();
        let cursor = raw_cursor(cb);
        let from = if cursor <= len {
            cursor
        } else {
            len
        };
        match motion {
            Motion::Left => Location::Rel(-1),
            Motion::Right => Location::Rel(1),
            Motion::Start => Location::Abs(0),
            Motion::End | Motion::All => Location::Abs(len),
            Motion::Word | Motion::WordPunc => {
                let mut i = find_word_end(&chars, from);
                while i < len && chars[i] == ' '
                    invariant
                        i <= len == chars.len(),
                        after_spaces(chars@, i as int) == next_word(chars@, from as int),
                    decreases len - i,
                {
                    i += 1;
                }
                Location::Abs(i)
            },
            Motion::BackWord => {
                let mut i = from;
                while i > 0 && chars[i - 1] == ' '
                    invariant
                        i <= from <= chars.len(),
                        before_spaces(chars@, i as int) == before_spaces(chars@, from as int),
                    decreases i,
                {
                    i -= 1;
                }
                Location::Abs(find_word_start(&chars, i))
            },
            Motion::Find(c) => {
                let mut i = from;
                if i < len {
                    i += 1;
                    while i < len && chars[i] != c
                        invariant
                            i <= len == chars.len(),
                            first_from(chars@, i as int, c) == first_from(chars@, from + 1, c),
                        decreases len - i,
                    {
                        i += 1;
                    }
                }
                if i < len {
                    Location::Abs(i)
                } else {
                    Location::Rel(0)
                }
            },
            Motion::Up | Motion::Down | Motion::None => Location::Rel(0),
        }
    }

    /// Carries `action` out on `cb`.
    pub fn execute(&mut self, cb: &mut CursorBuffer, action: Action) -> (r: Result<
        LineMode,
        BufferError,
    >)
        ensures
            (final(self).over(final(cb)), r) == old(self).over(old(cb)).executed(action),
        decreases action,
    {
        match action {
            Action::Insert => Ok(LineMode::Insert),
            Action::Move(Motion::Up) | Action::Move(Motion::Down) => Ok(LineMode::Normal),
            Action::Move(motion) => {
                let to = self.target(cb, motion);
                reported(crate::buffer::move_cursor(cb, to))
            },
            Action::Delete(Motion::All) => {
                raw_clear(cb);
                Ok(LineMode::Normal)
            },
            Action::Delete(motion) => {
                let to = self.target(cb, motion);
                reported(crate::buffer::delete(cb, Location::cursor(), to))
            },
            Action::Yank(motion) => {
                let to = self.target(cb, motion);
                let here = crate::buffer::locate(cb, Location::cursor());
                let there = crate::buffer::locate(cb, to);
                match (here, there) {
                    (Ok(a), Ok(b)) => {
                        let text = raw_text(cb);
                        let chars = chars_of(text.as_str());
                        self.register = if a <= b {
                            string_of(&chars, a, b)
                        } else {
                            string_of(&chars, b, a)
                        };
                        Ok(LineMode::Normal)
                    },
                    (Err(e), _) => Err(e),
                    (_, Err(e)) => Err(e),
                }
            },
            Action::Paste(_) => {
                let text = self.register.clone();
                reported(crate::buffer::insert(cb, Location::cursor(), text.as_str()))
            },
            Action::Chain(first, second) => {
                match self.execute(cb, *first) {
                    Ok(_) => self.execute(cb, *second),
                    Err(e) => Err(e),
                }
            },
            _ => Ok(LineMode::Normal),
        }
    }
}

/// What the engine reports after a step on the buffer.
fn reported(r: Result<(), BufferError>) -> (report: Result<LineMode, BufferError>)
    ensures
        report == match r {
            Ok(_) => Ok::<LineMode, BufferError>(LineMode::Normal),
            Err(e) => Err::<LineMode, BufferError>(e),
        },
{
    match r {
        Ok(()) => Ok(LineMode::Normal),
        Err(e) => Err(e),
    }
}

impl ViCursorBuffer for DefaultEngine {
    fn motion_to_loc(&self, cb: &CursorBuffer, motion: Motion) -> (r: Result<Location, BufferError>)
        ensures
            r == Ok::<Location, BufferError>(
                motion_target(buffer_text(*cb), buffer_cursor(*cb), motion),
            ),
    {
        Ok(self.target(cb, motion))
    }

    fn execute_vi(&mut self, cb: &mut CursorBuffer, action: Action) -> (r: Result<
        LineMode,
        BufferError,
    >)
        ensures
            (final(self).over(final(cb)), r) == old(self).over(old(cb)).executed(action),
    {
        self.execute(cb, action)
    }
}

} // verus!
