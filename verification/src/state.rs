//! The state of one editing session, and what the editing steps make of it.
//!
//! [`LineView`] is the session as plain values. The functions of this file on
//! a `LineView` say what each step of the editor does; the editor's own
//! functions are proved to do just that.

use crate::buffer::{
    buffer_cursor, buffer_text, delete_range, insert_target, removed, resolve, spliced,
    BufferError, Location,
};
use crate::completion::{CompletionView, ReplaceMethod};
use crate::history::HistoryInd;
use crate::text::{word_end, word_start};
use shrs_utils::CursorBuffer;
use vstd::prelude::*;

verus! {

/// The editing discipline in force.
#[derive(Clone, Copy, Debug, PartialEq, Eq, Structural)]
pub enum LineMode {
    /// Keys insert text.
    Insert,
    /// Keys build commands.
    Normal,
}

/// State needed for one editing session.
pub struct LineState {
    /// The line under the cursor.
    pub cb: CursorBuffer,
    /// The lines of a multi-line command that are already complete, each with
    /// its line feed.
    pub lines: String,
    pub(crate) current_word: String,
    pub(crate) history_ind: HistoryInd,
    pub(crate) saved_line: String,
    pub(crate) mode: LineMode,
}

/// A session as plain values.
pub ghost struct LineView {
    /// The text of the line under the cursor.
    pub text: Seq<char>,
    /// The number of characters before the cursor.
    pub cursor: nat,
    /// The completed lines of a multi-line command.
    pub lines: Seq<char>,
    /// The word that the completion menu was last filled for.
    pub current_word: Seq<char>,
    /// Where the session stands in the history.
    pub history_ind: HistoryInd,
    /// The text that was being edited when browsing began.
    pub saved_line: Seq<char>,
    pub mode: LineMode,
}

/// A view together with the outcome of the step that led to it.
pub type Step = (LineView, Result<(), BufferError>);

impl View for LineState {
    type V = LineView;

    open(crate) spec fn view(&self) -> LineView {
        LineView {
            text: buffer_text(self.cb),
            cursor: buffer_cursor(self.cb),
            lines: self.lines@,
            current_word: self.current_word@,
            history_ind: self.history_ind,
            saved_line: self.saved_line@,
            mode: self.mode,
        }
    }
}

impl LineView {
    /// The session at its start: nothing typed, not browsing, insert mode.
    pub open spec fn fresh() -> LineView {
        LineView {
            text: Seq::empty(),
            cursor: 0,
            lines: Seq::empty(),
            current_word: Seq::empty(),
            history_ind: HistoryInd::Prompt,
            saved_line: Seq::empty(),
            mode: LineMode::Insert,
        }
    }

    /// The whole command: the completed lines, then the line under the cursor.
    pub open spec fn full_command(self) -> Seq<char> {
        self.lines + self.text
    }

    /// The same session with the buffer holding `text` and the cursor at
    /// `cursor`.
    pub open spec fn with_buffer(self, text: Seq<char>, cursor: nat) -> LineView {
        LineView { text, cursor, ..self }
    }

    /// The cursor put at `loc`.
    pub open spec fn moved(self, loc: Location) -> Step {
        match resolve(self.text.len(), self.cursor, loc) {
            Ok(at) => (self.with_buffer(self.text, at), Ok(())),
            Err(e) => (self, Err(e)),
        }
    }

    /// `added` put in at `loc`, the cursor just after it.
    pub open spec fn inserted(self, loc: Location, added: Seq<char>) -> Step {
        match insert_target(self.text.len(), self.cursor, loc, added.len()) {
            Ok(at) => (
                self.with_buffer(spliced(self.text, at as int, added), at + added.len()),
                Ok(()),
            ),
            Err(e) => (self, Err(e)),
        }
    }

    /// The characters between `start` and `end` taken out, the cursor where
    /// they began.
    pub open spec fn deleted(self, start: Location, end: Location) -> Step {
        match delete_range(self.text.len(), self.cursor, start, end) {
            Ok((lo, hi)) => (self.with_buffer(removed(self.text, lo as int, hi as int), lo), Ok(())),
            Err(e) => (self, Err(e)),
        }
    }

    /// The buffer emptied.
    pub open spec fn cleared(self) -> LineView {
        self.with_buffer(Seq::empty(), 0)
    }

    /// The whole text replaced by `text`, the cursor at its end. A text
    /// beyond the machine's reach leaves the buffer empty.
    pub open spec fn overwritten(self, text: Seq<char>) -> Step {
        if text.len() <= isize::MAX {
            (self.with_buffer(text, text.len()), Ok(()))
        } else {
            (self.cleared(), Err(BufferError::InvalidRelativeLocation(0)))
        }
    }

    /// The text that the index `ind` shows: the saved draft at the prompt, an
    /// entry of the history elsewhere.
    pub open spec fn shown(self, ind: HistoryInd, history: Seq<Seq<char>>) -> Seq<char> {
        match ind {
            HistoryInd::Prompt => self.saved_line,
            HistoryInd::Line(i) => history[i as int],
        }
    }

    /// One step up in the history: at the prompt the text is saved as the
    /// draft first; then the index moves towards older entries and the buffer
    /// shows what it points at.
    pub open spec fn browsed_up(self, history: Seq<Seq<char>>) -> Step {
        let saved = if self.history_ind == HistoryInd::Prompt {
            self.text
        } else {
            self.saved_line
        };
        let ind = self.history_ind.older(history.len());
        let kept = LineView { saved_line: saved, history_ind: ind, ..self };
        kept.overwritten(kept.shown(ind, history))
    }

    /// One step down in the history: nothing at the prompt; elsewhere the
    /// index moves towards recent entries, past the most recent one back to
    /// the prompt, and the buffer shows what it points at.
    pub open spec fn browsed_down(self, history: Seq<Seq<char>>) -> Step {
        if self.history_ind == HistoryInd::Prompt {
            (self, Ok(()))
        } else {
            let ind = self.history_ind.newer();
            let kept = LineView { history_ind: ind, ..self };
            kept.overwritten(kept.shown(ind, history))
        }
    }

    /// The part of the text that completion works on: all of it up to the
    /// cursor.
    pub open spec fn typed(self) -> Seq<char> {
        self.text.take(if self.cursor <= self.text.len() {
            self.cursor as int
        } else {
            self.text.len() as int
        })
    }

    /// A candidate accepted, `width` being the display width of the word
    /// under completion. An appended candidate goes in at the cursor. A
    /// replacing one first takes out the `width` characters before the
    /// cursor.
    pub open spec fn accepted(self, c: CompletionView, width: nat) -> Step {
        match c.replace_method {
            ReplaceMethod::Append => self.inserted(Location::Rel(0), c.accepted()),
            ReplaceMethod::Replace => if width > isize::MAX {
                (self, Err(BufferError::DeletingTooMuch))
            } else {
                let back = self.moved(Location::Rel((-(width as int)) as isize));
                if back.1 is Err {
                    back
                } else {
                    let cut = back.0.deleted(Location::Rel(0), Location::Rel(width as isize));
                    if cut.1 is Err {
                        cut
                    } else {
                        (LineView { current_word: Seq::empty(), ..cut.0 }).inserted(
                            Location::Rel(0),
                            c.accepted(),
                        )
                    }
                }
            },
        }
    }

    /// The line with the word at the cursor replaced by `value`.
    pub open spec fn expanded(self, value: Seq<char>) -> Seq<char> {
        self.text.subrange(0, word_start(self.text, self.cursor as int)) + value
            + self.text.subrange(word_end(self.text, self.cursor as int), self.text.len() as int)
    }

    /// The word at the cursor: the run of characters other than spaces that
    /// the cursor stands in or at either end of.
    pub open spec fn word_at_cursor(self) -> Seq<char> {
        self.text.subrange(
            word_start(self.text, self.cursor as int),
            word_end(self.text, self.cursor as int),
        )
    }

    /// Whether the word at the cursor is the first of the line.
    pub open spec fn at_command(self) -> bool {
        word_start(self.text, self.cursor as int) == 0
    }
}

impl LineState {
    /// A session at its start.
    pub fn new() -> (line: Self)
        ensures
            line@ == LineView::fresh(),
    {
        LineState {
            cb: crate::buffer::raw_new(),
            current_word: String::new(),
            history_ind: HistoryInd::Prompt,
            saved_line: String::new(),
            mode: LineMode::Insert,
            lines: String::new(),
        }
    }

    /// The text of the line under the cursor.
    pub fn text(&self) -> (text: String)
        ensures
            text@ == self@.text,
    {
        crate::buffer::raw_text(&self.cb)
    }

    /// The number of characters before the cursor.
    pub fn cursor(&self) -> (cursor: usize)
        ensures
            cursor == self@.cursor,
    {
        crate::buffer::raw_cursor(&self.cb)
    }

    /// The completed lines of a multi-line command.
    pub fn completed_lines(&self) -> (lines: &String)
        ensures
            lines@ == self@.lines,
    {
        &self.lines
    }

    pub fn mode(&self) -> (m: LineMode)
        ensures
            m == self@.mode,
    {
        self.mode
    }

    /// Where the session stands in the history.
    pub fn history_ind(&self) -> (ind: HistoryInd)
        ensures
            ind == self@.history_ind,
    {
        self.history_ind
    }

    /// The word that the completion menu was last filled for.
    pub fn current_word(&self) -> (w: &String)
        ensures
            w@ == self@.current_word,
    {
        &self.current_word
    }

    /// The text that was being edited when browsing began.
    pub fn saved_line(&self) -> (s: &String)
        ensures
            s@ == self@.saved_line,
    {
        &self.saved_line
    }

    /// Get the contents of the prompt: the completed lines and the line under
    /// the cursor.
    pub fn get_full_command(&self) -> (res: String)
        ensures
            res@ == self@.full_command(),
    {
        let mut res: String = self.lines.clone();
        let cur_line = crate::buffer::raw_text(&self.cb);
        res.append(cur_line.as_str());
        res
    }

    /// Puts the cursor at `loc`.
    pub fn move_cursor(&mut self, loc: Location) -> (r: Result<(), BufferError>)
        ensures
            (final(self)@, r) == old(self)@.moved(loc),
    {
        crate::buffer::move_cursor(&mut self.cb, loc)
    }

    /// Puts `text` in at `loc`.
    pub fn insert(&mut self, loc: Location, text: &str) -> (r: Result<(), BufferError>)
        ensures
            (final(self)@, r) == old(self)@.inserted(loc, text@),
    {
        crate::buffer::insert(&mut self.cb, loc, text)
    }

    /// Takes out the characters between `start` and `end`.
    pub fn delete(&mut self, start: Location, end: Location) -> (r: Result<(), BufferError>)
        ensures
            (final(self)@, r) == old(self)@.deleted(start, end),
    {
        crate::buffer::delete(&mut self.cb, start, end)
    }

    /// Empties the buffer.
    pub fn clear(&mut self)
        ensures
            final(self)@ == old(self)@.cleared(),
    {
        crate::buffer::raw_clear(&mut self.cb)
    }

    /// Replaces the whole text by `text`.
    pub fn overwrite(&mut self, text: &str) -> (r: Result<(), BufferError>)
        ensures
            (final(self)@, r) == old(self)@.overwritten(text@),
    {
        crate::buffer::overwrite(&mut self.cb, text)
    }
}

} // verus!
