//! What surrounds the editor: the collaborators it consults and the things
//! it asks the program around it to do.

use crate::completion::Completer;
use crate::event::KeyEvent;
use crate::history::History;
use crate::state::{LineMode, LineState};
use crate::vi::ViCursorBuffer;
use shrs_utils::{CursorBuffer, StyledBuf};
use vstd::prelude::*;

verus! {

/// `shrs_utils::StyledBuf`: styled text, which the editor only hands on to
/// whoever draws it.
#[verifier::external_type_specification]
#[verifier::external_body]
pub struct ExStyledBuf(shrs_utils::StyledBuf);

/// The command interpreter, as far as the editor needs it.
pub trait Lang {
    /// Whether `command` is incomplete and needs another line.
    fn needs_line_check(&self, command: &str) -> bool;
}

/// Key bindings of the user's own. They are asked before the editor's keys.
pub trait Keybinding {
    /// Acts on `key` if it is bound and says whether it was.
    fn handle_key_event(&self, line: &LineState, key: KeyEvent) -> bool;
}

/// Whoever proposes how the line might go on.
pub trait Suggester {
    /// A whole command that the line typed so far could become.
    fn suggest(&self, line: &LineState, ctx: &Context) -> Option<String>;
}

/// The log of buffer snapshots behind undo and redo.
pub trait BufferHistory {
    /// Records the buffer as it stands.
    fn add(&mut self, cb: &CursorBuffer);

    /// Puts the buffer back to the snapshot before the current one.
    fn prev(&mut self, cb: &mut CursorBuffer);

    /// Puts the buffer forward to the snapshot after the current one.
    fn next(&mut self, cb: &mut CursorBuffer);

    /// Forgets every snapshot.
    fn clear(&mut self);
}

/// Whoever colours the line for display.
pub trait Highlighter {
    fn highlight(&self, line: &LineState, buf: &str) -> StyledBuf;
}

/// Whoever draws the prompt around the line.
pub trait Prompt {
    fn prompt_left(&self, line: &LineState) -> StyledBuf;

    fn prompt_right(&self, line: &LineState) -> StyledBuf;
}

/// The shapes a terminal cursor can take.
#[derive(Clone, Copy, Debug, PartialEq, Eq, Structural)]
pub enum CursorShape {
    DefaultUserShape,
    BlinkingBlock,
    SteadyBlock,
    BlinkingUnderScore,
    SteadyUnderScore,
    BlinkingBar,
    SteadyBar,
}

/// The cursor shape that the session asks for, where the program keeps one.
#[derive(Clone, Copy, Debug, PartialEq, Eq, Structural)]
pub struct CursorStyle {
    pub style: CursorShape,
}

/// The cursor shape that goes with a mode: a block in normal mode, a bar in
/// insert mode.
pub open spec fn shape_of(mode: LineMode) -> CursorShape {
    match mode {
        LineMode::Insert => CursorShape::BlinkingBar,
        LineMode::Normal => CursorShape::BlinkingBlock,
    }
}

/// Something the editor asks the program around it to do once the current
/// event is dealt with.
#[derive(Clone, Copy, Debug, PartialEq, Eq, Structural)]
pub enum Effect {
    /// Move the display to a new line.
    Newline,
    /// Take note of the terminal's new width and height.
    Resize(u16, u16),
    /// Tell whoever listens that the editor is now in this mode.
    ModeSwitch(LineMode),
}

/// Text queued for the next session to start with.
pub struct PromptContent {
    pub content: String,
    /// Whether the session is to finish at once with this text.
    pub auto_run: bool,
}

/// The parts of the shell that a session reads.
pub struct Shell {
    pub keybinding: Box<dyn Keybinding>,
    pub lang: Box<dyn Lang>,
}

/// The parts of the shell that a session reads and changes.
pub struct Context {
    pub history: Box<dyn History>,
    pub completer: Box<dyn Completer>,
    /// The engine that carries out normal-mode commands.
    pub vi: Box<dyn ViCursorBuffer>,
    /// The cursor shape asked for, where the program keeps one.
    pub cursor_style: Option<CursorStyle>,
    pub prompt_content_queue: Vec<PromptContent>,
    /// What the editor has asked for and the program has not yet done.
    pub effects: Vec<Effect>,
}

} // verus!
