//! What the editor does with each event, as functions on plain values.
//!
//! An [`EditorView`] is everything that a key handler can read or change. The
//! collaborators that a handler consults (the completer, the suggester, the
//! interpreter, the normal-mode engine, the undo log, the user's key bindings)
//! are not described: what they answered stands in an [`Answers`], and the
//! functions here say what the editor makes of the answers.

use crate::buffer::{BufferError, Location};
use crate::completion::CompletionView;
use crate::event::{key_event, Event, KeyCode, CONTROL, NONE, SHIFT};
use crate::menu::{current_of, Entry};
use crate::shell::{shape_of, CursorStyle, Effect, PromptContent};
use crate::snippet::{Position, Snippets};
use crate::state::{LineMode, LineView, Step};
use crate::text::{split_on_space, untyped_suffix, without_newline};
use crate::vi::spelled;
use crate::width::display_width;
use shrs_vi::{Action, Command, Motion};
use vstd::prelude::*;

verus! {

/// What the session does once an event is dealt with.
#[derive(Clone, Copy, Debug, PartialEq, Eq, Structural)]
pub enum Flow {
    /// Wait for the next event.
    Continue,
    /// The command is complete: end the session and hand it out.
    Finish,
    /// End of input on an empty line: release the terminal and end the
    /// process.
    Exit,
    /// Hand the buffer's text to the external editor, then resume with what
    /// it left.
    Edit,
}

/// What the keys common to all modes made of an event.
#[derive(Clone, Copy, Debug, PartialEq, Eq, Structural)]
pub enum Standard {
    /// The event goes on to the menu or to the mode's keys.
    Pass,
    /// The event is dealt with; the session waits for the next one.
    Absorbed,
    /// The session ends with the command as it stands.
    Break,
    /// The process ends.
    Exit,
}

/// An event as the keys common to all modes read it.
#[derive(Clone, Copy, Debug, PartialEq, Eq, Structural)]
pub enum StandardKey {
    Resize(u16, u16),
    Paste,
    /// Control-C.
    Interrupt,
    /// Right arrow: take the suggestion.
    Suggest,
    /// Enter or Control-J.
    Submit,
    /// Control-D.
    EndOfInput,
    Other,
}

/// An event as the active menu reads it.
#[derive(Clone, Copy, Debug, PartialEq, Eq, Structural)]
pub enum MenuKey {
    /// Enter.
    Accept,
    /// Escape.
    Close,
    /// Shift-Tab or Up.
    Previous,
    /// Tab or Down.
    Next,
    Other,
}

/// An event as insert mode reads it.
#[derive(Clone, Copy, Debug, PartialEq, Eq, Structural)]
pub enum InsertKey {
    Tab,
    Left,
    Right,
    Down,
    Up,
    Escape,
    /// Backspace or Control-H.
    Backspace,
    /// Control-W.
    DeleteWord,
    /// Control-A.
    LineStart,
    /// Control-E.
    LineEnd,
    Char(char),
    Ignored,
}

/// An event as normal mode reads it.
#[derive(Clone, Copy, Debug, PartialEq, Eq, Structural)]
pub enum NormalKey {
    Escape,
    Char(char),
    Ignored,
}

pub open spec fn standard_key(event: Event) -> StandardKey {
    match event {
        Event::Resize(w, h) => StandardKey::Resize(w, h),
        Event::Paste(_) => StandardKey::Paste,
        Event::Key(k) => if k == key_event(KeyCode::Char('c'), CONTROL) {
            StandardKey::Interrupt
        } else if k == key_event(KeyCode::Right, NONE) {
            StandardKey::Suggest
        } else if k == key_event(KeyCode::Enter, NONE) || k == key_event(
            KeyCode::Char('j'),
            CONTROL,
        ) {
            StandardKey::Submit
        } else if k == key_event(KeyCode::Char('d'), CONTROL) {
            StandardKey::EndOfInput
        } else {
            StandardKey::Other
        },
        Event::Other => StandardKey::Other,
    }
}

pub open spec fn menu_key(event: Event) -> MenuKey {
    match event.key() {
        None => MenuKey::Other,
        Some(k) => if k == key_event(KeyCode::Enter, NONE) {
            MenuKey::Accept
        } else if k == key_event(KeyCode::Esc, NONE) {
            MenuKey::Close
        } else if k == key_event(KeyCode::Tab, SHIFT) || k == key_event(KeyCode::Up, NONE) {
            MenuKey::Previous
        } else if k == key_event(KeyCode::Tab, NONE) || k == key_event(KeyCode::Down, NONE) {
            MenuKey::Next
        } else {
            MenuKey::Other
        },
    }
}

pub open spec fn insert_key(event: Event) -> InsertKey {
    match event.key() {
        None => InsertKey::Ignored,
        Some(k) => if k == key_event(KeyCode::Tab, NONE) {
            InsertKey::Tab
        } else if k == key_event(KeyCode::Left, NONE) {
            InsertKey::Left
        } else if k == key_event(KeyCode::Right, NONE) {
            InsertKey::Right
        } else if k == key_event(KeyCode::Down, NONE) {
            InsertKey::Down
        } else if k == key_event(KeyCode::Up, NONE) {
            InsertKey::Up
        } else if k.code == KeyCode::Esc {
            InsertKey::Escape
        } else if k == key_event(KeyCode::Backspace, NONE) || k == key_event(
            KeyCode::Char('h'),
            CONTROL,
        ) {
            InsertKey::Backspace
        } else if k == key_event(KeyCode::Char('w'), CONTROL) {
            InsertKey::DeleteWord
        } else if k == key_event(KeyCode::Char('a'), CONTROL) {
            InsertKey::LineStart
        } else if k == key_event(KeyCode::Char('e'), CONTROL) {
            InsertKey::LineEnd
        } else {
            match k.code {
                KeyCode::Char(c) => InsertKey::Char(c),
                _ => InsertKey::Ignored,
            }
        },
    }
}

pub open spec fn normal_key(event: Event) -> NormalKey {
    match event.key() {
        None => NormalKey::Ignored,
        Some(k) => match k.code {
            KeyCode::Esc => NormalKey::Escape,
            KeyCode::Char(c) => NormalKey::Char(c),
            _ => NormalKey::Ignored,
        },
    }
}

/// The text that an event pastes; empty for any other event.
pub open spec fn pasted(event: Event) -> Seq<char> {
    match event {
        Event::Paste(p) => p@,
        _ => Seq::empty(),
    }
}

/// What the engine and the undo log did in one repetition of a normal-mode
/// command.
pub ghost struct StepAnswer {
    /// The buffer's text once the engine has carried the action out.
    pub text: Seq<char>,
    /// The cursor once the engine has carried the action out.
    pub cursor: nat,
    /// The mode that the engine reports, or its refusal.
    pub outcome: Result<LineMode, BufferError>,
    /// The buffer's text once the undo log has been walked (for Undo and
    /// Redo).
    pub undo_text: Seq<char>,
    /// The cursor once the undo log has been walked.
    pub undo_cursor: nat,
}

/// What the collaborators answered while one event was handled.
pub ghost struct Answers {
    /// Whether the user's key bindings took the key.
    pub handled: bool,
    /// What the suggester proposed.
    pub suggestion: Option<Seq<char>>,
    /// Whether the interpreter wants another line.
    pub more: bool,
    /// The completer's candidates.
    pub candidates: Seq<CompletionView>,
    /// Where the engine says the previous word begins.
    pub back_word: Result<Location, BufferError>,
    /// The entry that the menu selected on Next or Previous.
    pub selected: nat,
    /// The repetitions of a normal-mode command that were run.
    pub steps: Seq<StepAnswer>,
}

/// All that a key handler can read or change.
pub ghost struct EditorView {
    pub line: LineView,
    /// The keys typed in normal mode that spell no command yet.
    pub keys: Seq<char>,
    /// While the external editor is out: the repetitions of the command that
    /// are still to run when it is back.
    pub suspended: Option<u32>,
    /// The menu's entries.
    pub entries: Seq<Entry>,
    /// The menu's selected entry.
    pub selected: nat,
    /// Whether the menu is active.
    pub active: bool,
    /// The history, most recent entry first.
    pub history: Seq<Seq<char>>,
    /// The cursor shape asked for, where the program keeps one.
    pub style: Option<CursorStyle>,
    /// What the editor has asked the program to do.
    pub effects: Seq<Effect>,
    /// Text queued for sessions to start with.
    pub queue: Seq<PromptContent>,
    pub snippets: Snippets,
    /// Whether the editor has an undo log.
    pub undo_log: bool,
    /// Whether the editor has a suggester.
    pub suggester: bool,
}

/// An editor together with the outcome of the step that led to it.
pub type Outcome = (EditorView, Result<Flow, BufferError>);

/// The menu entries made of a completer's candidates.
pub open spec fn entries_for(candidates: Seq<CompletionView>) -> Seq<Entry> {
    Seq::new(candidates.len(), |i: int| (candidates[i].shown(), candidates[i]))
}

impl LineView {
    /// The text that a snippet puts in place of the line, where one applies:
    /// the word at the cursor is a registered trigger, and it is the first
    /// word of the line if the snippet asks for that.
    pub open spec fn expansion(self, snippets: Snippets) -> Option<Seq<char>> {
        if self.cursor > self.text.len() {
            None
        } else {
            match snippets.snippet(self.word_at_cursor()) {
                None => None,
                Some(info) => if info.position == Position::Command && !self.at_command() {
                    None
                } else {
                    Some(self.expanded(info.value))
                },
            }
        }
    }

    /// Snippet expansion on `event`. The answer `true` says that the event is
    /// still to be handled as a key; `false`, that a snippet took it.
    pub open spec fn snipped(self, snippets: Snippets, event: Event) -> (
        LineView,
        Result<bool, BufferError>,
    ) {
        if !snippets.expands_on(event) {
            (self, Ok(true))
        } else {
            match self.expansion(snippets) {
                None => (self, Ok(true)),
                Some(text) => {
                    let s = self.overwritten(text);
                    (
                        s.0,
                        match s.1 {
                            Ok(_) => Ok(false),
                            Err(e) => Err(e),
                        },
                    )
                },
            }
        }
    }
}

impl EditorView {
    /// Whether the answers are ones that the collaborators can give here: the
    /// menu selects an entry that it has.
    pub open spec fn admits(self, a: Answers) -> bool {
        self.entries.len() > 0 ==> a.selected < self.entries.len()
    }

    /// The editor after a step on the line alone.
    pub open spec fn with_line(self, s: Step) -> Outcome {
        (
            EditorView { line: s.0, ..self },
            match s.1 {
                Ok(_) => Ok(Flow::Continue),
                Err(e) => Err(e),
            },
        )
    }

    /// The editor left as it is.
    pub open spec fn idle(self) -> Outcome {
        (self, Ok(Flow::Continue))
    }

    /// The mode switched to `mode`: the cursor shape follows where one is
    /// kept, and the switch is announced.
    pub open spec fn switched(self, mode: LineMode) -> EditorView {
        EditorView {
            line: LineView { mode, ..self.line },
            style: match self.style {
                Some(_) => Some(CursorStyle { style: shape_of(mode) }),
                None => None,
            },
            effects: self.effects.push(Effect::ModeSwitch(mode)),
            ..self
        }
    }

    /// The menu filled for the word before the cursor: that word is noted,
    /// and the candidates become the menu's entries, the first one selected.
    pub open spec fn filled(self, candidates: Seq<CompletionView>) -> EditorView {
        EditorView {
            line: LineView {
                current_word: split_on_space(self.line.typed()).last(),
                ..self.line
            },
            entries: entries_for(candidates),
            selected: 0,
            ..self
        }
    }

    /// Tab in insert mode: the menu is filled; with no candidate it stays
    /// closed, with one candidate that one is accepted at once and the menu
    /// stays closed, with more the menu opens.
    pub open spec fn completed(self, candidates: Seq<CompletionView>) -> Outcome {
        let f = self.filled(candidates);
        if candidates.len() == 0 {
            (EditorView { active: false, ..f }).idle()
        } else if candidates.len() == 1 {
            let s = f.line.accepted(candidates[0], display_width(f.line.current_word));
            (EditorView { active: s.1 is Err, ..f }).with_line(s)
        } else {
            (EditorView { active: true, ..f }).idle()
        }
    }

    /// A key of insert mode pressed, no snippet having taken it;
    /// `candidates` is what the completer proposes and `back_word` where the
    /// engine sees the previous word begin.
    pub open spec fn insert_pressed(
        self,
        key: InsertKey,
        candidates: Seq<CompletionView>,
        back_word: Result<Location, BufferError>,
    ) -> Outcome {
        match key {
            InsertKey::Tab => self.completed(candidates),
            InsertKey::Left => if self.line.cursor > 0 {
                self.with_line(self.line.moved(Location::Rel(-1isize)))
            } else {
                self.idle()
            },
            InsertKey::Right => if self.line.cursor < self.line.text.len() {
                self.with_line(self.line.moved(Location::Rel(1)))
            } else {
                self.idle()
            },
            InsertKey::Down => self.with_line(self.line.browsed_down(self.history)),
            InsertKey::Up => self.with_line(self.line.browsed_up(self.history)),
            InsertKey::Escape => self.switched(LineMode::Normal).idle(),
            InsertKey::Backspace => if self.line.text.len() != 0 && self.line.cursor != 0 {
                self.with_line(self.line.deleted(Location::Rel(-1isize), Location::Rel(0)))
            } else {
                self.idle()
            },
            InsertKey::DeleteWord => if self.line.text.len() != 0 && self.line.cursor != 0 {
                match back_word {
                    Ok(start) => self.with_line(self.line.deleted(start, Location::Rel(0))),
                    Err(err) => (self, Err(err)),
                }
            } else {
                self.idle()
            },
            InsertKey::LineStart => self.with_line(self.line.moved(Location::Abs(0))),
            InsertKey::LineEnd => self.with_line(
                self.line.moved(Location::Abs(self.line.text.len() as usize)),
            ),
            InsertKey::Char(c) => self.with_line(self.line.inserted(Location::Rel(0), seq![c])),
            InsertKey::Ignored => self.idle(),
        }
    }

    /// An event in insert mode. Snippet expansion has first refusal; an event
    /// that it leaves is handled as a key.
    pub open spec fn insert_keys(self, event: Event, a: Answers) -> Outcome {
        let s = self.line.snipped(self.snippets, event);
        let e = EditorView { line: s.0, ..self };
        match s.1 {
            Err(err) => (e, Err(err)),
            Ok(false) => e.idle(),
            Ok(true) => e.insert_pressed(insert_key(event), a.candidates, a.back_word),
        }
    }

    /// One repetition of a normal-mode command, with `remaining` more to
    /// follow. The engine has carried the action out; if it reports another
    /// mode, the editor switches to it. Then Undo and Redo walk the undo log
    /// where there is one, a move up or down browses the history, and the
    /// action that opens the external editor suspends the command.
    pub open spec fn vi_step(self, action: Action, remaining: nat, s: StepAnswer) -> Outcome {
        let ran = EditorView { line: self.line.with_buffer(s.text, s.cursor), ..self };
        let e = match s.outcome {
            Ok(mode) => if mode != ran.line.mode {
                ran.switched(mode)
            } else {
                ran
            },
            Err(_) => ran,
        };
        match action {
            Action::Undo | Action::Redo => if e.undo_log {
                (EditorView { line: e.line.with_buffer(s.undo_text, s.undo_cursor), ..e }).idle()
            } else {
                e.idle()
            },
            Action::Move(Motion::Up) => e.with_line(e.line.browsed_up(e.history)),
            Action::Move(Motion::Down) => e.with_line(e.line.browsed_down(e.history)),
            Action::Editor => (
                EditorView { suspended: Some(remaining as u32), ..e },
                Ok(Flow::Edit),
            ),
            _ => e.idle(),
        }
    }

    /// The repetitions `steps` of a command that is to run `repeat` times.
    /// Once a repetition fails or suspends the command, no further one runs.
    pub open spec fn repeated(self, action: Action, repeat: nat, steps: Seq<StepAnswer>) -> Outcome
        decreases steps.len(),
    {
        if steps.len() == 0 {
            self.idle()
        } else {
            let before = self.repeated(action, repeat, steps.drop_last());
            if before.1 == Ok::<Flow, BufferError>(Flow::Continue) {
                before.0.vi_step(action, (repeat - steps.len()) as nat, steps.last())
            } else {
                before
            }
        }
    }

    /// Whether `steps` are the repetitions that a command of `repeat`
    /// repetitions runs: all of them, unless one fails or suspends it.
    pub open spec fn runs(self, action: Action, repeat: nat, steps: Seq<StepAnswer>) -> bool {
        &&& steps.len() <= repeat
        &&& self.repeated(action, repeat, steps).1 == Ok::<Flow, BufferError>(Flow::Continue)
            ==> steps.len() == repeat
    }

    /// What follows once the keys typed in normal mode have been read: keys
    /// that spell no command yet are kept; keys that spell one are forgotten
    /// and the command runs.
    pub open spec fn spelled_out(self, command: Option<Command>, steps: Seq<StepAnswer>) -> Outcome {
        match command {
            None => self.idle(),
            Some(cmd) => (EditorView { keys: Seq::empty(), ..self }).repeated(
                cmd.action,
                cmd.repeat as nat,
                steps,
            ),
        }
    }

    /// Whether the answers hold the repetitions that the command sets off.
    pub open spec fn runs_spelled(self, command: Option<Command>, steps: Seq<StepAnswer>) -> bool {
        match command {
            None => true,
            Some(cmd) => (EditorView { keys: Seq::empty(), ..self }).runs(
                cmd.action,
                cmd.repeat as nat,
                steps,
            ),
        }
    }

    /// A key in normal mode. Escape forgets the keys typed so far. A
    /// character joins them; once they spell a command they are forgotten and
    /// the command runs.
    pub open spec fn normal_keys(self, event: Event, a: Answers) -> Outcome {
        match normal_key(event) {
            NormalKey::Escape => (EditorView { keys: Seq::empty(), ..self }).idle(),
            NormalKey::Char(c) => (EditorView { keys: self.keys.push(c), ..self }).spelled_out(
                spelled(self.keys.push(c)),
                a.steps,
            ),
            NormalKey::Ignored => self.idle(),
        }
    }

    /// Whether the answers hold the repetitions that `event` sets off in
    /// normal mode.
    pub open spec fn runs_normal(self, event: Event, a: Answers) -> bool {
        match normal_key(event) {
            NormalKey::Char(c) => (EditorView { keys: self.keys.push(c), ..self }).runs_spelled(
                spelled(self.keys.push(c)),
                a.steps,
            ),
            _ => true,
        }
    }

    /// A key in the mode that the editor is in.
    pub open spec fn mode_keys(self, event: Event, a: Answers) -> Outcome {
        match self.line.mode {
            LineMode::Insert => self.insert_keys(event, a),
            LineMode::Normal => self.normal_keys(event, a),
        }
    }

    /// Whether the answers hold the repetitions that `event` sets off in the
    /// mode that the editor is in.
    pub open spec fn runs_mode(self, event: Event, a: Answers) -> bool {
        self.line.mode == LineMode::Normal ==> self.runs_normal(event, a)
    }

    /// Whether the answers are ones that the menu and the mode's keys can
    /// get while the menu is active.
    pub open spec fn runs_menu(self, event: Event, a: Answers) -> bool {
        &&& self.admits(a)
        &&& menu_key(event) == MenuKey::Other ==> (EditorView { active: false, ..self }).runs_mode(
            event,
            a,
        )
    }

    /// Whether the answers are ones that the collaborators can give while
    /// `event` is handled.
    pub open spec fn runs_event(self, event: Event, a: Answers) -> bool {
        let s = self.standard_keys(event, a);
        !(event.key() is Some && a.handled) && s.1 == Ok::<Standard, BufferError>(Standard::Pass)
            ==> if s.0.active {
            s.0.runs_menu(event, a)
        } else {
            s.0.runs_mode(event, a)
        }
    }

    /// Whether the answers hold the repetitions that run once the external
    /// editor is back.
    pub open spec fn runs_resumed(self, contents: Option<Seq<char>>, a: Answers) -> bool {
        let due = match self.suspended {
            Some(n) => n as nat,
            None => 0,
        };
        let awake = EditorView { suspended: None, ..self };
        match contents {
            None => true,
            Some(text) => {
                let s = awake.line.overwritten(without_newline(text));
                s.1 is Ok ==> (EditorView { line: s.0, ..awake }).runs(Action::Editor, due, a.steps)
            },
        }
    }

    /// The history index points at an entry that the history has.
    pub open spec fn wf(self) -> bool {
        self.line.history_ind.valid(self.history.len())
    }

    /// The start of a session: queued text, if there is any, goes into the
    /// buffer, and the session finishes at once if the text asks for it.
    pub open spec fn begun(self) -> Outcome {
        if self.queue.len() == 0 {
            self.idle()
        } else {
            let first = self.queue.last();
            let e = EditorView { queue: self.queue.drop_last(), ..self };
            let s = e.line.inserted(Location::Rel(0), first.content@);
            if s.1 is Ok && first.auto_run {
                (
                    EditorView { line: s.0, effects: e.effects.push(Effect::Newline), ..e },
                    Ok(Flow::Finish),
                )
            } else {
                e.with_line(s)
            }
        }
    }

    /// A key of the menu pressed. Enter accepts the selected candidate and
    /// closes the menu, Escape closes it, Shift-Tab, Up, Tab and Down move
    /// the selection to the entry `selected` of the menu's choice, and any
    /// other key closes the menu.
    pub open spec fn menu_pressed(self, key: MenuKey, selected: nat) -> Outcome {
        let closed = EditorView { active: false, ..self };
        match key {
            MenuKey::Accept => match current_of(self.entries, self.selected) {
                Some(c) => closed.with_line(
                    closed.line.accepted(c, display_width(closed.line.current_word)),
                ),
                None => closed.idle(),
            },
            MenuKey::Close | MenuKey::Other => closed.idle(),
            MenuKey::Previous | MenuKey::Next => (EditorView { selected, ..self }).idle(),
        }
    }

    /// An event while the menu is active: a key of the menu does its work; any
    /// other event closes the menu and is then handled by the mode.
    pub open spec fn menu_keys(self, event: Event, a: Answers) -> Outcome {
        match menu_key(event) {
            MenuKey::Other => (EditorView { active: false, ..self }).mode_keys(event, a),
            key => self.menu_pressed(key, a.selected),
        }
    }

    /// What the display shows after the text: while the menu is active, what
    /// the selected candidate would add to the word under completion, marked
    /// `true`; else what the proposal would add to the command, marked
    /// `false`.
    pub open spec fn overlaid(self, suggestion: Option<Seq<char>>) -> Option<(bool, Seq<char>)> {
        if self.active {
            match current_of(self.entries, self.selected) {
                Some(c) => Some((true, untyped_suffix(c.accepted(), self.line.current_word))),
                None => None,
            }
        } else {
            match self.proposed(suggestion) {
                Some(text) => Some((false, untyped_suffix(text, self.line.full_command()))),
                None => None,
            }
        }
    }

    /// The keys common to all modes, whatever the collaborators answer.
    pub open spec fn standard_keys(self, event: Event, a: Answers) -> (
        EditorView,
        Result<Standard, BufferError>,
    ) {
        self.standard_pressed(event, a.suggestion, a.more)
    }

    /// The keys common to all modes; `suggestion` is what the suggester
    /// proposes and `more` whether the interpreter wants another line.
    pub open spec fn standard_pressed(
        self,
        event: Event,
        suggestion: Option<Seq<char>>,
        more: bool,
    ) -> (EditorView, Result<Standard, BufferError>) {
        match standard_key(event) {
            StandardKey::Resize(w, h) => (
                EditorView { effects: self.effects.push(Effect::Resize(w, h)), ..self },
                Ok(Standard::Pass),
            ),
            StandardKey::Paste => self.passed(self.line.inserted(Location::Rel(0), pasted(event))),
            StandardKey::Interrupt => (
                EditorView {
                    line: LineView { lines: Seq::empty(), ..self.line.cleared() },
                    effects: self.effects.push(Effect::Newline),
                    ..self
                },
                Ok(Standard::Break),
            ),
            StandardKey::Suggest => match self.proposed(suggestion) {
                Some(text) => self.passed(self.line.overwritten(text)),
                None => (self, Ok(Standard::Pass)),
            },
            StandardKey::Submit => if self.active {
                (self, Ok(Standard::Pass))
            } else if more {
                (
                    EditorView {
                        line: LineView {
                            lines: self.line.lines + self.line.text + seq!['\n'],
                            ..self.line.cleared()
                        },
                        effects: self.effects.push(Effect::Newline),
                        ..self
                    },
                    Ok(Standard::Absorbed),
                )
            } else {
                (
                    EditorView { effects: self.effects.push(Effect::Newline), ..self },
                    Ok(Standard::Break),
                )
            },
            StandardKey::EndOfInput => if self.line.text.len() == 0 {
                (self, Ok(Standard::Exit))
            } else {
                (
                    EditorView { effects: self.effects.push(Effect::Newline), ..self },
                    Ok(Standard::Break),
                )
            },
            StandardKey::Other => (self, Ok(Standard::Pass)),
        }
    }

    /// The proposal that counts: `suggestion`, if the editor has a suggester.
    pub open spec fn proposed(self, suggestion: Option<Seq<char>>) -> Option<Seq<char>> {
        if self.suggester {
            suggestion
        } else {
            None
        }
    }

    /// The editor after a step on the line alone, the event going on.
    pub open spec fn passed(self, s: Step) -> (EditorView, Result<Standard, BufferError>) {
        (
            EditorView { line: s.0, ..self },
            match s.1 {
                Ok(_) => Ok(Standard::Pass),
                Err(e) => Err(e),
            },
        )
    }

    /// One event, in the order of precedence: the user's key bindings, then
    /// the keys common to all modes, then the menu if it is active, else the
    /// keys of the mode.
    pub open spec fn handled(self, event: Event, a: Answers) -> Outcome {
        if event.key() is Some && a.handled {
            (self, Ok(Flow::Finish))
        } else {
            let s = self.standard_keys(event, a);
            match s.1 {
                Err(e) => (s.0, Err(e)),
                Ok(Standard::Break) => (s.0, Ok(Flow::Finish)),
                Ok(Standard::Exit) => (s.0, Ok(Flow::Exit)),
                Ok(Standard::Absorbed) => (s.0, Ok(Flow::Continue)),
                Ok(Standard::Pass) => if s.0.active {
                    s.0.menu_keys(event, a)
                } else {
                    s.0.mode_keys(event, a)
                },
            }
        }
    }

    /// The external editor is back. Without an editor to call (`None`) the
    /// command is dropped. Else what the editor left, less one trailing line
    /// feed, becomes the buffer's text, and the repetitions still due run.
    pub open spec fn resumed(self, contents: Option<Seq<char>>, a: Answers) -> Outcome {
        let due = match self.suspended {
            Some(n) => n as nat,
            None => 0,
        };
        let awake = EditorView { suspended: None, ..self };
        match contents {
            None => awake.idle(),
            Some(text) => {
                let s = awake.line.overwritten(without_newline(text));
                if s.1 is Err {
                    awake.with_line(s)
                } else {
                    (EditorView { line: s.0, ..awake }).repeated(Action::Editor, due, a.steps)
                }
            },
        }
    }
}

impl StandardKey {
    /// How the keys common to all modes read `event`.
    pub fn of(event: &Event) -> (k: StandardKey)
        ensures
            k == standard_key(*event),
    {
        match event {
            Event::Resize(w, h) => StandardKey::Resize(*w, *h),
            Event::Paste(_) => StandardKey::Paste,
            Event::Key(k) => if k.is(KeyCode::Char('c'), CONTROL) {
                StandardKey::Interrupt
            } else if k.is(KeyCode::Right, NONE) {
                StandardKey::Suggest
            } else if k.is(KeyCode::Enter, NONE) || k.is(KeyCode::Char('j'), CONTROL) {
                StandardKey::Submit
            } else if k.is(KeyCode::Char('d'), CONTROL) {
                StandardKey::EndOfInput
            } else {
                StandardKey::Other
            },
            Event::Other => StandardKey::Other,
        }
    }
}

impl MenuKey {
    /// How the active menu reads `event`.
    pub fn of(event: &Event) -> (k: MenuKey)
        ensures
            k == menu_key(*event),
    {
        match event.as_key() {
            None => MenuKey::Other,
            Some(k) => if k.is(KeyCode::Enter, NONE) {
                MenuKey::Accept
            } else if k.is(KeyCode::Esc, NONE) {
                MenuKey::Close
            } else if k.is(KeyCode::Tab, SHIFT) || k.is(KeyCode::Up, NONE) {
                MenuKey::Previous
            } else if k.is(KeyCode::Tab, NONE) || k.is(KeyCode::Down, NONE) {
                MenuKey::Next
            } else {
                MenuKey::Other
            },
        }
    }
}

impl InsertKey {
    /// How insert mode reads `event`.
    pub fn of(event: &Event) -> (k: InsertKey)
        ensures
            k == insert_key(*event),
    {
        match event.as_key() {
            None => InsertKey::Ignored,
            Some(k) => if k.is(KeyCode::Tab, NONE) {
                InsertKey::Tab
            } else if k.is(KeyCode::Left, NONE) {
                InsertKey::Left
            } else if k.is(KeyCode::Right, NONE) {
                InsertKey::Right
            } else if k.is(KeyCode::Down, NONE) {
                InsertKey::Down
            } else if k.is(KeyCode::Up, NONE) {
                InsertKey::Up
            } else if k.code == KeyCode::Esc {
                InsertKey::Escape
            } else if k.is(KeyCode::Backspace, NONE) || k.is(KeyCode::Char('h'), CONTROL) {
                InsertKey::Backspace
            } else if k.is(KeyCode::Char('w'), CONTROL) {
                InsertKey::DeleteWord
            } else if k.is(KeyCode::Char('a'), CONTROL) {
                InsertKey::LineStart
            } else if k.is(KeyCode::Char('e'), CONTROL) {
                InsertKey::LineEnd
            } else {
                match k.code {
                    KeyCode::Char(c) => InsertKey::Char(c),
                    _ => InsertKey::Ignored,
                }
            },
        }
    }
}

impl NormalKey {
    /// How normal mode reads `event`.
    pub fn of(event: &Event) -> (k: NormalKey)
        ensures
            k == normal_key(*event),
    {
        match event.as_key() {
            None => NormalKey::Ignored,
            Some(k) => match k.code {
                KeyCode::Esc => NormalKey::Escape,
                KeyCode::Char(c) => NormalKey::Char(c),
                _ => NormalKey::Ignored,
            },
        }
    }
}

} // verus!
