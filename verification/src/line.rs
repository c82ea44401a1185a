//! The line editor: its configuration and its key handlers.

use crate::buffer::{raw_cursor, raw_len, raw_text, BufferError, Location};
use crate::completion::{candidates_of, Completion, CompletionCtx, CompletionView, ReplaceMethod};
use crate::event::Event;
use crate::history::HistoryInd;
use crate::menu::{entries_of, DefaultMenu, Entry, Menu};
use crate::model::{
    entries_for, Answers, EditorView, Flow, InsertKey, MenuKey, NormalKey, Standard, StandardKey,
    StepAnswer,
};
use crate::shell::{
    BufferHistory, Context, CursorShape, CursorStyle, Effect, Highlighter, Prompt, Shell,
    Suggester,
};
use crate::snippet::{ExpandSnippet, Position, Snippets};
use crate::state::{LineMode, LineState};
use crate::text::{
    chars_of, find_word_end, find_word_start, split_on_space, split_words, string_of, text_of,
    texts,
};
use crate::width::{display_width, width_of};
use shrs_vi::{Action, Command, Motion};
use vstd::prelude::*;
use vstd::string::StringExecFns;

verus! {

/// Reads one line of input.
pub trait Readline {
    /// Runs one editing session and returns the finished command.
    fn read_line(&mut self, sh: &Shell, ctx: &mut Context) -> String;
}

/// Configuration for readline
pub struct Line {
    /// Completion menu.
    pub(crate) menu: Box<dyn Menu>,
    /// The undo log, where there is one.
    pub(crate) buffer_history: Option<Box<dyn BufferHistory>>,
    /// Syntax highlighter, where there is one.
    pub(crate) highlighter: Option<Box<dyn Highlighter>>,
    /// Custom prompt, where there is one.
    pub(crate) prompt: Option<Box<dyn Prompt>>,
    /// Currently pressed keys in normal mode
    pub(crate) normal_keys: String,
    /// Whoever suggests how the line might go on, where there is one.
    pub(crate) suggester: Option<Box<dyn Suggester>>,
    /// Alias expansions.
    pub(crate) snippets: Snippets,
    /// While the external editor is out: the repetitions still to run.
    pub(crate) suspended: Option<u32>,
}

/// Puts a [`Line`] together piece by piece. What is not given is left out,
/// but for the menu, which is then the default one.
pub struct LineBuilder {
    pub(crate) menu: Option<Box<dyn Menu>>,
    pub(crate) buffer_history: Option<Box<dyn BufferHistory>>,
    pub(crate) highlighter: Option<Box<dyn Highlighter>>,
    pub(crate) prompt: Option<Box<dyn Prompt>>,
    pub(crate) suggester: Option<Box<dyn Suggester>>,
    pub(crate) snippets: Option<Snippets>,
}

/// Which pieces a builder has been given.
pub ghost struct Given {
    pub menu: bool,
    pub buffer_history: bool,
    pub highlighter: bool,
    pub prompt: bool,
    pub suggester: bool,
    pub snippets: Option<Snippets>,
}

impl Default for LineBuilder {
    /// A builder that has been given nothing yet.
    fn default() -> (b: Self)
        ensures
            b.given() == (Given {
                menu: false,
                buffer_history: false,
                highlighter: false,
                prompt: false,
                suggester: false,
                snippets: None,
            }),
    {
        LineBuilder {
            menu: None,
            buffer_history: None,
            highlighter: None,
            prompt: None,
            suggester: None,
            snippets: None,
        }
    }
}

impl LineBuilder {
    /// Which pieces the builder has been given.
    pub open(crate) spec fn given(self) -> Given {
        Given {
            menu: self.menu is Some,
            buffer_history: self.buffer_history is Some,
            highlighter: self.highlighter is Some,
            prompt: self.prompt is Some,
            suggester: self.suggester is Some,
            snippets: self.snippets,
        }
    }

    pub fn with_menu<M: Menu + 'static>(self, menu: M) -> (b: Self)
        ensures
            b.given() == (Given { menu: true, ..self.given() }),
    {
        let boxed: Box<dyn Menu> = Box::new(menu);
        let mut b = self;
        b.menu = Some(boxed);
        b
    }

    pub fn with_highlighter<H: Highlighter + 'static>(self, highlighter: H) -> (b: Self)
        ensures
            b.given() == (Given { highlighter: true, ..self.given() }),
    {
        let boxed: Box<dyn Highlighter> = Box::new(highlighter);
        let mut b = self;
        b.highlighter = Some(boxed);
        b
    }

    pub fn with_prompt<P: Prompt + 'static>(self, prompt: P) -> (b: Self)
        ensures
            b.given() == (Given { prompt: true, ..self.given() }),
    {
        let boxed: Box<dyn Prompt> = Box::new(prompt);
        let mut b = self;
        b.prompt = Some(boxed);
        b
    }

    pub fn with_suggester<S: Suggester + 'static>(self, suggester: S) -> (b: Self)
        ensures
            b.given() == (Given { suggester: true, ..self.given() }),
    {
        let boxed: Box<dyn Suggester> = Box::new(suggester);
        let mut b = self;
        b.suggester = Some(boxed);
        b
    }

    pub fn with_buffer_history<B: BufferHistory + 'static>(self, buffer_history: B) -> (b: Self)
        ensures
            b.given() == (Given { buffer_history: true, ..self.given() }),
    {
        let boxed: Box<dyn BufferHistory> = Box::new(buffer_history);
        let mut b = self;
        b.buffer_history = Some(boxed);
        b
    }

    pub fn with_snippets(self, snippets: Snippets) -> (b: Self)
        ensures
            b.given() == (Given { snippets: Some(snippets), ..self.given() }),
    {
        let mut b = self;
        b.snippets = Some(snippets);
        b
    }

    /// The editor that was put together. It has the pieces given; without a
    /// menu it has the default one, without snippets an empty table. No key
    /// is typed, nothing is suspended, and the menu is empty and closed.
    pub fn build(self) -> (line: Line)
        ensures
            line.given() == (Given {
                menu: true,
                snippets: line.given().snippets,
                ..self.given()
            }),
            line.given().snippets is Some,
            self.given().snippets is Some ==> line.given().snippets == self.given().snippets,
            self.given().snippets is None ==> line.given().snippets.unwrap().trigger()
                == ExpandSnippet::OnSpace && forall|t: Seq<char>|
                line.given().snippets.unwrap().snippet(t) is None,
            line.pending_keys() == Seq::<char>::empty(),
            line.waiting() is None,
            line.menu_entries() == Seq::<Entry>::empty(),
            line.menu_selected() == 0,
            !line.menu_active(),
    {
        let menu: Box<dyn Menu> = match self.menu {
            Some(menu) => menu,
            None => Box::new(DefaultMenu::new()),
        };
        let snippets = match self.snippets {
            Some(snippets) => snippets,
            None => Snippets::default(),
        };
        let mut line = Line {
            menu,
            buffer_history: self.buffer_history,
            highlighter: self.highlighter,
            prompt: self.prompt,
            normal_keys: String::new(),
            suggester: self.suggester,
            snippets,
            suspended: None,
        };
        line.menu.set_items(Vec::new());
        line.menu.disactivate();
        line
    }
}

impl Default for Line {
    /// An editor with the default menu, no snippets and no other
    /// collaborator.
    fn default() -> (line: Self)
        ensures
            line.given() == (Given {
                menu: true,
                buffer_history: false,
                highlighter: false,
                prompt: false,
                suggester: false,
                snippets: line.given().snippets,
            }),
            line.given().snippets is Some,
            line.given().snippets.unwrap().trigger() == ExpandSnippet::OnSpace,
            forall|t: Seq<char>| line.given().snippets.unwrap().snippet(t) is None,
            line.pending_keys() == Seq::<char>::empty(),
            line.waiting() is None,
            line.menu_entries() == Seq::<Entry>::empty(),
            line.menu_selected() == 0,
            !line.menu_active(),
    {
        LineBuilder::default().build()
    }
}

impl Line {
    /// Which pieces the editor has.
    pub open(crate) spec fn given(&self) -> Given {
        Given {
            menu: true,
            buffer_history: self.buffer_history is Some,
            highlighter: self.highlighter is Some,
            prompt: self.prompt is Some,
            suggester: self.suggester is Some,
            snippets: Some(self.snippets),
        }
    }

    /// The menu's entries.
    pub open(crate) spec fn menu_entries(&self) -> Seq<Entry> {
        self.menu.entries()
    }

    /// The menu's selected entry.
    pub open(crate) spec fn menu_selected(&self) -> nat {
        self.menu.selected()
    }

    /// Whether the menu is active.
    pub open(crate) spec fn menu_active(&self) -> bool {
        self.menu.active()
    }

    /// The keys typed in normal mode that spell no command yet.
    pub open(crate) spec fn pending_keys(&self) -> Seq<char> {
        self.normal_keys@
    }

    /// While the external editor is out: the repetitions still to run.
    pub open(crate) spec fn waiting(&self) -> Option<u32> {
        self.suspended
    }

    /// All that the key handlers read or change, as plain values.
    pub open spec fn editor(&self, ctx: &Context, line: &LineState) -> EditorView {
        EditorView {
            line: line@,
            keys: self.pending_keys(),
            suspended: self.waiting(),
            entries: self.menu_entries(),
            selected: self.menu_selected(),
            active: self.menu_active(),
            history: ctx.history.entries(),
            style: ctx.cursor_style,
            effects: ctx.effects@,
            queue: ctx.prompt_content_queue@,
            snippets: self.given().snippets.unwrap(),
            undo_log: self.given().buffer_history,
            suggester: self.given().suggester,
        }
    }

    /// The completion menu.
    pub fn menu(&self) -> (menu: &Box<dyn Menu>)
        ensures
            menu.entries() == self.menu_entries(),
            menu.selected() == self.menu_selected(),
            menu.active() == self.menu_active(),
    {
        &self.menu
    }

    /// The prompt, where the editor has one.
    pub fn prompt(&self) -> (prompt: &Option<Box<dyn Prompt>>)
        ensures
            prompt is Some == self.given().prompt,
    {
        &self.prompt
    }

    /// The highlighter, where the editor has one.
    pub fn highlighter(&self) -> (highlighter: &Option<Box<dyn Highlighter>>)
        ensures
            highlighter is Some == self.given().highlighter,
    {
        &self.highlighter
    }

    /// While the external editor is out: the repetitions of the command
    /// that are still to run once it is back.
    pub fn suspended(&self) -> (due: Option<u32>)
        ensures
            due == self.waiting(),
    {
        self.suspended
    }

    /// The keys typed in normal mode that spell no command yet.
    pub fn normal_keys(&self) -> (keys: &String)
        ensures
            keys@ == self.pending_keys(),
    {
        &self.normal_keys
    }

    fn switch_mode(&self, ctx: &mut Context, line: &mut LineState, mode: LineMode)
        ensures
            self.editor(final(ctx), final(line)) == self.editor(old(ctx), old(line)).switched(mode),
    {
        if ctx.cursor_style.is_some() {
            let shape = match mode {
                LineMode::Insert => CursorShape::BlinkingBar,
                LineMode::Normal => CursorShape::BlinkingBlock,
            };
            ctx.cursor_style = Some(CursorStyle { style: shape });
        }
        line.mode = mode;
        ctx.effects.push(Effect::ModeSwitch(mode));
    }

    /// Switches to normal mode: the cursor becomes a block where the program
    /// keeps a cursor shape, and the switch is announced.
    pub fn to_normal_mode(&self, ctx: &mut Context, line: &mut LineState)
        ensures
            self.editor(final(ctx), final(line)) == self.editor(old(ctx), old(line)).switched(
                LineMode::Normal,
            ),
    {
        self.switch_mode(ctx, line, LineMode::Normal)
    }

    /// Switches to insert mode: the cursor becomes a bar where the program
    /// keeps a cursor shape, and the switch is announced.
    pub fn to_insert_mode(&self, ctx: &mut Context, line: &mut LineState)
        ensures
            self.editor(final(ctx), final(line)) == self.editor(old(ctx), old(line)).switched(
                LineMode::Insert,
            ),
    {
        self.switch_mode(ctx, line, LineMode::Insert)
    }

    /// Shows in the buffer what the history index points at: the saved draft
    /// at the prompt, else the entry.
    pub fn update_history(&self, ctx: &Context, line: &mut LineState) -> (r: Result<
        (),
        BufferError,
    >)
        requires
            old(line)@.history_ind.valid(ctx.history.entries().len()),
        ensures
            (final(line)@, r) == old(line)@.overwritten(
                old(line)@.shown(old(line)@.history_ind, ctx.history.entries()),
            ),
    {
        match line.history_ind {
            HistoryInd::Prompt => {
                let saved = line.saved_line.clone();
                line.overwrite(saved.as_str())
            },
            HistoryInd::Line(i) => {
                match ctx.history.get(i) {
                    Some(item) => line.overwrite(item.as_str()),
                    None => Ok(()),
                }
            },
        }
    }

    /// One step up in the history. At the prompt the text under edit is
    /// saved first.
    pub fn history_up(&self, ctx: &Context, line: &mut LineState) -> (r: Result<(), BufferError>)
        requires
            old(line)@.history_ind.valid(ctx.history.entries().len()),
        ensures
            (final(line)@, r) == old(line)@.browsed_up(ctx.history.entries()),
            final(line)@.history_ind.valid(ctx.history.entries().len()),
    {
        if line.history_ind == HistoryInd::Prompt {
            line.saved_line = raw_text(&line.cb);
        }
        line.history_ind = line.history_ind.up(ctx.history.len());
        self.update_history(ctx, line)
    }

    /// One step down in the history. At the prompt nothing happens.
    pub fn history_down(&self, ctx: &Context, line: &mut LineState) -> (r: Result<(), BufferError>)
        requires
            old(line)@.history_ind.valid(ctx.history.entries().len()),
        ensures
            (final(line)@, r) == old(line)@.browsed_down(ctx.history.entries()),
            final(line)@.history_ind.valid(ctx.history.entries().len()),
            old(line)@.history_ind == HistoryInd::Prompt ==> final(line)@ == old(line)@ && r is Ok,
    {
        if line.history_ind == HistoryInd::Prompt {
            return Ok(());
        }
        line.history_ind = line.history_ind.down();
        self.update_history(ctx, line)
    }

    /// Puts an accepted candidate into the buffer, `width` being the display
    /// width of the word under completion. With the policy `Append` the
    /// candidate's text goes in at the cursor. With `Replace` the word under
    /// completion is first taken out: the `width` characters before the
    /// cursor; a cursor with fewer characters before it refuses that, and so
    /// does a width beyond the machine's reach.
    pub fn accept_with_width(
        &self,
        line: &mut LineState,
        completion: Completion,
        width: usize,
    ) -> (r: Result<(), BufferError>)
        ensures
            (final(line)@, r) == old(line)@.accepted(completion@, width as nat),
    {
        match completion.replace_method {
            ReplaceMethod::Append => {},
            ReplaceMethod::Replace => {
                if width > isize::MAX as usize {
                    return Err(BufferError::DeletingTooMuch);
                }
                let back = line.move_cursor(Location::Rel(-(width as isize)));
                if back.is_err() {
                    return back;
                }
                let cut = line.delete(Location::cursor(), Location::Rel(width as isize));
                if cut.is_err() {
                    return cut;
                }
                line.current_word = String::new();
            },
        }
        let text = completion.accept();
        line.insert(Location::cursor(), text.as_str())
    }

    /// Puts the accepted candidate into the buffer, in place of the word
    /// under completion or after it as the candidate asks. How much a
    /// replacing candidate takes out goes by the display width of the word
    /// under completion, not by its bytes or characters.
    pub fn accept_completion(&self, line: &mut LineState, completion: Completion) -> (r: Result<
        (),
        BufferError,
    >)
        ensures
            (final(line)@, r) == old(line)@.accepted(
                completion@,
                display_width(old(line)@.current_word),
            ),
    {
        let width = width_of(line.current_word.as_str());
        self.accept_with_width(line, completion, width)
    }

    /// Expands the snippet at the cursor, if `event` is the one that triggers
    /// expansion and the word at the cursor is a registered trigger in a
    /// place where it may expand. Returns whether the event is still to be
    /// handled as a key.
    pub fn expand(&self, line: &mut LineState, event: &Event) -> (r: Result<bool, BufferError>)
        ensures
            (final(line)@, r) == old(line)@.snipped(self.given().snippets.unwrap(), *event),
    {
        if !self.snippets.should_expand(event) {
            return Ok(true);
        }
        let text = raw_text(&line.cb);
        let chars = chars_of(text.as_str());
        let cursor = raw_cursor(&line.cb);
        if cursor > chars.len() {
            return Ok(true);
        }
        let start = find_word_start(&chars, cursor);
        let end = find_word_end(&chars, cursor);
        let word = string_of(&chars, start, end);
        match self.snippets.get(&word) {
            None => Ok(true),
            Some(info) => {
                if info.position == Position::Command && start != 0 {
                    return Ok(true);
                }
                let mut expanded = string_of(&chars, 0, start);
                expanded.append(info.value.as_str());
                let rest = string_of(&chars, end, chars.len());
                expanded.append(rest.as_str());
                match line.overwrite(expanded.as_str()) {
                    Ok(()) => Ok(false),
                    Err(e) => Err(e),
                }
            },
        }
    }

    /// What the completer is told: the text up to the cursor, split on
    /// spaces.
    pub fn completion_ctx(&self, line: &LineState) -> (ctx: CompletionCtx)
        ensures
            texts(ctx.line@) == split_on_space(line@.typed()),
            ctx.line@.len() >= 1,
    {
        let text = raw_text(&line.cb);
        let chars = chars_of(text.as_str());
        let cursor = raw_cursor(&line.cb);
        let upto = if cursor <= chars.len() {
            cursor
        } else {
            chars.len()
        };
        let args = split_words(&chars, upto);
        proof {
            crate::text::lemma_split_nonempty(chars@.take(upto as int));
        }
        CompletionCtx::new(args)
    }

    /// Fills the menu with `candidates` for the word before the cursor: that
    /// word, the last piece of the text up to the cursor split on spaces, is
    /// noted as the word under completion, and the candidates become the
    /// menu's entries, each shown as it asks to be, the first one selected.
    pub fn fill_menu(&mut self, ctx: &Context, line: &mut LineState, candidates: Vec<Completion>)
        ensures
            final(self).editor(ctx, final(line)) == old(self).editor(ctx, old(line)).filled(
                candidates_of(candidates@),
            ),
    {
        let words = self.completion_ctx(line);
        line.current_word = words.line[words.line.len() - 1].clone();
        let ghost views = candidates_of(candidates@);
        let mut items: Vec<(String, Completion)> = Vec::new();
        let mut i: usize = 0;
        while i < candidates.len()
            invariant
                i <= candidates.len(),
                views == candidates_of(candidates@),
                entries_of(items@) == entries_for(views.take(i as int)),
            decreases candidates.len() - i,
        {
            let c = &candidates[i];
            let ghost before = entries_of(items@);
            items.push((c.display(), c.clone()));
            proof {
                assert(entries_for(views.take(i + 1)) =~= before.push((c@.shown(), c@)));
            }
            i += 1;
        }
        assert(views.take(i as int) =~= views);
        self.menu.set_items(items);
    }

    /// Fills the menu for the word before the cursor with what the completer
    /// proposes for the words typed so far.
    pub fn populate_completions(&mut self, ctx: &Context, line: &mut LineState)
        ensures
            exists|candidates: Seq<CompletionView>| #[trigger]
                old(self).editor(ctx, old(line)).filled(candidates) == final(self).editor(
                    ctx,
                    final(line),
                ),
    {
        let ghost e0 = self.editor(ctx, line);
        let words = self.completion_ctx(line);
        let candidates = ctx.completer.complete(&words);
        let ghost views = candidates_of(candidates@);
        self.fill_menu(ctx, line, candidates);
        assert(e0.filled(views) == self.editor(ctx, line));
    }

    /// A key of insert mode, with what the collaborators have to say to it:
    /// the completer's candidates for Tab, and for Control-W the place where
    /// the engine sees the previous word begin. Tab fills the menu; with no
    /// candidate the menu stays closed, with one that one is accepted at once,
    /// with more the menu opens. The arrows move the cursor within the line
    /// or browse the history, Escape leads to normal mode, Backspace deletes
    /// the character before the cursor, Control-W deletes back to the start
    /// of the word, Control-A and Control-E go to the ends of the line, and a
    /// character is inserted.
    #[verifier::rlimit(50)]
    pub fn press_insert_key(
        &mut self,
        ctx: &mut Context,
        line: &mut LineState,
        key: InsertKey,
        candidates: Vec<Completion>,
        back_word: Result<Location, BufferError>,
    ) -> (r: Result<Flow, BufferError>)
        requires
            old(self).editor(old(ctx), old(line)).wf(),
        ensures
            (final(self).editor(final(ctx), final(line)), r) == old(self).editor(
                old(ctx),
                old(line),
            ).insert_pressed(key, candidates_of(candidates@), back_word),
            final(self).editor(final(ctx), final(line)).wf(),
    {
        let ghost views = candidates_of(candidates@);
        match key {
            InsertKey::Tab => {
                self.fill_menu(ctx, line, candidates);
                self.menu.activate();
                let items = self.menu.items();
                assert(entries_for(views).len() == views.len());
                let n = items.len();
                if n == 0 {
                    self.menu.disactivate();
                    Ok(Flow::Continue)
                } else if n == 1 {
                    let item = items[0].1.clone();
                    assert(entries_for(views)[0].1 == views[0]);
                    match self.accept_completion(line, item) {
                        Err(err) => Err(err),
                        Ok(()) => {
                            self.menu.disactivate();
                            Ok(Flow::Continue)
                        },
                    }
                } else {
                    Ok(Flow::Continue)
                }
            },
            InsertKey::Left => {
                if raw_cursor(&line.cb) > 0 {
                    flow(line.move_cursor(Location::before()))
                } else {
                    Ok(Flow::Continue)
                }
            },
            InsertKey::Right => {
                if raw_cursor(&line.cb) < raw_len(&line.cb) {
                    flow(line.move_cursor(Location::after()))
                } else {
                    Ok(Flow::Continue)
                }
            },
            InsertKey::Down => flow(self.history_down(ctx, line)),
            InsertKey::Up => flow(self.history_up(ctx, line)),
            InsertKey::Escape => {
                self.to_normal_mode(ctx, line);
                match &mut self.buffer_history {
                    Some(log) => log.add(&line.cb),
                    None => {},
                }
                Ok(Flow::Continue)
            },
            InsertKey::Backspace => {
                if raw_len(&line.cb) != 0 && raw_cursor(&line.cb) != 0 {
                    flow(line.delete(Location::before(), Location::cursor()))
                } else {
                    Ok(Flow::Continue)
                }
            },
            InsertKey::DeleteWord => {
                if raw_len(&line.cb) != 0 && raw_cursor(&line.cb) != 0 {
                    match back_word {
                        Ok(start) => flow(line.delete(start, Location::cursor())),
                        Err(err) => Err(err),
                    }
                } else {
                    Ok(Flow::Continue)
                }
            },
            InsertKey::LineStart => flow(line.move_cursor(Location::front())),
            InsertKey::LineEnd => {
                let end = raw_len(&line.cb);
                flow(line.move_cursor(Location::Abs(end)))
            },
            InsertKey::Char(c) => {
                let mut text = String::new();
                text.push(c);
                flow(line.insert(Location::cursor(), text.as_str()))
            },
            InsertKey::Ignored => Ok(Flow::Continue),
        }
    }

    /// An event in insert mode. A snippet that expands on the event takes it.
    /// Else the event is read as a key of insert mode: for Tab the completer
    /// is asked for candidates, for Control-W the engine for the start of the
    /// previous word, and the key does its work. Every other event is
    /// ignored.
    #[verifier::rlimit(50)]
    pub fn handle_insert_keys(
        &mut self,
        ctx: &mut Context,
        line: &mut LineState,
        event: &Event,
    ) -> (r: Result<Flow, BufferError>)
        requires
            old(self).editor(old(ctx), old(line)).wf(),
        ensures
            exists|a: Answers| #[trigger]
                old(self).editor(old(ctx), old(line)).insert_keys(*event, a) == (
                    final(self).editor(final(ctx), final(line)),
                    r,
                ),
            final(self).editor(final(ctx), final(line)).wf(),
    {
        let ghost e0 = self.editor(ctx, line);
        let ghost a0: Answers = arbitrary();
        match self.expand(line, event) {
            Err(err) => {
                assert(e0.insert_keys(*event, a0) == (
                    self.editor(ctx, line),
                    Err::<Flow, BufferError>(err),
                ));
                return Err(err);
            },
            Ok(false) => {
                assert(e0.insert_keys(*event, a0) == (
                    self.editor(ctx, line),
                    Ok::<Flow, BufferError>(Flow::Continue),
                ));
                return Ok(Flow::Continue);
            },
            Ok(true) => {},
        }
        let key = InsertKey::of(event);
        let candidates = match key {
            InsertKey::Tab => {
                let words = self.completion_ctx(line);
                ctx.completer.complete(&words)
            },
            _ => Vec::new(),
        };
        let back_word = match key {
            InsertKey::DeleteWord => if raw_len(&line.cb) != 0 && raw_cursor(&line.cb) != 0 {
                ctx.vi.motion_to_loc(&line.cb, Motion::BackWord)
            } else {
                Ok(Location::cursor())
            },
            _ => Ok(Location::cursor()),
        };
        let ghost a = Answers { candidates: candidates_of(candidates@), back_word, ..a0 };
        let r = self.press_insert_key(ctx, line, key, candidates, back_word);
        assert(e0.insert_keys(*event, a) == (self.editor(ctx, line), r));
        r
    }

    /// What follows once the engine has carried `action` out on the buffer
    /// and reported `outcome`, with `remaining` repetitions of the command
    /// still to come. The editor follows a change of mode that the engine
    /// reports. Then Undo and Redo walk the undo log, a move up or down
    /// browses the history, the action that opens the external editor
    /// suspends the command, and any other action but a move has the buffer
    /// recorded in the undo log.
    #[verifier::rlimit(50)]
    pub fn follow_engine(
        &mut self,
        ctx: &mut Context,
        line: &mut LineState,
        action: &Action,
        remaining: u32,
        outcome: Result<LineMode, BufferError>,
    ) -> (r: Result<Flow, BufferError>)
        requires
            old(self).editor(old(ctx), old(line)).wf(),
        ensures
            (final(self).editor(final(ctx), final(line)), r) == old(self).editor(
                old(ctx),
                old(line),
            ).vi_step(
                *action,
                remaining as nat,
                (StepAnswer {
                    text: old(line)@.text,
                    cursor: old(line)@.cursor,
                    outcome,
                    undo_text: final(line)@.text,
                    undo_cursor: final(line)@.cursor,
                }),
            ),
            final(self).editor(final(ctx), final(line)).wf(),
    {
        match outcome {
            Ok(mode) => if mode != line.mode {
                self.switch_mode(ctx, line, mode);
            },
            Err(_) => {},
        }
        match action {
            Action::Undo => {
                match &mut self.buffer_history {
                    Some(log) => log.prev(&mut line.cb),
                    None => {},
                }
                Ok(Flow::Continue)
            },
            Action::Redo => {
                match &mut self.buffer_history {
                    Some(log) => log.next(&mut line.cb),
                    None => {},
                }
                Ok(Flow::Continue)
            },
            Action::Move(Motion::Up) => flow(self.history_up(ctx, line)),
            Action::Move(Motion::Down) => flow(self.history_down(ctx, line)),
            Action::Move(_) => Ok(Flow::Continue),
            Action::Editor => {
                self.suspended = Some(remaining);
                Ok(Flow::Edit)
            },
            _ => {
                match &mut self.buffer_history {
                    Some(log) => log.add(&line.cb),
                    None => {},
                }
                Ok(Flow::Continue)
            },
        }
    }

    /// Runs a normal-mode command `repeat` times: each time the engine
    /// carries the action out on the buffer and the editor follows up on it.
    /// A repetition that is refused or that suspends the command ends the
    /// run.
    #[verifier::rlimit(50)]
    pub fn run_vi(
        &mut self,
        ctx: &mut Context,
        line: &mut LineState,
        action: &Action,
        repeat: u32,
    ) -> (r: Result<Flow, BufferError>)
        requires
            old(self).editor(old(ctx), old(line)).wf(),
        ensures
            exists|steps: Seq<StepAnswer>|
                old(self).editor(old(ctx), old(line)).runs(*action, repeat as nat, steps)
                    && #[trigger] old(self).editor(old(ctx), old(line)).repeated(
                    *action,
                    repeat as nat,
                    steps,
                ) == (final(self).editor(final(ctx), final(line)), r),
            final(self).editor(final(ctx), final(line)).wf(),
    {
        let ghost e0 = self.editor(ctx, line);
        let ghost mut steps: Seq<StepAnswer> = Seq::empty();
        let mut done: u32 = 0;
        while done < repeat
            invariant
                e0 == old(self).editor(old(ctx), old(line)),
                done <= repeat,
                steps.len() == done,
                e0.repeated(*action, repeat as nat, steps) == (
                    self.editor(ctx, line),
                    Ok::<Flow, BufferError>(Flow::Continue),
                ),
                self.editor(ctx, line).wf(),
            decreases repeat - done,
        {
            let ghost before = self.editor(ctx, line);
            let outcome = ctx.vi.execute_vi(&mut line.cb, action.clone());
            let ghost ran = line@;
            let step = self.follow_engine(ctx, line, action, repeat - done - 1, outcome);
            proof {
                let s = StepAnswer {
                    text: ran.text,
                    cursor: ran.cursor,
                    outcome,
                    undo_text: line@.text,
                    undo_cursor: line@.cursor,
                };
                let next = steps.push(s);
                assert(next.drop_last() =~= steps);
                let engaged = EditorView { line: ran, ..before };
                assert(engaged.vi_step(*action, (repeat - next.len()) as nat, s) == (
                    self.editor(ctx, line),
                    step,
                ));
                assert(engaged.line.with_buffer(s.text, s.cursor) == engaged.line);
                assert(before.vi_step(*action, (repeat - next.len()) as nat, s) == (
                    self.editor(ctx, line),
                    step,
                ));
                steps = next;
            }
            match step {
                Ok(Flow::Continue) => {},
                _ => {
                    assert(e0.runs(*action, repeat as nat, steps));
                    return step;
                },
            }
            done += 1;
        }
        Ok(Flow::Continue)
    }

    /// What follows once the keys typed in normal mode have been read as
    /// `command`: keys that spell no command yet are kept; keys that spell
    /// one are forgotten, and the command runs as often as it says.
    #[verifier::rlimit(50)]
    pub fn follow_keys(
        &mut self,
        ctx: &mut Context,
        line: &mut LineState,
        command: Option<Command>,
    ) -> (r: Result<Flow, BufferError>)
        requires
            old(self).editor(old(ctx), old(line)).wf(),
        ensures
            exists|steps: Seq<StepAnswer>|
                old(self).editor(old(ctx), old(line)).runs_spelled(command, steps)
                    && #[trigger] old(self).editor(old(ctx), old(line)).spelled_out(
                    command,
                    steps,
                ) == (final(self).editor(final(ctx), final(line)), r),
            command is None ==> final(self).editor(final(ctx), final(line)) == old(self).editor(
                old(ctx),
                old(line),
            ) && r == Ok::<Flow, BufferError>(Flow::Continue),
            command is Some ==> final(self).pending_keys() == Seq::<char>::empty(),
            final(self).editor(final(ctx), final(line)).wf(),
    {
        let ghost e0 = self.editor(ctx, line);
        let ghost mut ran: Seq<StepAnswer> = Seq::empty();
        let r = match command {
            None => Ok(Flow::Continue),
            Some(cmd) => {
                self.normal_keys = String::new();
                let ghost cleared = self.editor(ctx, line);
                let r = self.run_vi(ctx, line, &cmd.action, cmd.repeat);
                proof {
                    ran = choose|steps: Seq<StepAnswer>|
                        cleared.runs(cmd.action, cmd.repeat as nat, steps)
                            && #[trigger] cleared.repeated(cmd.action, cmd.repeat as nat, steps)
                            == (self.editor(ctx, line), r);
                    lemma_repeated_keeps_keys(cleared, cmd.action, cmd.repeat as nat, ran);
                }
                r
            },
        };
        assert(e0.runs_spelled(command, ran));
        assert(e0.spelled_out(command, ran) == (self.editor(ctx, line), r));
        r
    }

    /// An event in normal mode. Escape forgets the keys typed so far. A
    /// character joins them, and the keys are read by the grammar of normal
    /// mode: once they spell a command they are forgotten and the command
    /// runs. Every other event is ignored.
    #[verifier::rlimit(50)]
    pub fn handle_normal_keys(
        &mut self,
        ctx: &mut Context,
        line: &mut LineState,
        event: &Event,
    ) -> (r: Result<Flow, BufferError>)
        requires
            old(self).editor(old(ctx), old(line)).wf(),
        ensures
            exists|a: Answers|
                old(self).editor(old(ctx), old(line)).runs_normal(*event, a) && #[trigger] old(self).editor(old(ctx), old(line)).normal_keys(*event, a) == (
                    final(self).editor(final(ctx), final(line)),
                    r,
                ),
            final(self).editor(final(ctx), final(line)).wf(),
    {
        let ghost e0 = self.editor(ctx, line);
        let ghost mut a: Answers = arbitrary();
        let r = match NormalKey::of(event) {
            NormalKey::Escape => {
                self.normal_keys = String::new();
                Ok(Flow::Continue)
            },
            NormalKey::Char(c) => {
                self.normal_keys.push(c);
                let command = crate::vi::parse(self.normal_keys.as_str());
                let ghost typed = self.editor(ctx, line);
                let r = self.follow_keys(ctx, line, command);
                proof {
                    let steps = choose|steps: Seq<StepAnswer>|
                        typed.runs_spelled(command, steps) && #[trigger] typed.spelled_out(
                            command,
                            steps,
                        ) == (self.editor(ctx, line), r);
                    a = Answers { steps, ..a };
                }
                r
            },
            NormalKey::Ignored => Ok(Flow::Continue),
        };
        assert(e0.runs_normal(*event, a));
        assert(e0.normal_keys(*event, a) == (self.editor(ctx, line), r));
        r
    }

    /// The external editor is back with `contents`, or there was none to call
    /// (`None`). Without an editor the command is dropped. Else the contents,
    /// less one trailing line feed, become the buffer's text, and the
    /// repetitions of the command that are still due run.
    #[verifier::rlimit(50)]
    pub fn resume_editor(
        &mut self,
        ctx: &mut Context,
        line: &mut LineState,
        contents: Option<String>,
    ) -> (r: Result<Flow, BufferError>)
        requires
            old(self).editor(old(ctx), old(line)).wf(),
        ensures
            exists|a: Answers|
                old(self).editor(old(ctx), old(line)).runs_resumed(text_of(contents), a)
                    && #[trigger] old(self).editor(old(ctx), old(line)).resumed(
                    text_of(contents),
                    a,
                ) == (final(self).editor(final(ctx), final(line)), r),
            final(self).editor(final(ctx), final(line)).wf(),
    {
        let ghost e0 = self.editor(ctx, line);
        let ghost given = text_of(contents);
        let ghost mut a: Answers = arbitrary();
        let due = match self.suspended {
            Some(n) => n,
            None => 0,
        };
        self.suspended = None;
        let r = match contents {
            None => Ok(Flow::Continue),
            Some(text) => {
                let stripped = crate::text::strip_newline(text.as_str());
                match line.overwrite(stripped.as_str()) {
                    Err(err) => Err(err),
                    Ok(()) => {
                        let ghost awake = self.editor(ctx, line);
                        let editor = Action::Editor;
                        let r = self.run_vi(ctx, line, &editor, due);
                        proof {
                            let steps = choose|steps: Seq<StepAnswer>|
                                awake.runs(Action::Editor, due as nat, steps)
                                    && #[trigger] awake.repeated(
                                    Action::Editor,
                                    due as nat,
                                    steps,
                                ) == (self.editor(ctx, line), r);
                            a = Answers { steps, ..a };
                        }
                        r
                    },
                }
            },
        };
        assert(e0.resumed(given, a) == (self.editor(ctx, line), r));
        r
    }

    /// A key of the menu. Enter accepts the selected candidate and closes the
    /// menu; Escape closes it; Shift-Tab and Up select the previous entry,
    /// Tab and Down the next, as the menu sees fit; any other key closes the
    /// menu.
    #[verifier::rlimit(50)]
    pub fn press_menu_key(&mut self, ctx: &Context, line: &mut LineState, key: MenuKey) -> (r:
        Result<Flow, BufferError>)
        ensures
            (final(self).editor(ctx, final(line)), r) == old(self).editor(
                ctx,
                old(line),
            ).menu_pressed(key, final(self).menu_selected()),
            old(self).menu_entries().len() > 0 && (key == MenuKey::Next || key
                == MenuKey::Previous) ==> final(self).menu_selected() < old(self).menu_entries().len(),
            final(line)@.history_ind == old(line)@.history_ind,
    {
        match key {
            MenuKey::Accept => {
                match self.menu.accept() {
                    Some(completion) => flow(self.accept_completion(line, completion)),
                    None => Ok(Flow::Continue),
                }
            },
            MenuKey::Close | MenuKey::Other => {
                self.menu.disactivate();
                Ok(Flow::Continue)
            },
            MenuKey::Previous => {
                self.menu.previous();
                Ok(Flow::Continue)
            },
            MenuKey::Next => {
                self.menu.next();
                Ok(Flow::Continue)
            },
        }
    }

    /// An event while the menu is active. A key of the menu does its work.
    /// Any other event closes the menu and is then handled by the mode that
    /// the editor is in, so that no key is lost.
    #[verifier::rlimit(50)]
    pub fn handle_menu_keys(
        &mut self,
        ctx: &mut Context,
        line: &mut LineState,
        event: &Event,
    ) -> (r: Result<Flow, BufferError>)
        requires
            old(self).editor(old(ctx), old(line)).wf(),
        ensures
            exists|a: Answers|
                old(self).editor(old(ctx), old(line)).runs_menu(*event, a) && #[trigger] old(self).editor(old(ctx), old(line)).menu_keys(*event, a) == (
                    final(self).editor(final(ctx), final(line)),
                    r,
                ),
            final(self).editor(final(ctx), final(line)).wf(),
    {
        let ghost e0 = self.editor(ctx, line);
        let ghost a0: Answers = arbitrary();
        let key = MenuKey::of(event);
        let pressed = self.press_menu_key(ctx, line, key);
        let ghost mut a = Answers {
            selected: if key == MenuKey::Next || key == MenuKey::Previous {
                self.menu.selected()
            } else {
                0
            },
            ..a0
        };
        let ghost closed = self.editor(ctx, line);
        assert(e0.menu_pressed(key, a.selected) == (closed, pressed));
        let r = match key {
            MenuKey::Other => {
                match line.mode {
                    LineMode::Insert => {
                        let r = self.handle_insert_keys(ctx, line, event);
                        proof {
                            let b = choose|b: Answers| #[trigger]
                                closed.insert_keys(*event, b) == (self.editor(ctx, line), r);
                            a = Answers { selected: 0, ..b };
                        }
                        r
                    },
                    LineMode::Normal => {
                        let r = self.handle_normal_keys(ctx, line, event);
                        proof {
                            let b = choose|b: Answers|
                                closed.runs_normal(*event, b) && #[trigger] closed.normal_keys(
                                    *event,
                                    b,
                                ) == (self.editor(ctx, line), r);
                            a = Answers { selected: 0, ..b };
                        }
                        r
                    },
                }
            },
            _ => pressed,
        };
        assert(e0.runs_menu(*event, a));
        assert(e0.menu_keys(*event, a) == (self.editor(ctx, line), r));
        r
    }

    /// An event as the keys common to all modes take it, with what the
    /// collaborators have to say to it: the suggester's proposal for Right,
    /// and for Enter and Control-J whether the interpreter wants another
    /// line. A resize is passed on to the display; pasted text goes in at the
    /// cursor; Control-C clears the whole command and ends the session; Right
    /// puts the proposal in place of the text, if there is one; Enter and
    /// Control-J go to the menu while that is active, else start another line
    /// or end the session; Control-D ends the process on an empty buffer and
    /// the session on any other.
    #[verifier::rlimit(50)]
    pub fn press_standard_key(
        &mut self,
        ctx: &mut Context,
        line: &mut LineState,
        event: &Event,
        suggestion: Option<String>,
        more: bool,
    ) -> (r: Result<Standard, BufferError>)
        ensures
            (final(self).editor(final(ctx), final(line)), r) == old(self).editor(
                old(ctx),
                old(line),
            ).standard_pressed(*event, text_of(suggestion), more),
            final(line)@.history_ind == old(line)@.history_ind,
            final(ctx).history.entries() == old(ctx).history.entries(),
    {
        let ghost e0 = self.editor(ctx, line);
        match StandardKey::of(event) {
            StandardKey::Resize(w, h) => {
                ctx.effects.push(Effect::Resize(w, h));
                Ok(Standard::Pass)
            },
            StandardKey::Paste => {
                match event {
                    Event::Paste(text) => pass(line.insert(Location::cursor(), text.as_str())),
                    _ => Ok(Standard::Pass),
                }
            },
            StandardKey::Interrupt => {
                line.clear();
                match &mut self.buffer_history {
                    Some(log) => log.clear(),
                    None => {},
                }
                line.lines = String::new();
                ctx.effects.push(Effect::Newline);
                Ok(Standard::Break)
            },
            StandardKey::Suggest => {
                if self.suggester.is_none() {
                    Ok(Standard::Pass)
                } else {
                    match suggestion {
                        Some(text) => pass(line.overwrite(text.as_str())),
                        None => Ok(Standard::Pass),
                    }
                }
            },
            StandardKey::Submit => {
                if self.menu.is_active() {
                    Ok(Standard::Pass)
                } else {
                    match &mut self.buffer_history {
                        Some(log) => log.clear(),
                        None => {},
                    }
                    ctx.effects.push(Effect::Newline);
                    if more {
                        let text = raw_text(&line.cb);
                        line.lines.append(text.as_str());
                        line.lines.push('\n');
                        line.clear();
                        assert(line@.lines =~= e0.line.lines + e0.line.text + seq!['\n']);
                        Ok(Standard::Absorbed)
                    } else {
                        Ok(Standard::Break)
                    }
                }
            },
            StandardKey::EndOfInput => {
                if raw_len(&line.cb) == 0 {
                    Ok(Standard::Exit)
                } else {
                    match &mut self.buffer_history {
                        Some(log) => log.clear(),
                        None => {},
                    }
                    ctx.effects.push(Effect::Newline);
                    Ok(Standard::Break)
                }
            },
            StandardKey::Other => Ok(Standard::Pass),
        }
    }

    /// Keys that are universal regardless of mode. For Right the suggester is
    /// asked for its proposal, and for Enter and Control-J, unless the menu
    /// is active, the interpreter is asked whether the command typed so far
    /// wants another line; then the event does its work.
    #[verifier::rlimit(50)]
    pub fn handle_standard_keys(
        &mut self,
        sh: &Shell,
        ctx: &mut Context,
        line: &mut LineState,
        event: &Event,
    ) -> (r: Result<Standard, BufferError>)
        ensures
            exists|a: Answers| #[trigger]
                old(self).editor(old(ctx), old(line)).standard_keys(*event, a) == (
                    final(self).editor(final(ctx), final(line)),
                    r,
                ),
            old(self).editor(old(ctx), old(line)).wf() ==> final(self).editor(
                final(ctx),
                final(line),
            ).wf(),
    {
        let ghost e0 = self.editor(ctx, line);
        let ghost a0: Answers = arbitrary();
        let key = StandardKey::of(event);
        let suggestion = match key {
            StandardKey::Suggest => match &self.suggester {
                Some(suggester) => suggester.suggest(line, ctx),
                None => None,
            },
            _ => None,
        };
        let more = match key {
            StandardKey::Submit => if self.menu.is_active() {
                false
            } else {
                let command = line.get_full_command();
                sh.lang.needs_line_check(command.as_str())
            },
            _ => false,
        };
        let ghost a = Answers { suggestion: text_of(suggestion), more, ..a0 };
        let r = self.press_standard_key(ctx, line, event, suggestion, more);
        assert(e0.standard_keys(*event, a) == (self.editor(ctx, line), r));
        r
    }

    /// One event of the session, in the order of precedence: the user's key
    /// bindings first, which end the session if they take the key; then the
    /// keys common to all modes; then the menu if it is active, else the keys
    /// of the mode that the editor is in.
    #[verifier::rlimit(50)]
    pub fn handle_event(
        &mut self,
        sh: &Shell,
        ctx: &mut Context,
        line: &mut LineState,
        event: &Event,
    ) -> (r: Result<Flow, BufferError>)
        requires
            old(self).editor(old(ctx), old(line)).wf(),
        ensures
            exists|a: Answers|
                old(self).editor(old(ctx), old(line)).runs_event(*event, a) && #[trigger] old(self).editor(old(ctx), old(line)).handled(*event, a) == (
                    final(self).editor(final(ctx), final(line)),
                    r,
                ),
            final(self).editor(final(ctx), final(line)).wf(),
    {
        let ghost e0 = self.editor(ctx, line);
        let ghost a0: Answers = arbitrary();
        match event.as_key() {
            Some(key) => {
                if sh.keybinding.handle_key_event(line, key) {
                    let ghost a = Answers { handled: true, ..a0 };
                    assert(e0.handled(*event, a) == (
                        self.editor(ctx, line),
                        Ok::<Flow, BufferError>(Flow::Finish),
                    ));
                    return Ok(Flow::Finish);
                }
            },
            None => {},
        }
        let standard = self.handle_standard_keys(sh, ctx, line, event);
        let ghost e1 = self.editor(ctx, line);
        let ghost b = choose|b: Answers| #[trigger]
            e0.standard_keys(*event, b) == (e1, standard);
        let ghost mut a = Answers { handled: false, selected: 0, ..b };
        let r = match standard {
            Err(err) => Err(err),
            Ok(Standard::Break) => Ok(Flow::Finish),
            Ok(Standard::Exit) => Ok(Flow::Exit),
            Ok(Standard::Absorbed) => Ok(Flow::Continue),
            Ok(Standard::Pass) => {
                if self.menu.is_active() {
                    let r = self.handle_menu_keys(ctx, line, event);
                    proof {
                        let c = choose|c: Answers|
                            e1.runs_menu(*event, c) && #[trigger] e1.menu_keys(*event, c) == (
                                self.editor(ctx, line),
                                r,
                            );
                        a = Answers { handled: false, suggestion: b.suggestion, more: b.more, ..c };
                    }
                    r
                } else {
                    match line.mode {
                        LineMode::Insert => {
                            let r = self.handle_insert_keys(ctx, line, event);
                            proof {
                                let c = choose|c: Answers| #[trigger]
                                    e1.insert_keys(*event, c) == (self.editor(ctx, line), r);
                                a = Answers {
                                    handled: false,
                                    suggestion: b.suggestion,
                                    more: b.more,
                                    ..c
                                };
                            }
                            r
                        },
                        LineMode::Normal => {
                            let r = self.handle_normal_keys(ctx, line, event);
                            proof {
                                let c = choose|c: Answers|
                                    e1.runs_normal(*event, c) && #[trigger] e1.normal_keys(
                                        *event,
                                        c,
                                    ) == (self.editor(ctx, line), r);
                                a = Answers {
                                    handled: false,
                                    suggestion: b.suggestion,
                                    more: b.more,
                                    ..c
                                };
                            }
                            r
                        },
                    }
                }
            },
        };
        assert(e0.standard_keys(*event, a) == (e1, standard));
        assert(e0.runs_event(*event, a));
        assert(e0.handled(*event, a) == (self.editor(ctx, line), r));
        r
    }

    /// Starts a session: text queued for it, if there is any, goes into the
    /// buffer, and where the text asks for it the session finishes at once.
    pub fn begin(&mut self, ctx: &mut Context, line: &mut LineState) -> (r: Result<
        Flow,
        BufferError,
    >)
        ensures
            (final(self).editor(final(ctx), final(line)), r) == old(self).editor(
                old(ctx),
                old(line),
            ).begun(),
    {
        match ctx.prompt_content_queue.pop() {
            None => Ok(Flow::Continue),
            Some(queued) => {
                match line.insert(Location::cursor(), queued.content.as_str()) {
                    Err(err) => Err(err),
                    Ok(()) => if queued.auto_run {
                        match &mut self.buffer_history {
                            Some(log) => log.clear(),
                            None => {},
                        }
                        ctx.effects.push(Effect::Newline);
                        Ok(Flow::Finish)
                    } else {
                        Ok(Flow::Continue)
                    },
                }
            },
        }
    }

    /// Ends a session: the whole command is handed out, and joins the history
    /// as its most recent entry unless it is empty.
    pub fn finish(&self, ctx: &mut Context, line: &LineState) -> (res: String)
        ensures
            res@ == line@.full_command(),
            self.editor(final(ctx), line) == (EditorView {
                history: if res@.len() == 0 {
                    old(ctx).history.entries()
                } else {
                    seq![res@] + old(ctx).history.entries()
                },
                ..self.editor(old(ctx), line)
            }),
    {
        let res = line.get_full_command();
        if !res.as_str().is_empty() {
            ctx.history.add(res.clone());
        }
        res
    }

    /// What the display shows after the text, set apart from it, given what
    /// the suggester proposes: while the menu is active, what the selected
    /// candidate would add to the word under completion; else what the
    /// proposal would add to the command.
    pub fn overlay_for(&self, ctx: &Context, line: &LineState, suggestion: Option<String>) -> (r:
        Option<Overlay>)
        ensures
            shown_of(r) == self.editor(ctx, line).overlaid(text_of(suggestion)),
    {
        if self.menu.is_active() {
            match self.menu.current_selection() {
                Some(selection) => {
                    let full = selection.accept();
                    Some(
                        Overlay {
                            from_menu: true,
                            text: crate::text::rest_after(full.as_str(), line.current_word.as_str()),
                        },
                    )
                },
                None => None,
            }
        } else if self.suggester.is_none() {
            None
        } else {
            match suggestion {
                Some(text) => {
                    let command = line.get_full_command();
                    Some(
                        Overlay {
                            from_menu: false,
                            text: crate::text::rest_after(text.as_str(), command.as_str()),
                        },
                    )
                },
                None => None,
            }
        }
    }

    /// What the display shows after the text, set apart from it. Unless the
    /// menu is active, the suggester is asked for its proposal.
    pub fn overlay(&self, ctx: &Context, line: &LineState) -> (r: Option<Overlay>)
        ensures
            exists|suggestion: Option<Seq<char>>| #[trigger]
                self.editor(ctx, line).overlaid(suggestion) == shown_of(r),
    {
        let suggestion = if self.menu.is_active() {
            None
        } else {
            match &self.suggester {
                Some(suggester) => suggester.suggest(line, ctx),
                None => None,
            }
        };
        let ghost proposal = text_of(suggestion);
        let r = self.overlay_for(ctx, line, suggestion);
        assert(self.editor(ctx, line).overlaid(proposal) == shown_of(r));
        r
    }
}

/// An overlay as plain values: whether it comes from the menu, and its text.
pub open spec fn shown_of(overlay: Option<Overlay>) -> Option<(bool, Seq<char>)> {
    match overlay {
        Some(o) => Some((o.from_menu, o.text@)),
        None => None,
    }
}

/// Text that the display shows after the line, set apart from it.
pub struct Overlay {
    /// Whether the text comes from the menu's selection; else it comes from
    /// the suggester.
    pub from_menu: bool,
    pub text: String,
}

/// The outcome of a step on the line, as the outcome of the keys common to
/// all modes.
fn pass(r: Result<(), BufferError>) -> (f: Result<Standard, BufferError>)
    ensures
        f == match r {
            Ok(_) => Ok::<Standard, BufferError>(Standard::Pass),
            Err(e) => Err::<Standard, BufferError>(e),
        },
{
    match r {
        Ok(()) => Ok(Standard::Pass),
        Err(e) => Err(e),
    }
}

/// Running a command leaves the keys typed in normal mode as they are.
proof fn lemma_repeated_keeps_keys(
    e: EditorView,
    action: Action,
    repeat: nat,
    steps: Seq<StepAnswer>,
)
    ensures
        e.repeated(action, repeat, steps).0.keys == e.keys,
    decreases steps.len(),
{
    if steps.len() > 0 {
        lemma_repeated_keeps_keys(e, action, repeat, steps.drop_last());
    }
}

/// The outcome of a step on the line, as the outcome of handling an event.
fn flow(r: Result<(), BufferError>) -> (f: Result<Flow, BufferError>)
    ensures
        f == match r {
            Ok(_) => Ok::<Flow, BufferError>(Flow::Continue),
            Err(e) => Err::<Flow, BufferError>(e),
        },
{
    match r {
        Ok(()) => Ok(Flow::Continue),
        Err(e) => Err(e),
    }
}

} // verus!
