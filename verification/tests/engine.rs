use shrs_core::buffer::{BufferError, Location};
use shrs_core::completion::{Completer, Completion, CompletionCtx};
use shrs_core::engine::DefaultEngine;
use shrs_core::event::{Event, KeyCode, KeyEvent, NONE};
use shrs_core::history::DefaultHistory;
use shrs_core::line::Line;
use shrs_core::model::Flow;
use shrs_core::shell::{Context, Keybinding, Lang, Shell};
use shrs_core::state::{LineMode, LineState};
use shrs_core::vi::{self, ViCursorBuffer};
use shrs_utils::CursorBuffer;
use shrs_vi::{Action, Motion};

fn buffer(text: &str, cursor: usize) -> CursorBuffer {
    let mut cb = CursorBuffer::from_text(text);
    cb.move_cursor(shrs_utils::Location::Abs(cursor)).unwrap();
    cb
}

fn run(engine: &mut DefaultEngine, cb: &mut CursorBuffer, keys: &str) -> Result<LineMode, BufferError> {
    let cmd = vi::parse(keys).unwrap();
    engine.execute_vi(cb, cmd.action)
}

#[test]
fn engine_simple_motions() {
    let engine = DefaultEngine::new();
    let cb = buffer("hello", 2);
    assert_eq!(engine.motion_to_loc(&cb, Motion::Left), Ok(Location::Rel(-1)));
    assert_eq!(engine.motion_to_loc(&cb, Motion::Right), Ok(Location::Rel(1)));
    assert_eq!(engine.motion_to_loc(&cb, Motion::Start), Ok(Location::Abs(0)));
    assert_eq!(engine.motion_to_loc(&cb, Motion::End), Ok(Location::Abs(5)));
    assert_eq!(engine.motion_to_loc(&cb, Motion::All), Ok(Location::Abs(5)));
    assert_eq!(engine.motion_to_loc(&cb, Motion::Up), Ok(Location::Rel(0)));
    assert_eq!(engine.motion_to_loc(&cb, Motion::Down), Ok(Location::Rel(0)));
    assert_eq!(engine.motion_to_loc(&cb, Motion::None), Ok(Location::Rel(0)));
}

#[test]
fn engine_word_motions() {
    let engine = DefaultEngine::new();
    let text = "ab  cd e";
    assert_eq!(engine.target(&buffer(text, 0), Motion::Word), Location::Abs(4));
    assert_eq!(engine.target(&buffer(text, 1), Motion::WordPunc), Location::Abs(4));
    assert_eq!(engine.target(&buffer(text, 2), Motion::Word), Location::Abs(4));
    assert_eq!(engine.target(&buffer(text, 4), Motion::Word), Location::Abs(7));
    assert_eq!(engine.target(&buffer(text, 7), Motion::Word), Location::Abs(8));
    assert_eq!(engine.target(&buffer(text, 8), Motion::Word), Location::Abs(8));
    assert_eq!(engine.target(&buffer(text, 8), Motion::BackWord), Location::Abs(7));
    assert_eq!(engine.target(&buffer(text, 7), Motion::BackWord), Location::Abs(4));
    assert_eq!(engine.target(&buffer(text, 5), Motion::BackWord), Location::Abs(4));
    assert_eq!(engine.target(&buffer(text, 4), Motion::BackWord), Location::Abs(0));
    assert_eq!(engine.target(&buffer(text, 3), Motion::BackWord), Location::Abs(0));
    assert_eq!(engine.target(&buffer(text, 0), Motion::BackWord), Location::Abs(0));
    assert_eq!(engine.target(&buffer("", 0), Motion::Word), Location::Abs(0));
}

#[test]
fn engine_find_motion() {
    let engine = DefaultEngine::new();
    assert_eq!(engine.target(&buffer("hello", 0), Motion::Find('l')), Location::Abs(2));
    assert_eq!(engine.target(&buffer("hello", 2), Motion::Find('l')), Location::Abs(3));
    assert_eq!(engine.target(&buffer("hello", 3), Motion::Find('l')), Location::Rel(0));
    assert_eq!(engine.target(&buffer("hello", 0), Motion::Find('h')), Location::Rel(0));
    assert_eq!(engine.target(&buffer("hello", 0), Motion::Find('z')), Location::Rel(0));
    assert_eq!(engine.target(&buffer("hello", 5), Motion::Find('o')), Location::Rel(0));
}

#[test]
fn engine_insert_asks_for_insert_mode() {
    let mut engine = DefaultEngine::new();
    let mut cb = buffer("abc", 1);
    assert_eq!(run(&mut engine, &mut cb, "i"), Ok(LineMode::Insert));
    assert_eq!(cb.as_str(), "abc");
    assert_eq!(cb.cursor(), 1);
}

#[test]
fn engine_moves_the_cursor() {
    let mut engine = DefaultEngine::new();
    let mut cb = buffer("one two", 7);
    assert_eq!(run(&mut engine, &mut cb, "h"), Ok(LineMode::Normal));
    assert_eq!(cb.cursor(), 6);
    assert_eq!(run(&mut engine, &mut cb, "b"), Ok(LineMode::Normal));
    assert_eq!(cb.cursor(), 4);
    assert_eq!(run(&mut engine, &mut cb, "0"), Ok(LineMode::Normal));
    assert_eq!(cb.cursor(), 0);
    assert_eq!(run(&mut engine, &mut cb, "w"), Ok(LineMode::Normal));
    assert_eq!(cb.cursor(), 4);
    assert_eq!(run(&mut engine, &mut cb, "$"), Ok(LineMode::Normal));
    assert_eq!(cb.cursor(), 7);
    assert_eq!(run(&mut engine, &mut cb, "^"), Ok(LineMode::Normal));
    assert_eq!(run(&mut engine, &mut cb, "ft"), Ok(LineMode::Normal));
    assert_eq!(cb.cursor(), 4);
    assert_eq!(run(&mut engine, &mut cb, "l"), Ok(LineMode::Normal));
    assert_eq!(cb.cursor(), 5);
    assert_eq!(cb.as_str(), "one two");
}

#[test]
fn engine_refuses_moves_off_the_line() {
    let mut engine = DefaultEngine::new();
    let mut cb = buffer("ab", 0);
    assert_eq!(run(&mut engine, &mut cb, "h"), Err(BufferError::InvalidRelativeLocation(-1)));
    assert_eq!(cb.cursor(), 0);
    let mut cb = buffer("ab", 2);
    assert_eq!(run(&mut engine, &mut cb, "l"), Err(BufferError::InvalidRelativeLocation(1)));
    assert_eq!(run(&mut engine, &mut cb, "x"), Err(BufferError::InvalidRelativeLocation(1)));
    assert_eq!(cb.as_str(), "ab");
    assert_eq!(cb.cursor(), 2);
}

#[test]
fn engine_leaves_up_and_down_alone() {
    let mut engine = DefaultEngine::new();
    let mut cb = buffer("abc", 1);
    assert_eq!(run(&mut engine, &mut cb, "j"), Ok(LineMode::Normal));
    assert_eq!(run(&mut engine, &mut cb, "k"), Ok(LineMode::Normal));
    assert_eq!(run(&mut engine, &mut cb, "u"), Ok(LineMode::Normal));
    assert_eq!(run(&mut engine, &mut cb, "v"), Ok(LineMode::Normal));
    assert_eq!(run(&mut engine, &mut cb, "~"), Ok(LineMode::Normal));
    assert_eq!(cb.as_str(), "abc");
    assert_eq!(cb.cursor(), 1);
}

#[test]
fn engine_deletes() {
    let mut engine = DefaultEngine::new();
    let mut cb = buffer("one two three", 4);
    assert_eq!(run(&mut engine, &mut cb, "x"), Ok(LineMode::Normal));
    assert_eq!(cb.as_str(), "one wo three");
    assert_eq!(cb.cursor(), 4);
    assert_eq!(run(&mut engine, &mut cb, "dw"), Ok(LineMode::Normal));
    assert_eq!(cb.as_str(), "one three");
    assert_eq!(run(&mut engine, &mut cb, "db"), Ok(LineMode::Normal));
    assert_eq!(cb.as_str(), "three");
    assert_eq!(cb.cursor(), 0);
    assert_eq!(run(&mut engine, &mut cb, "l"), Ok(LineMode::Normal));
    assert_eq!(run(&mut engine, &mut cb, "D"), Ok(LineMode::Normal));
    assert_eq!(cb.as_str(), "t");
    assert_eq!(cb.cursor(), 1);
    let mut cb = buffer("one two", 5);
    assert_eq!(run(&mut engine, &mut cb, "d0"), Ok(LineMode::Normal));
    assert_eq!(cb.as_str(), "wo");
    assert_eq!(cb.cursor(), 0);
    let mut cb = buffer("one two", 3);
    assert_eq!(run(&mut engine, &mut cb, "dd"), Ok(LineMode::Normal));
    assert_eq!(cb.as_str(), "");
    assert_eq!(cb.cursor(), 0);
}

#[test]
fn engine_yanks_and_pastes() {
    let mut engine = DefaultEngine::new();
    let mut cb = buffer("one two", 0);
    assert_eq!(run(&mut engine, &mut cb, "p"), Ok(LineMode::Normal));
    assert_eq!(cb.as_str(), "one two");
    assert_eq!(run(&mut engine, &mut cb, "yw"), Ok(LineMode::Normal));
    assert_eq!(cb.as_str(), "one two");
    assert_eq!(cb.cursor(), 0);
    assert_eq!(run(&mut engine, &mut cb, "$"), Ok(LineMode::Normal));
    assert_eq!(run(&mut engine, &mut cb, "P"), Ok(LineMode::Normal));
    assert_eq!(cb.as_str(), "one twoone ");
    assert_eq!(cb.cursor(), 11);
    assert_eq!(run(&mut engine, &mut cb, "yb"), Ok(LineMode::Normal));
    assert_eq!(run(&mut engine, &mut cb, "0"), Ok(LineMode::Normal));
    assert_eq!(run(&mut engine, &mut cb, "p"), Ok(LineMode::Normal));
    assert_eq!(cb.as_str(), "twoone one twoone ");
    assert_eq!(cb.cursor(), 7);
}

#[test]
fn engine_chains_actions() {
    let mut engine = DefaultEngine::new();
    let mut cb = buffer("one two", 2);
    assert_eq!(run(&mut engine, &mut cb, "A"), Ok(LineMode::Insert));
    assert_eq!(cb.cursor(), 7);
    assert_eq!(run(&mut engine, &mut cb, "I"), Ok(LineMode::Insert));
    assert_eq!(cb.cursor(), 0);
    assert_eq!(run(&mut engine, &mut cb, "a"), Ok(LineMode::Insert));
    assert_eq!(cb.cursor(), 1);
    assert_eq!(run(&mut engine, &mut cb, "cw"), Ok(LineMode::Insert));
    assert_eq!(cb.as_str(), "otwo");
    assert_eq!(run(&mut engine, &mut cb, "cc"), Ok(LineMode::Insert));
    assert_eq!(cb.as_str(), "");
    assert_eq!(
        run(&mut engine, &mut cb, "a"),
        Err(BufferError::InvalidRelativeLocation(1))
    );
    assert_eq!(run(&mut engine, &mut cb, "s"), Err(BufferError::InvalidRelativeLocation(1)));
    assert_eq!(
        engine.execute(
            &mut cb,
            Action::Chain(
                Box::new(Action::Chain(Box::new(Action::Move(Motion::Left)), Box::new(Action::Insert))),
                Box::new(Action::Insert)
            )
        ),
        Err(BufferError::InvalidRelativeLocation(-1))
    );
}

struct NoKeys;

impl Keybinding for NoKeys {
    fn handle_key_event(&self, _line: &LineState, _key: KeyEvent) -> bool {
        false
    }
}

struct Whole;

impl Lang for Whole {
    fn needs_line_check(&self, _command: &str) -> bool {
        false
    }
}

struct Nothing;

impl Completer for Nothing {
    fn complete(&self, _ctx: &CompletionCtx) -> Vec<Completion> {
        Vec::new()
    }
}

#[test]
fn editor_with_the_default_engine() {
    let mut line = Line::default();
    let sh = Shell { keybinding: Box::new(NoKeys), lang: Box::new(Whole) };
    let mut ctx = Context {
        history: Box::new(DefaultHistory::new()),
        completer: Box::new(Nothing),
        vi: Box::new(DefaultEngine::new()),
        cursor_style: None,
        prompt_content_queue: Vec::new(),
        effects: Vec::new(),
    };
    let mut state = LineState::new();
    let mut send = |line: &mut Line, ctx: &mut Context, state: &mut LineState, code: KeyCode| {
        let event = Event::Key(KeyEvent::new(code, NONE));
        assert_eq!(line.handle_event(&sh, ctx, state, &event), Ok(Flow::Continue));
    };
    for c in "git  commit now".chars() {
        send(&mut line, &mut ctx, &mut state, KeyCode::Char(c));
    }
    let control_w = Event::Key(KeyEvent::new(KeyCode::Char('w'), shrs_core::event::CONTROL));
    assert_eq!(line.handle_event(&sh, &mut ctx, &mut state, &control_w), Ok(Flow::Continue));
    assert_eq!(state.text(), "git  commit ");
    assert_eq!(line.handle_event(&sh, &mut ctx, &mut state, &control_w), Ok(Flow::Continue));
    assert_eq!(state.text(), "git  ");
    assert_eq!(state.cursor(), 5);
    send(&mut line, &mut ctx, &mut state, KeyCode::Esc);
    assert_eq!(state.mode(), LineMode::Normal);
    for c in "3h".chars() {
        send(&mut line, &mut ctx, &mut state, KeyCode::Char(c));
    }
    assert_eq!(state.cursor(), 2);
    for c in "9h".chars() {
        send(&mut line, &mut ctx, &mut state, KeyCode::Char(c));
    }
    assert_eq!(state.cursor(), 0);
    for c in "2x".chars() {
        send(&mut line, &mut ctx, &mut state, KeyCode::Char(c));
    }
    assert_eq!(state.text(), "t  ");
    send(&mut line, &mut ctx, &mut state, KeyCode::Char('A'));
    assert_eq!(state.mode(), LineMode::Insert);
    send(&mut line, &mut ctx, &mut state, KeyCode::Char('!'));
    assert_eq!(state.text(), "t  !");
    assert_eq!(state.completed_lines(), "");
}
