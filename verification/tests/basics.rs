use shrs_core::buffer::{self, BufferError, Location};
use shrs_core::builtin::{CdBuiltin, CdError};
use shrs_core::completion::{Completion, ReplaceMethod};
use shrs_core::event::{Event, KeyCode, KeyEvent, CONTROL, NONE, SHIFT};
use shrs_core::history::{DefaultHistory, History, HistoryInd};
use shrs_core::menu::{DefaultMenu, Menu};
use shrs_core::model::{InsertKey, MenuKey, NormalKey, StandardKey};
use shrs_core::snippet::{ExpandSnippet, Position, SnippetInfo, Snippets};
use shrs_core::text;
use shrs_core::vi;
use shrs_utils::CursorBuffer;
use shrs_vi::{Action, Motion};

fn key(code: KeyCode, bits: u8) -> Event {
    Event::Key(KeyEvent::new(code, bits))
}

fn candidate(text: &str, method: ReplaceMethod) -> Completion {
    Completion { add_space: false, display: None, completion: text.to_string(), replace_method: method }
}

#[test]
fn up_from_prompt_enters_most_recent() {
    assert_eq!(HistoryInd::Prompt.up(3), HistoryInd::Line(0));
}

#[test]
fn up_from_prompt_with_empty_history_stays() {
    assert_eq!(HistoryInd::Prompt.up(0), HistoryInd::Prompt);
}

#[test]
fn up_advances_to_older_entry() {
    assert_eq!(HistoryInd::Line(0).up(3), HistoryInd::Line(1));
    assert_eq!(HistoryInd::Line(1).up(3), HistoryInd::Line(2));
}

#[test]
fn up_is_clamped_at_oldest_entry() {
    let mut ind = HistoryInd::Prompt;
    for _ in 0..10 {
        ind = ind.up(4);
        match ind {
            HistoryInd::Line(i) => assert!(i <= 3),
            HistoryInd::Prompt => panic!("left the history"),
        }
    }
    assert_eq!(ind, HistoryInd::Line(3));
    assert_eq!(ind.up(4), HistoryInd::Line(3));
}

#[test]
fn up_in_history_of_one_entry() {
    assert_eq!(HistoryInd::Line(0).up(1), HistoryInd::Line(0));
}

#[test]
fn down_from_prompt_is_idle() {
    assert_eq!(HistoryInd::Prompt.down(), HistoryInd::Prompt);
    assert_eq!(HistoryInd::Prompt.down().down(), HistoryInd::Prompt);
}

#[test]
fn down_from_most_recent_returns_to_prompt() {
    assert_eq!(HistoryInd::Line(0).down(), HistoryInd::Prompt);
}

#[test]
fn down_moves_to_more_recent_entry() {
    assert_eq!(HistoryInd::Line(5).down(), HistoryInd::Line(4));
}

#[test]
fn ups_then_as_many_downs_reach_prompt() {
    let mut ind = HistoryInd::Prompt;
    for _ in 0..7 {
        ind = ind.up(3);
    }
    for _ in 0..7 {
        ind = ind.down();
    }
    assert_eq!(ind, HistoryInd::Prompt);
}

#[test]
fn default_history_keeps_most_recent_first() {
    let mut h = DefaultHistory::new();
    assert_eq!(h.len(), 0);
    assert!(h.get(0).is_none());
    h.add("first".to_string());
    h.add("second".to_string());
    assert_eq!(h.len(), 2);
    assert_eq!(h.get(0).unwrap(), "second");
    assert_eq!(h.get(1).unwrap(), "first");
    assert!(h.get(2).is_none());
}

#[test]
fn buffer_insert_at_cursor_advances_cursor() {
    let mut cb = CursorBuffer::default();
    assert_eq!(buffer::insert(&mut cb, Location::cursor(), "hello"), Ok(()));
    assert_eq!(cb.as_str(), "hello");
    assert_eq!(cb.cursor(), 5);
    assert_eq!(buffer::insert(&mut cb, Location::Abs(0), ">> "), Ok(()));
    assert_eq!(cb.as_str(), ">> hello");
    assert_eq!(cb.cursor(), 3);
}

#[test]
fn buffer_insert_counts_characters_not_bytes() {
    let mut cb = CursorBuffer::default();
    assert_eq!(buffer::insert(&mut cb, Location::cursor(), "こんにちは"), Ok(()));
    assert_eq!(cb.cursor(), 5);
    assert_eq!(buffer::move_cursor(&mut cb, Location::Abs(1)), Ok(()));
    assert_eq!(buffer::insert(&mut cb, Location::cursor(), "ここ"), Ok(()));
    assert_eq!(cb.as_str(), "こここんにちは");
    assert_eq!(cb.cursor(), 3);
}

#[test]
fn buffer_insert_at_invalid_location_changes_nothing() {
    let mut cb = CursorBuffer::default();
    buffer::insert(&mut cb, Location::cursor(), "abc").unwrap();
    assert_eq!(
        buffer::insert(&mut cb, Location::Abs(4), "x"),
        Err(BufferError::InvalidAbsoluteLocation(4))
    );
    assert_eq!(
        buffer::insert(&mut cb, Location::Rel(1), "x"),
        Err(BufferError::InvalidRelativeLocation(1))
    );
    assert_eq!(cb.as_str(), "abc");
    assert_eq!(cb.cursor(), 3);
}

#[test]
fn buffer_move_cursor_relative_and_absolute() {
    let mut cb = CursorBuffer::default();
    buffer::insert(&mut cb, Location::cursor(), "abcdef").unwrap();
    assert_eq!(buffer::move_cursor(&mut cb, Location::Rel(-2)), Ok(()));
    assert_eq!(cb.cursor(), 4);
    assert_eq!(buffer::move_cursor(&mut cb, Location::before()), Ok(()));
    assert_eq!(cb.cursor(), 3);
    assert_eq!(buffer::move_cursor(&mut cb, Location::after()), Ok(()));
    assert_eq!(cb.cursor(), 4);
    assert_eq!(buffer::move_cursor(&mut cb, Location::front()), Ok(()));
    assert_eq!(cb.cursor(), 0);
    assert_eq!(buffer::move_cursor(&mut cb, Location::Abs(6)), Ok(()));
    assert_eq!(cb.cursor(), 6);
    assert_eq!(cb.as_str(), "abcdef");
}

#[test]
fn buffer_move_cursor_out_of_bounds_is_refused() {
    let mut cb = CursorBuffer::default();
    buffer::insert(&mut cb, Location::cursor(), "abc").unwrap();
    assert_eq!(
        buffer::move_cursor(&mut cb, Location::Rel(1)),
        Err(BufferError::InvalidRelativeLocation(1))
    );
    assert_eq!(
        buffer::move_cursor(&mut cb, Location::Rel(-4)),
        Err(BufferError::InvalidRelativeLocation(-4))
    );
    assert_eq!(
        buffer::move_cursor(&mut cb, Location::Abs(7)),
        Err(BufferError::InvalidAbsoluteLocation(7))
    );
    assert_eq!(
        buffer::move_cursor(&mut cb, Location::Rel(isize::MAX)),
        Err(BufferError::InvalidRelativeLocation(isize::MAX))
    );
    assert_eq!(cb.cursor(), 3);
}

#[test]
fn buffer_delete_takes_out_range_in_either_order() {
    let mut cb = CursorBuffer::default();
    buffer::insert(&mut cb, Location::cursor(), "hello world").unwrap();
    assert_eq!(buffer::delete(&mut cb, Location::front(), Location::Abs(6)), Ok(()));
    assert_eq!(cb.as_str(), "world");
    assert_eq!(cb.cursor(), 0);
    assert_eq!(buffer::delete(&mut cb, Location::Abs(5), Location::Abs(2)), Ok(()));
    assert_eq!(cb.as_str(), "wo");
    assert_eq!(cb.cursor(), 2);
}

#[test]
fn buffer_delete_reports_first_invalid_location() {
    let mut cb = CursorBuffer::default();
    buffer::insert(&mut cb, Location::cursor(), "abc").unwrap();
    assert_eq!(
        buffer::delete(&mut cb, Location::Abs(9), Location::Rel(5)),
        Err(BufferError::InvalidAbsoluteLocation(9))
    );
    assert_eq!(
        buffer::delete(&mut cb, Location::cursor(), Location::Rel(5)),
        Err(BufferError::InvalidRelativeLocation(5))
    );
    assert_eq!(
        buffer::delete(&mut cb, Location::Abs(9), Location::Rel(isize::MAX)),
        Err(BufferError::InvalidAbsoluteLocation(9))
    );
    assert_eq!(
        buffer::delete(&mut cb, Location::cursor(), Location::Rel(isize::MAX)),
        Err(BufferError::InvalidRelativeLocation(isize::MAX))
    );
    assert_eq!(cb.as_str(), "abc");
    assert_eq!(cb.cursor(), 3);
}

#[test]
fn buffer_locate_resolves_locations() {
    let mut cb = CursorBuffer::default();
    buffer::insert(&mut cb, Location::cursor(), "abcd").unwrap();
    buffer::move_cursor(&mut cb, Location::Abs(2)).unwrap();
    assert_eq!(buffer::locate(&cb, Location::cursor()), Ok(2));
    assert_eq!(buffer::locate(&cb, Location::Rel(2)), Ok(4));
    assert_eq!(buffer::locate(&cb, Location::Rel(-2)), Ok(0));
    assert_eq!(buffer::locate(&cb, Location::Abs(4)), Ok(4));
    assert_eq!(buffer::locate(&cb, Location::Rel(3)), Err(BufferError::InvalidRelativeLocation(3)));
    assert_eq!(buffer::locate(&cb, Location::Rel(-3)), Err(BufferError::InvalidRelativeLocation(-3)));
    assert_eq!(buffer::locate(&cb, Location::Abs(5)), Err(BufferError::InvalidAbsoluteLocation(5)));
}

#[test]
fn buffer_overwrite_replaces_text_and_puts_cursor_at_end() {
    let mut cb = CursorBuffer::default();
    buffer::insert(&mut cb, Location::cursor(), "old text").unwrap();
    buffer::move_cursor(&mut cb, Location::Abs(2)).unwrap();
    assert_eq!(buffer::overwrite(&mut cb, "new"), Ok(()));
    assert_eq!(cb.as_str(), "new");
    assert_eq!(cb.cursor(), 3);
    assert_eq!(buffer::overwrite(&mut cb, ""), Ok(()));
    assert_eq!(cb.as_str(), "");
    assert_eq!(cb.cursor(), 0);
}

#[test]
fn location_names() {
    assert_eq!(Location::cursor(), Location::Rel(0));
    assert_eq!(Location::before(), Location::Rel(-1));
    assert_eq!(Location::after(), Location::Rel(1));
    assert_eq!(Location::front(), Location::Abs(0));
    assert_eq!(Location::Rel(-3).to_error(), BufferError::InvalidRelativeLocation(-3));
    assert_eq!(Location::Abs(8).to_error(), BufferError::InvalidAbsoluteLocation(8));
}

#[test]
fn chars_and_strings() {
    let v = text::chars_of("añb");
    assert_eq!(v, vec!['a', 'ñ', 'b']);
    assert_eq!(text::string_of(&v, 1, 3), "ñb");
    assert_eq!(text::string_of(&v, 2, 2), "");
}

#[test]
fn split_words_keeps_empty_pieces() {
    let v = text::chars_of("git  add ");
    assert_eq!(text::split_words(&v, v.len()), vec!["git", "", "add", ""]);
    assert_eq!(text::split_words(&v, 2), vec!["gi"]);
    assert_eq!(text::split_words(&v, 4), vec!["git", ""]);
    assert_eq!(text::split_words(&v, 0), vec![""]);
}

#[test]
fn word_bounds_around_position() {
    let v = text::chars_of("ab cd  e");
    assert_eq!(text::find_word_start(&v, 0), 0);
    assert_eq!(text::find_word_start(&v, 2), 0);
    assert_eq!(text::find_word_end(&v, 2), 2);
    assert_eq!(text::find_word_start(&v, 3), 3);
    assert_eq!(text::find_word_end(&v, 3), 5);
    assert_eq!(text::find_word_start(&v, 5), 3);
    assert_eq!(text::find_word_start(&v, 6), 6);
    assert_eq!(text::find_word_end(&v, 6), 6);
    assert_eq!(text::find_word_start(&v, 8), 7);
    assert_eq!(text::find_word_end(&v, 7), 8);
}

#[test]
fn strip_newline_takes_exactly_one() {
    assert_eq!(text::strip_newline("ls -la\n"), "ls -la");
    assert_eq!(text::strip_newline("ls -la\n\n"), "ls -la\n");
    assert_eq!(text::strip_newline("ls -la"), "ls -la");
    assert_eq!(text::strip_newline("\n"), "");
    assert_eq!(text::strip_newline(""), "");
}

#[test]
fn rest_after_skips_typed_characters() {
    assert_eq!(text::rest_after("git status", "gi"), "t status");
    assert_eq!(text::rest_after("añb", "añ"), "b");
    assert_eq!(text::rest_after("ab", "ab"), "");
    assert_eq!(text::rest_after("ab", "abc"), "");
    assert_eq!(text::rest_after("ab", ""), "ab");
}

#[test]
fn completion_accept_and_display() {
    let plain = candidate("status", ReplaceMethod::Append);
    assert_eq!(plain.accept(), "status");
    assert_eq!(plain.display(), "status");
    let spaced = Completion {
        add_space: true,
        display: Some("status (git)".to_string()),
        completion: "status".to_string(),
        replace_method: ReplaceMethod::Replace,
    };
    assert_eq!(spaced.accept(), "status ");
    assert_eq!(spaced.display(), "status (git)");
    let copy = spaced.clone();
    assert_eq!(copy.accept(), "status ");
    assert_eq!(copy.display(), "status (git)");
    assert_eq!(copy.replace_method, ReplaceMethod::Replace);
    assert!(copy.add_space);
}

#[test]
fn default_menu_selection_wraps_around() {
    let mut menu = DefaultMenu::new();
    assert!(!menu.is_active());
    assert!(menu.current_selection().is_none());
    menu.next();
    menu.previous();
    assert!(menu.current_selection().is_none());
    menu.set_items(vec![
        ("a".to_string(), candidate("a", ReplaceMethod::Append)),
        ("b".to_string(), candidate("b", ReplaceMethod::Append)),
        ("c".to_string(), candidate("c", ReplaceMethod::Append)),
    ]);
    assert_eq!(menu.items().len(), 3);
    assert_eq!(menu.items()[1].0, "b");
    assert_eq!(menu.current_selection().unwrap().completion, "a");
    menu.next();
    assert_eq!(menu.current_selection().unwrap().completion, "b");
    menu.next();
    assert_eq!(menu.current_selection().unwrap().completion, "c");
    menu.next();
    assert_eq!(menu.current_selection().unwrap().completion, "a");
    menu.previous();
    assert_eq!(menu.current_selection().unwrap().completion, "c");
    menu.previous();
    assert_eq!(menu.current_selection().unwrap().completion, "b");
}

#[test]
fn default_menu_accept_closes_and_hands_out_selection() {
    let mut menu = DefaultMenu::new();
    menu.set_items(vec![
        ("a".to_string(), candidate("a", ReplaceMethod::Append)),
        ("b".to_string(), candidate("b", ReplaceMethod::Append)),
    ]);
    menu.activate();
    assert!(menu.is_active());
    menu.next();
    let got = menu.accept();
    assert_eq!(got.unwrap().completion, "b");
    assert!(!menu.is_active());
    menu.activate();
    menu.disactivate();
    assert!(!menu.is_active());
    menu.set_items(Vec::new());
    assert!(menu.accept().is_none());
}

#[test]
fn snippets_lookup_and_replace() {
    let mut snippets = Snippets::new(ExpandSnippet::OnSpace);
    assert!(snippets.get(&"gc".to_string()).is_none());
    snippets.add("gc".to_string(), SnippetInfo::new("git commit", Position::Command));
    snippets.add("ga".to_string(), SnippetInfo::new("git add .", Position::Anywhere));
    assert_eq!(snippets.get(&"gc".to_string()).unwrap().value, "git commit");
    assert_eq!(snippets.get(&"gc".to_string()).unwrap().position, Position::Command);
    assert_eq!(snippets.get(&"ga".to_string()).unwrap().position, Position::Anywhere);
    assert!(snippets.get(&"g".to_string()).is_none());
    snippets.add("gc".to_string(), SnippetInfo::new("git checkout", Position::Anywhere));
    assert_eq!(snippets.get(&"gc".to_string()).unwrap().value, "git checkout");
    assert_eq!(snippets.get(&"ga".to_string()).unwrap().value, "git add .");
}

#[test]
fn snippets_trigger_event() {
    let on_space = Snippets::new(ExpandSnippet::OnSpace);
    assert!(on_space.should_expand(&key(KeyCode::Char(' '), NONE)));
    assert!(!on_space.should_expand(&key(KeyCode::Char(' '), SHIFT)));
    assert!(!on_space.should_expand(&key(KeyCode::Char('a'), NONE)));
    assert!(!on_space.should_expand(&Event::Paste(" ".to_string())));
    let on_key = Snippets::new(ExpandSnippet::OnKey(KeyEvent::new(KeyCode::Char('e'), CONTROL)));
    assert!(on_key.should_expand(&key(KeyCode::Char('e'), CONTROL)));
    assert!(!on_key.should_expand(&key(KeyCode::Char('e'), NONE)));
    assert!(!on_key.should_expand(&key(KeyCode::Char(' '), NONE)));
    let never = Snippets::new(ExpandSnippet::Never);
    assert!(!never.should_expand(&key(KeyCode::Char(' '), NONE)));
    assert!(Snippets::default().should_expand(&key(KeyCode::Char(' '), NONE)));
}

#[test]
fn keys_are_read_by_context() {
    assert_eq!(StandardKey::of(&key(KeyCode::Char('c'), CONTROL)), StandardKey::Interrupt);
    assert_eq!(StandardKey::of(&key(KeyCode::Char('c'), NONE)), StandardKey::Other);
    assert_eq!(StandardKey::of(&key(KeyCode::Right, NONE)), StandardKey::Suggest);
    assert_eq!(StandardKey::of(&key(KeyCode::Enter, NONE)), StandardKey::Submit);
    assert_eq!(StandardKey::of(&key(KeyCode::Char('j'), CONTROL)), StandardKey::Submit);
    assert_eq!(StandardKey::of(&key(KeyCode::Char('d'), CONTROL)), StandardKey::EndOfInput);
    assert_eq!(StandardKey::of(&Event::Resize(80, 24)), StandardKey::Resize(80, 24));
    assert_eq!(StandardKey::of(&Event::Paste("x".to_string())), StandardKey::Paste);
    assert_eq!(StandardKey::of(&Event::Other), StandardKey::Other);
    assert_eq!(MenuKey::of(&key(KeyCode::Enter, NONE)), MenuKey::Accept);
    assert_eq!(MenuKey::of(&key(KeyCode::Esc, NONE)), MenuKey::Close);
    assert_eq!(MenuKey::of(&key(KeyCode::Tab, SHIFT)), MenuKey::Previous);
    assert_eq!(MenuKey::of(&key(KeyCode::Up, NONE)), MenuKey::Previous);
    assert_eq!(MenuKey::of(&key(KeyCode::Tab, NONE)), MenuKey::Next);
    assert_eq!(MenuKey::of(&key(KeyCode::Down, NONE)), MenuKey::Next);
    assert_eq!(MenuKey::of(&key(KeyCode::Char('x'), NONE)), MenuKey::Other);
    assert_eq!(MenuKey::of(&Event::Other), MenuKey::Other);
    assert_eq!(InsertKey::of(&key(KeyCode::Tab, NONE)), InsertKey::Tab);
    assert_eq!(InsertKey::of(&key(KeyCode::Left, NONE)), InsertKey::Left);
    assert_eq!(InsertKey::of(&key(KeyCode::Right, NONE)), InsertKey::Right);
    assert_eq!(InsertKey::of(&key(KeyCode::Up, NONE)), InsertKey::Up);
    assert_eq!(InsertKey::of(&key(KeyCode::Down, NONE)), InsertKey::Down);
    assert_eq!(InsertKey::of(&key(KeyCode::Esc, SHIFT)), InsertKey::Escape);
    assert_eq!(InsertKey::of(&key(KeyCode::Backspace, NONE)), InsertKey::Backspace);
    assert_eq!(InsertKey::of(&key(KeyCode::Char('h'), CONTROL)), InsertKey::Backspace);
    assert_eq!(InsertKey::of(&key(KeyCode::Char('w'), CONTROL)), InsertKey::DeleteWord);
    assert_eq!(InsertKey::of(&key(KeyCode::Char('a'), CONTROL)), InsertKey::LineStart);
    assert_eq!(InsertKey::of(&key(KeyCode::Char('e'), CONTROL)), InsertKey::LineEnd);
    assert_eq!(InsertKey::of(&key(KeyCode::Char('e'), NONE)), InsertKey::Char('e'));
    assert_eq!(InsertKey::of(&key(KeyCode::Char('x'), CONTROL)), InsertKey::Char('x'));
    assert_eq!(InsertKey::of(&key(KeyCode::Left, SHIFT)), InsertKey::Ignored);
    assert_eq!(InsertKey::of(&key(KeyCode::Enter, NONE)), InsertKey::Ignored);
    assert_eq!(InsertKey::of(&Event::Resize(1, 1)), InsertKey::Ignored);
    assert_eq!(NormalKey::of(&key(KeyCode::Esc, CONTROL)), NormalKey::Escape);
    assert_eq!(NormalKey::of(&key(KeyCode::Char('d'), NONE)), NormalKey::Char('d'));
    assert_eq!(NormalKey::of(&key(KeyCode::Enter, NONE)), NormalKey::Ignored);
    assert_eq!(NormalKey::of(&Event::Paste("dd".to_string())), NormalKey::Ignored);
}

#[test]
fn vi_parse_spells_commands() {
    let cmd = vi::parse("dw").unwrap();
    assert_eq!(cmd.repeat, 1);
    assert_eq!(cmd.action, Action::Delete(Motion::WordPunc));
    let cmd = vi::parse("42dw").unwrap();
    assert_eq!(cmd.repeat, 42);
    let cmd = vi::parse("2j").unwrap();
    assert_eq!(cmd.repeat, 2);
    assert_eq!(cmd.action, Action::Move(Motion::Down));
    assert_eq!(vi::parse("k").unwrap().action, Action::Move(Motion::Up));
    assert_eq!(vi::parse("v").unwrap().action, Action::Editor);
    assert_eq!(vi::parse("u").unwrap().action, Action::Undo);
    assert!(vi::parse("2").is_none());
    assert!(vi::parse("d").is_none());
    assert!(vi::parse("").is_none());
    assert!(vi::parse("zz").is_none());
}

#[test]
fn vi_parse_refuses_counts_beyond_32_bits() {
    assert_eq!(vi::parse("4294967295j").unwrap().repeat, 4294967295);
    assert!(vi::parse("4294967296j").is_none());
    assert!(vi::parse("99999999999999999999999j").is_none());
    assert_eq!(vi::parse("0000000000000000000003j").unwrap().repeat, 3);
}

#[test]
fn check_counts_reads_every_run_of_digits() {
    assert!(vi::check_counts(&text::chars_of("")));
    assert!(vi::check_counts(&text::chars_of("12d34w")));
    assert!(vi::check_counts(&text::chars_of("4294967295")));
    assert!(!vi::check_counts(&text::chars_of("4294967296")));
    assert!(!vi::check_counts(&text::chars_of("d4294967296w")));
    assert!(vi::check_counts(&text::chars_of("42949x67296")));
}

#[test]
fn cd_without_argument_goes_home() {
    let cd = CdBuiltin::default();
    assert_eq!(cd.target(None, None, Some("/home/me"), "/tmp"), Ok("/home/me".to_string()));
    assert_eq!(cd.target(None, Some("/old"), None, "/tmp"), Err(CdError::NoHome));
}

#[test]
fn cd_dash_goes_to_previous_directory() {
    let cd = CdBuiltin::default();
    assert_eq!(cd.target(Some("-"), Some("/old"), Some("/home/me"), "/tmp"), Ok("/old".to_string()));
    assert_eq!(cd.target(Some("-"), None, Some("/home/me"), "/tmp"), Err(CdError::NoOldPwd));
}

#[test]
fn cd_tilde_goes_below_home() {
    let cd = CdBuiltin::default();
    assert_eq!(cd.target(Some("~"), None, Some("/home/me"), "/tmp"), Ok("/home/me".to_string()));
    assert_eq!(
        cd.target(Some("~/src/x"), None, Some("/home/me"), "/tmp"),
        Ok("/home/me/src/x".to_string())
    );
    assert_eq!(cd.target(Some("~/src"), Some("/old"), None, "/tmp"), Err(CdError::NoHome));
}

#[test]
fn cd_path_is_seen_from_working_directory() {
    let cd = CdBuiltin::default();
    assert_eq!(cd.target(Some("src"), None, None, "/tmp"), Ok("/tmp/src".to_string()));
    assert_eq!(cd.target(Some("/etc"), None, None, "/tmp"), Ok("/etc".to_string()));
    assert_eq!(cd.target(Some("--"), None, None, "/tmp"), Ok("/tmp/--".to_string()));
}

#[test]
fn cd_error_messages() {
    assert_eq!(CdError::NoOldPwd.message(), "no OLDPWD");
    assert_eq!(CdError::NoHome.message(), "No Home Directory");
}
