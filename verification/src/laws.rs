//! What holds of the editor whatever is typed.

use crate::buffer::BufferError;
use crate::event::{key_event, Event, KeyCode, NONE};
use crate::history::{lemma_up_is_clamped, HistoryInd};
use crate::model::{Answers, EditorView, Flow};
use crate::snippet::Snippets;
use crate::state::{LineMode, LineView};
use crate::text::{word_end, word_start};
use vstd::prelude::*;

verus! {

/// Whether every text that browsing can put into the buffer is within the
/// machine's reach.
pub open spec fn browsable(v: LineView, history: Seq<Seq<char>>) -> bool {
    &&& v.text.len() <= isize::MAX
    &&& v.saved_line.len() <= isize::MAX
    &&& forall|i: int| 0 <= i < history.len() ==> (#[trigger] history[i]).len() <= isize::MAX
}

impl LineView {
    /// The session after `count` presses of Up.
    pub open spec fn ups(self, history: Seq<Seq<char>>, count: nat) -> LineView
        decreases count,
    {
        if count == 0 {
            self
        } else {
            self.ups(history, (count - 1) as nat).browsed_up(history).0
        }
    }

    /// The session after `count` presses of Down.
    pub open spec fn downs(self, history: Seq<Seq<char>>, count: nat) -> LineView
        decreases count,
    {
        if count == 0 {
            self
        } else {
            self.downs(history, (count - 1) as nat).browsed_down(history).0
        }
    }
}

/// However often Up is pressed, the history index stays at an entry that the
/// history has: it is never past the oldest one. No press fails, and the
/// buffer shows what the index points at.
pub proof fn lemma_ups_stay_in_history(v: LineView, history: Seq<Seq<char>>, count: nat)
    requires
        v.history_ind.valid(history.len()),
        history.len() <= usize::MAX,
        browsable(v, history),
    ensures
        v.ups(history, count).history_ind == v.history_ind.older_by(history.len(), count),
        v.ups(history, count).history_ind.valid(history.len()),
        browsable(v.ups(history, count), history),
        v.ups(history, count).browsed_up(history).1 is Ok,
        count > 0 ==> v.ups(history, count).text == v.ups(history, count).shown(
            v.ups(history, count).history_ind,
            history,
        ),
    decreases count,
{
    lemma_up_is_clamped(v.history_ind, history.len(), count);
    if count > 0 {
        lemma_ups_stay_in_history(v, history, (count - 1) as nat);
    }
}

/// At the oldest entry one more Up leaves the index where it is.
pub proof fn lemma_up_at_oldest(v: LineView, history: Seq<Seq<char>>)
    requires
        history.len() > 0,
        history.len() <= usize::MAX,
        v.history_ind == HistoryInd::Line((history.len() - 1) as usize),
    ensures
        v.browsed_up(history).0.history_ind == v.history_ind,
{
}

/// Down at the prompt changes nothing at all: neither the session nor the
/// buffer, however often it is pressed.
pub proof fn lemma_down_at_prompt_is_idle(v: LineView, history: Seq<Seq<char>>, count: nat)
    requires
        v.history_ind == HistoryInd::Prompt,
    ensures
        v.browsed_down(history) == (v, Ok::<(), BufferError>(())),
        v.downs(history, count) == v,
    decreases count,
{
    if count > 0 {
        lemma_down_at_prompt_is_idle(v, history, (count - 1) as nat);
    }
}

/// The Down key in insert mode, with the session at the prompt, changes
/// nothing of the editor, unless Down is the key on which a snippet expands.
#[verifier::rlimit(50)]
pub proof fn lemma_down_key_at_prompt(e: EditorView, a: Answers)
    requires
        e.line.history_ind == HistoryInd::Prompt,
        !e.snippets.expands_on(Event::Key(key_event(KeyCode::Down, NONE))),
    ensures
        e.insert_keys(Event::Key(key_event(KeyCode::Down, NONE)), a) == (
            e,
            Ok::<Flow, BufferError>(Flow::Continue),
        ),
{
}

/// The Down key as an event of the session, with the session at the prompt:
/// unless the user's key bindings take it, the menu is active or a snippet
/// expands on it, it changes nothing of the editor, in either mode.
#[verifier::rlimit(50)]
pub proof fn lemma_down_event_at_prompt(e: EditorView, a: Answers)
    requires
        e.line.history_ind == HistoryInd::Prompt,
        !e.active,
        !a.handled,
        !e.snippets.expands_on(Event::Key(key_event(KeyCode::Down, NONE))),
    ensures
        e.handled(Event::Key(key_event(KeyCode::Down, NONE)), a) == (
            e,
            Ok::<Flow, BufferError>(Flow::Continue),
        ),
{
    let down = Event::Key(key_event(KeyCode::Down, NONE));
    assert(e.standard_keys(down, a) == (
        e,
        Ok::<crate::model::Standard, BufferError>(crate::model::Standard::Pass),
    ));
    lemma_down_key_at_prompt(e, a);
}

/// The keys common to all modes never change the mode.
#[verifier::rlimit(50)]
pub proof fn lemma_standard_keys_keep_mode(e: EditorView, event: Event, a: Answers)
    ensures
        e.standard_keys(event, a).0.line.mode == e.line.mode,
{
}

/// The keys of insert mode do not change the mode, but for Escape, which
/// leads to normal mode unless a snippet takes the key.
#[verifier::rlimit(50)]
pub proof fn lemma_insert_keys_keep_mode(e: EditorView, event: Event, a: Answers)
    ensures
        e.insert_keys(event, a).0.line.mode == if e.line.snipped(e.snippets, event).1 == Ok::<
            bool,
            BufferError,
        >(true) && crate::model::insert_key(event) == crate::model::InsertKey::Escape {
            LineMode::Normal
        } else {
            e.line.mode
        },
{
    let s = e.line.snipped(e.snippets, event);
    assert(s.0.mode == e.line.mode);
    if s.1 == Ok::<bool, BufferError>(true) {
        let f = EditorView { line: s.0, ..e };
        assert(f.completed(a.candidates).0.line.mode == e.line.mode);
    }
}

/// While the session browses, Up and Down keep the saved draft.
pub proof fn lemma_browsing_keeps_draft(v: LineView, history: Seq<Seq<char>>)
    requires
        v.history_ind != HistoryInd::Prompt,
    ensures
        v.browsed_up(history).0.saved_line == v.saved_line,
        v.browsed_down(history).0.saved_line == v.saved_line,
{
}

/// From entry `i`, Down pressed `count` times leads to entry `i - count`
/// while `count` is at most `i`, and back to the prompt after that; at the
/// prompt the buffer holds the saved draft again.
pub proof fn lemma_downs(v: LineView, history: Seq<Seq<char>>, count: nat)
    requires
        v.history_ind.valid(history.len()),
        browsable(v, history),
    ensures
        v.downs(history, count).saved_line == v.saved_line,
        v.downs(history, count).history_ind == v.history_ind.newer_by(count),
        browsable(v.downs(history, count), history),
        v.downs(history, count).history_ind.valid(history.len()),
        v.history_ind != HistoryInd::Prompt && v.downs(history, count).history_ind
            == HistoryInd::Prompt ==> v.downs(history, count).text == v.saved_line,
    decreases count,
{
    if count > 0 {
        let before = v.downs(history, (count - 1) as nat);
        lemma_downs(v, history, (count - 1) as nat);
        if before.history_ind == HistoryInd::Prompt {
            lemma_down_at_prompt_is_idle(before, history, 0);
        }
    }
}

/// Round trip: from the prompt, Up pressed any number of times and then
/// Down pressed at least as often leads back to the prompt with exactly the
/// text that was in the buffer before browsing began.
pub proof fn lemma_browse_round_trip(
    v: LineView,
    history: Seq<Seq<char>>,
    ups: nat,
    downs: nat,
)
    requires
        v.history_ind == HistoryInd::Prompt,
        history.len() <= usize::MAX,
        browsable(v, history),
        downs >= ups,
    ensures
        v.ups(history, ups).downs(history, downs).history_ind == HistoryInd::Prompt,
        v.ups(history, ups).downs(history, downs).text == v.text,
{
    let up = v.ups(history, ups);
    lemma_ups_from_prompt(v, history, ups);
    lemma_ups_stay_in_history(v, history, ups);
    lemma_up_is_clamped(v.history_ind, history.len(), ups);
    lemma_downs(up, history, downs);
    if ups == 0 || history.len() == 0 {
        lemma_down_at_prompt_is_idle(up, history, downs);
    } else {
        let i = match up.history_ind {
            HistoryInd::Line(i) => i,
            HistoryInd::Prompt => 0,
        };
        crate::history::lemma_down_reaches_prompt(i, downs);
    }
}

/// From the prompt, Up saves the text as the draft and keeps it; where the
/// history is empty the session stays at the prompt with its text.
pub proof fn lemma_ups_from_prompt(v: LineView, history: Seq<Seq<char>>, count: nat)
    requires
        v.history_ind == HistoryInd::Prompt,
        history.len() <= usize::MAX,
        browsable(v, history),
    ensures
        count > 0 ==> v.ups(history, count).saved_line == v.text,
        history.len() == 0 ==> v.ups(history, count).text == v.text && v.ups(
            history,
            count,
        ).history_ind == HistoryInd::Prompt,
        history.len() > 0 && count > 0 ==> v.ups(history, count).history_ind
            != HistoryInd::Prompt,
    decreases count,
{
    if count > 0 {
        lemma_ups_from_prompt(v, history, (count - 1) as nat);
        lemma_ups_stay_in_history(v, history, (count - 1) as nat);
    }
}

/// Once a snippet has expanded, the cursor stands at the end of the line.
/// The same event then expands nothing more, and is left to be handled as a
/// key, unless the word that now ends the line is itself a trigger that may
/// expand there.
pub proof fn lemma_expansion_settles(v: LineView, snippets: Snippets, event: Event)
    requires
        v.snipped(snippets, event).1 == Ok::<bool, BufferError>(false),
        v.snipped(snippets, event).0.expansion(snippets) is None,
    ensures
        v.snipped(snippets, event).0.cursor == v.snipped(snippets, event).0.text.len(),
        v.snipped(snippets, event).0.snipped(snippets, event) == (
            v.snipped(snippets, event).0,
            Ok::<bool, BufferError>(true),
        ),
{
}

/// The last word of `s`: what follows its last space.
pub open spec fn last_word(s: Seq<char>) -> Seq<char> {
    s.subrange(word_start(s, s.len() as int), s.len() as int)
}

/// Where a word begins depends only on the text before the position asked
/// for.
proof fn lemma_word_start_agrees(s: Seq<char>, t: Seq<char>, pos: int)
    requires
        0 <= pos <= s.len(),
        pos <= t.len(),
        forall|i: int| 0 <= i < pos ==> s[i] == t[i],
    ensures
        word_start(s, pos) == word_start(t, pos),
    decreases pos,
{
    if pos > 0 && s[pos - 1] != ' ' {
        lemma_word_start_agrees(s, t, pos - 1);
    }
}

/// After a text that is empty or ends in a space, the last word of what
/// follows is the last word of the whole.
proof fn lemma_last_word_of_tail(head: Seq<char>, tail: Seq<char>)
    requires
        head.len() == 0 || head.last() == ' ',
    ensures
        word_start(head + tail, (head + tail).len() as int) == head.len() + word_start(
            tail,
            tail.len() as int,
        ),
        last_word(head + tail) == last_word(tail),
    decreases tail.len(),
{
    let whole = head + tail;
    crate::text::lemma_word_start(tail, tail.len() as int);
    if tail.len() == 0 {
        assert(whole =~= head);
    } else if tail.last() != ' ' {
        let shorter = tail.drop_last();
        lemma_last_word_of_tail(head, shorter);
        lemma_word_start_agrees(whole, head + shorter, whole.len() - 1);
        lemma_word_start_agrees(tail, shorter, tail.len() - 1);
    }
    assert(last_word(whole) =~= last_word(tail));
}

/// A snippet that expands the last word of the line is not expanded twice:
/// once its value stands at the end of the line, the same event expands
/// nothing more and is left to be handled as a key, unless the last word of
/// the value is itself a registered trigger.
pub proof fn lemma_expansion_at_end_settles(v: LineView, snippets: Snippets, event: Event)
    requires
        v.snipped(snippets, event).1 == Ok::<bool, BufferError>(false),
        word_end(v.text, v.cursor as int) == v.text.len(),
        snippets.snippet(last_word(snippets.snippet(v.word_at_cursor()).unwrap().value)) is None,
    ensures
        v.snipped(snippets, event).0.snipped(snippets, event) == (
            v.snipped(snippets, event).0,
            Ok::<bool, BufferError>(true),
        ),
{
    let value = snippets.snippet(v.word_at_cursor()).unwrap().value;
    let start = word_start(v.text, v.cursor as int);
    let head = v.text.subrange(0, start);
    let after = v.snipped(snippets, event).0;
    crate::text::lemma_word_start(v.text, v.cursor as int);
    assert(after.text =~= head + value);
    lemma_last_word_of_tail(head, value);
    assert(after.word_at_cursor() =~= last_word(head + value)) by {
        crate::text::lemma_word_end_at_end(after.text);
    }
}

} // verus!
