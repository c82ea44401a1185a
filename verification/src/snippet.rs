//! Snippets: short trigger words that expand into longer text.

use crate::event::{Event, KeyCode, KeyEvent, NONE};
use vstd::prelude::*;

verus! {

/// Where in the line a snippet may expand.
#[derive(Clone, Copy, Debug, PartialEq, Eq, Structural)]
pub enum Position {
    /// Only as the first word of the line.
    Command,
    /// Anywhere in the line.
    Anywhere,
}

/// Which event makes the editor look for a snippet to expand.
#[derive(Clone, Copy, Debug, PartialEq, Eq, Structural)]
pub enum ExpandSnippet {
    /// A space typed with no modifier.
    OnSpace,
    /// The given key press.
    OnKey(KeyEvent),
    /// No event at all.
    Never,
}

/// What a trigger expands into, and where.
#[derive(Debug)]
pub struct SnippetInfo {
    pub value: String,
    pub position: Position,
}

/// A snippet as plain values.
pub ghost struct SnippetView {
    pub value: Seq<char>,
    pub position: Position,
}

impl View for SnippetInfo {
    type V = SnippetView;

    open spec fn view(&self) -> SnippetView {
        SnippetView { value: self.value@, position: self.position }
    }
}

impl SnippetInfo {
    pub fn new(value: &str, position: Position) -> (info: Self)
        ensures
            info@ == (SnippetView { value: value@, position }),
    {
        SnippetInfo { value: value.to_owned(), position }
    }
}

/// The snippet that a list of registrations holds for `trigger`: the one
/// registered last.
pub open spec fn lookup(
    entries: Seq<(String, SnippetInfo)>,
    trigger: Seq<char>,
) -> Option<SnippetView>
    decreases entries.len(),
{
    if entries.len() == 0 {
        None
    } else if entries.last().0@ == trigger {
        Some(entries.last().1@)
    } else {
        lookup(entries.drop_last(), trigger)
    }
}

/// The table of snippets, and the event that triggers expansion.
pub struct Snippets {
    snippets: Vec<(String, SnippetInfo)>,
    expand_snippet: ExpandSnippet,
}

impl Snippets {
    /// The snippet registered for `trigger`, if there is one.
    pub closed spec fn snippet(&self, trigger: Seq<char>) -> Option<SnippetView> {
        lookup(self.snippets@, trigger)
    }

    /// The event that triggers expansion.
    pub closed spec fn trigger(&self) -> ExpandSnippet {
        self.expand_snippet
    }

    /// Whether `event` is the one that triggers expansion.
    pub open spec fn expands_on(&self, event: Event) -> bool {
        match self.trigger() {
            ExpandSnippet::OnSpace => event.key() == Some(
                crate::event::key_event(KeyCode::Char(' '), NONE),
            ),
            ExpandSnippet::OnKey(k) => event.key() == Some(k),
            ExpandSnippet::Never => false,
        }
    }

    /// An empty table whose expansion is triggered by `expand_snippet`.
    pub fn new(expand_snippet: ExpandSnippet) -> (s: Self)
        ensures
            s.trigger() == expand_snippet,
            forall|t: Seq<char>| s.snippet(t).is_none(),
    {
        Snippets { snippets: Vec::new(), expand_snippet }
    }

    /// Registers `info` for `trigger`, in place of what was registered for it
    /// before.
    pub fn add(&mut self, trigger: String, info: SnippetInfo)
        ensures
            final(self).trigger() == old(self).trigger(),
            forall|t: Seq<char>|
                final(self).snippet(t) == if t == trigger@ {
                    Some(info@)
                } else {
                    old(self).snippet(t)
                },
    {
        let ghost before = self.snippets@;
        self.snippets.push((trigger, info));
        assert(self.snippets@.drop_last() =~= before);
    }

    /// The snippet registered for `trigger`, if there is one.
    pub fn get(&self, trigger: &String) -> (r: Option<&SnippetInfo>)
        ensures
            r.is_some() == self.snippet(trigger@).is_some(),
            r.is_some() ==> r.unwrap()@ == self.snippet(trigger@).unwrap(),
    {
        let mut i: usize = self.snippets.len();
        assert(self.snippets@.take(i as int) =~= self.snippets@);
        while i > 0
            invariant
                i <= self.snippets.len(),
                lookup(self.snippets@, trigger@) == lookup(self.snippets@.take(i as int), trigger@),
            decreases i,
        {
            let entry = &self.snippets[i - 1];
            proof {
                let upto = self.snippets@.take(i as int);
                assert(upto.drop_last() =~= self.snippets@.take(i - 1));
            }
            if entry.0 == *trigger {
                return Some(&entry.1);
            }
            i -= 1;
        }
        None
    }

    /// Whether `event` is the one that triggers expansion.
    pub fn should_expand(&self, event: &Event) -> (r: bool)
        ensures
            r == self.expands_on(*event),
    {
        match event.as_key() {
            None => false,
            Some(key) => match self.expand_snippet {
                ExpandSnippet::OnSpace => key.is(KeyCode::Char(' '), NONE),
                ExpandSnippet::OnKey(k) => key == k,
                ExpandSnippet::Never => false,
            },
        }
    }
}

impl Default for Snippets {
    /// An empty table whose expansion is triggered by a space.
    fn default() -> (s: Self)
        ensures
            s.trigger() == ExpandSnippet::OnSpace,
            forall|t: Seq<char>| s.snippet(t).is_none(),
    {
        Snippets::new(ExpandSnippet::OnSpace)
    }
}

} // verus!
