//! Completion candidates and the interface of whoever proposes them.

use vstd::prelude::*;

verus! {

/// How an accepted candidate meets the word it completes.
#[derive(Clone, Copy, Debug, PartialEq, Eq, Structural)]
pub enum ReplaceMethod {
    /// The candidate takes the place of the word typed so far.
    Replace,
    /// The candidate is put in after the word typed so far.
    Append,
}

/// One completion candidate.
#[derive(Debug)]
pub struct Completion {
    /// Whether a space follows the text when it is accepted.
    pub add_space: bool,
    /// What the menu shows for the candidate, where that is not its text.
    pub display: Option<String>,
    /// The candidate's text.
    pub completion: String,
    pub replace_method: ReplaceMethod,
}

/// A candidate as plain values.
pub ghost struct CompletionView {
    pub add_space: bool,
    pub display: Option<Seq<char>>,
    pub completion: Seq<char>,
    pub replace_method: ReplaceMethod,
}

impl CompletionView {
    /// The text that goes into the buffer when the candidate is accepted.
    pub open spec fn accepted(self) -> Seq<char> {
        if self.add_space {
            self.completion.push(' ')
        } else {
            self.completion
        }
    }

    /// The text that the menu shows for the candidate.
    pub open spec fn shown(self) -> Seq<char> {
        match self.display {
            Some(d) => d,
            None => self.completion,
        }
    }
}

impl View for Completion {
    type V = CompletionView;

    open spec fn view(&self) -> CompletionView {
        CompletionView {
            add_space: self.add_space,
            display: match self.display {
                Some(d) => Some(d@),
                None => None,
            },
            completion: self.completion@,
            replace_method: self.replace_method,
        }
    }
}

/// The candidates of a list, as plain values.
pub open spec fn candidates_of(list: Seq<Completion>) -> Seq<CompletionView> {
    Seq::new(list.len(), |i: int| list[i]@)
}

impl Clone for Completion {
    fn clone(&self) -> (r: Self)
        ensures
            r@ == self@,
    {
        Completion {
            add_space: self.add_space,
            display: match &self.display {
                Some(d) => Some(d.clone()),
                None => None,
            },
            completion: self.completion.clone(),
            replace_method: self.replace_method,
        }
    }
}

impl Completion {
    /// The text that goes into the buffer when the candidate is accepted.
    pub fn accept(&self) -> (s: String)
        ensures
            s@ == self@.accepted(),
    {
        let mut s = self.completion.clone();
        if self.add_space {
            s.push(' ');
        }
        s
    }

    /// The text that the menu shows for the candidate.
    pub fn display(&self) -> (s: String)
        ensures
            s@ == self@.shown(),
    {
        match &self.display {
            Some(d) => d.clone(),
            None => self.completion.clone(),
        }
    }
}

/// What a completer is told: the words of the line up to the cursor, the
/// last of them being the one under completion.
pub struct CompletionCtx {
    pub line: Vec<String>,
}

impl CompletionCtx {
    pub fn new(line: Vec<String>) -> (ctx: Self)
        ensures
            ctx.line == line,
    {
        CompletionCtx { line }
    }
}

/// Whoever proposes completion candidates for a line.
pub trait Completer {
    /// The candidates for the word under completion, best first.
    fn complete(&self, ctx: &CompletionCtx) -> Vec<Completion>;
}

} // verus!
