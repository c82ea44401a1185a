//! Browsing the history: the index that says where the editor stands in it,
//! and the log that it walks.

use vstd::prelude::*;

verus! {

/// Where the editor stands while browsing history.
#[derive(Clone, Copy, Debug, PartialEq, Eq, Structural)]
pub enum HistoryInd {
    /// Not browsing: a fresh line is being edited.
    Prompt,
    /// At an entry of the history; entry `0` is the most recent.
    Line(usize),
}

impl HistoryInd {
    /// Whether the index stands at an entry that a history of `limit`
    /// entries has (or at the prompt).
    pub open spec fn valid(self, limit: nat) -> bool {
        self matches HistoryInd::Line(i) ==> i < limit
    }

    /// One step towards older entries in a history of `limit` entries: from
    /// the prompt to the most recent entry, if there is one, and from an
    /// entry to the next older one, staying at the oldest.
    pub open spec fn older(self, limit: nat) -> HistoryInd {
        match self {
            HistoryInd::Prompt => if limit == 0 {
                HistoryInd::Prompt
            } else {
                HistoryInd::Line(0)
            },
            HistoryInd::Line(i) => if i + 1 < limit {
                HistoryInd::Line((i + 1) as usize)
            } else {
                HistoryInd::Line((limit - 1) as usize)
            },
        }
    }

    /// One step towards more recent entries: from the most recent entry back
    /// to the prompt, and from the prompt nowhere.
    pub open spec fn newer(self) -> HistoryInd {
        match self {
            HistoryInd::Prompt => HistoryInd::Prompt,
            HistoryInd::Line(i) => if i == 0 {
                HistoryInd::Prompt
            } else {
                HistoryInd::Line((i - 1) as usize)
            },
        }
    }

    /// `count` steps towards older entries.
    pub open spec fn older_by(self, limit: nat, count: nat) -> HistoryInd
        decreases count,
    {
        if count == 0 {
            self
        } else {
            self.older_by(limit, (count - 1) as nat).older(limit)
        }
    }

    /// `count` steps towards more recent entries.
    pub open spec fn newer_by(self, count: nat) -> HistoryInd
        decreases count,
    {
        if count == 0 {
            self
        } else {
            self.newer_by((count - 1) as nat).newer()
        }
    }

    /// Go up (less recent) in a history of `limit` entries.
    pub fn up(&self, limit: usize) -> (r: HistoryInd)
        requires
            self.valid(limit as nat),
        ensures
            r == self.older(limit as nat),
            r.valid(limit as nat),
    {
        match self {
            HistoryInd::Prompt => {
                if limit == 0 {
                    HistoryInd::Prompt
                } else {
                    HistoryInd::Line(0)
                }
            },
            HistoryInd::Line(i) => {
                if *i + 1 < limit {
                    HistoryInd::Line(*i + 1)
                } else {
                    HistoryInd::Line(limit - 1)
                }
            },
        }
    }

    /// Go down (more recent) in history; from the most recent entry, back to
    /// the prompt.
    pub fn down(&self) -> (r: HistoryInd)
        ensures
            r == self.newer(),
            forall|limit: nat| self.valid(limit) ==> r.valid(limit),
    {
        match self {
            HistoryInd::Prompt => HistoryInd::Prompt,
            HistoryInd::Line(i) => {
                if *i == 0 {
                    HistoryInd::Prompt
                } else {
                    HistoryInd::Line(*i - 1)
                }
            },
        }
    }
}

/// However often Up is pressed in a history of `limit` entries, the index
/// stays at an entry that exists, so never past `limit - 1`; from the prompt
/// `count` presses lead to entry `count - 1` or to the oldest entry,
/// whichever comes first; and at the oldest entry one more press changes
/// nothing.
pub proof fn lemma_up_is_clamped(start: HistoryInd, limit: nat, count: nat)
    requires
        start.valid(limit),
        limit <= usize::MAX,
    ensures
        start.older_by(limit, count).valid(limit),
        limit > 0 && start == HistoryInd::Prompt && count > 0 ==> start.older_by(limit, count)
            == HistoryInd::Line(
            if count - 1 < limit - 1 {
                (count - 1) as usize
            } else {
                (limit - 1) as usize
            },
        ),
        limit > 0 ==> HistoryInd::Line((limit - 1) as usize).older(limit) == HistoryInd::Line(
            (limit - 1) as usize,
        ),
    decreases count,
{
    if count > 0 {
        lemma_up_is_clamped(start, limit, (count - 1) as nat);
    }
}

/// Down at the prompt is no step at all, however often it is pressed.
pub proof fn lemma_down_at_prompt(count: nat)
    ensures
        HistoryInd::Prompt.newer() == HistoryInd::Prompt,
        HistoryInd::Prompt.newer_by(count) == HistoryInd::Prompt,
    decreases count,
{
    if count > 0 {
        lemma_down_at_prompt((count - 1) as nat);
    }
}

/// From entry `i`, `i + 1` presses of Down lead back to the prompt, and any
/// further press stays there.
pub proof fn lemma_down_reaches_prompt(i: usize, count: nat)
    requires
        count > i,
    ensures
        HistoryInd::Line(i).newer_by(count) == HistoryInd::Prompt,
    decreases count,
{
    lemma_down_steps(i, if count - 1 <= i { (count - 1) as nat } else { i as nat });
    if count - 1 > i {
        lemma_down_reaches_prompt(i, (count - 1) as nat);
    } else {
    }
}

/// From entry `i`, `count` presses of Down, no more than `i`, lead to entry
/// `i - count`.
pub proof fn lemma_down_steps(i: usize, count: nat)
    requires
        count <= i,
    ensures
        HistoryInd::Line(i).newer_by(count) == HistoryInd::Line((i - count) as usize),
    decreases count,
{
    if count > 0 {
        lemma_down_steps(i, (count - 1) as nat);
    }
}

/// The log of finished commands. Entry `0` is the most recent.
pub trait History {
    /// The commands of the log, most recent first.
    spec fn entries(&self) -> Seq<Seq<char>>;

    /// Adds `cmd` as the most recent entry.
    fn add(&mut self, cmd: String)
        ensures
            final(self).entries() == seq![cmd@] + old(self).entries(),
    ;

    /// The number of entries.
    fn len(&self) -> (n: usize)
        ensures
            n == self.entries().len(),
    ;

    /// Entry `i`, if the log has that many.
    fn get(&self, i: usize) -> (r: Option<&String>)
        ensures
            i < self.entries().len() ==> r.is_some() && r.unwrap()@ == self.entries()[i as int],
            i >= self.entries().len() ==> r.is_none(),
    ;
}

/// A history kept in memory, and lost with the process.
pub struct DefaultHistory {
    hist: Vec<String>,
}

impl DefaultHistory {
    /// An empty history.
    pub fn new() -> (h: Self)
        ensures
            h.entries() == Seq::<Seq<char>>::empty(),
    {
        let h = DefaultHistory { hist: Vec::new() };
        h
    }
}

impl History for DefaultHistory {
    closed spec fn entries(&self) -> Seq<Seq<char>> {
        crate::text::texts(self.hist@)
    }

    fn add(&mut self, cmd: String) {
        self.hist.insert(0, cmd);
    }

    fn len(&self) -> usize {
        self.hist.len()
    }

    fn get(&self, i: usize) -> Option<&String> {
        if i < self.hist.len() {
            Some(&self.hist[i])
        } else {
            None
        }
    }
}

} // verus!
