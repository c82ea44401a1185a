//! The completion menu: a list of candidates, one of them selected, shown
//! while the menu is active.

use crate::completion::{Completion, CompletionView};
use vstd::prelude::*;

verus! {

/// A menu entry as plain values: what is shown, and the candidate.
pub type Entry = (Seq<char>, CompletionView);

/// The entries that a list of menu items stands for.
pub open spec fn entries_of(items: Seq<(String, Completion)>) -> Seq<Entry> {
    Seq::new(items.len(), |i: int| (items[i].0@, items[i].1@))
}

/// The candidate that is selected in `entries`, if the selection points at
/// one.
pub open spec fn current_of(entries: Seq<Entry>, selected: nat) -> Option<CompletionView> {
    if selected < entries.len() {
        Some(entries[selected as int].1)
    } else {
        None
    }
}

/// The completion menu as the editor drives it.
pub trait Menu {
    /// The entries of the menu, in the order shown.
    spec fn entries(&self) -> Seq<Entry>;

    /// The index of the selected entry.
    spec fn selected(&self) -> nat;

    /// Whether the menu is shown and takes keys.
    spec fn active(&self) -> bool;

    /// Selects the next entry. Which entry follows the last is the menu's
    /// choice.
    fn next(&mut self)
        ensures
            final(self).entries() == old(self).entries(),
            final(self).active() == old(self).active(),
            old(self).entries().len() > 0 ==> final(self).selected() < old(self).entries().len(),
    ;

    /// Selects the previous entry. Which entry precedes the first is the
    /// menu's choice.
    fn previous(&mut self)
        ensures
            final(self).entries() == old(self).entries(),
            final(self).active() == old(self).active(),
            old(self).entries().len() > 0 ==> final(self).selected() < old(self).entries().len(),
    ;

    /// Closes the menu and hands out the selected candidate.
    fn accept(&mut self) -> (r: Option<Completion>)
        ensures
            !final(self).active(),
            final(self).entries() == old(self).entries(),
            final(self).selected() == old(self).selected(),
            r.is_some() == current_of(old(self).entries(), old(self).selected()).is_some(),
            r.is_some() ==> r.unwrap()@ == current_of(
                old(self).entries(),
                old(self).selected(),
            ).unwrap(),
    ;

    /// The selected candidate.
    fn current_selection(&self) -> (r: Option<Completion>)
        ensures
            r.is_some() == current_of(self.entries(), self.selected()).is_some(),
            r.is_some() ==> r.unwrap()@ == current_of(self.entries(), self.selected()).unwrap(),
    ;

    fn is_active(&self) -> (r: bool)
        ensures
            r == self.active(),
    ;

    fn activate(&mut self)
        ensures
            final(self).active(),
            final(self).entries() == old(self).entries(),
            final(self).selected() == old(self).selected(),
    ;

    fn disactivate(&mut self)
        ensures
            !final(self).active(),
            final(self).entries() == old(self).entries(),
            final(self).selected() == old(self).selected(),
    ;

    /// The menu's items, in the order shown.
    fn items(&self) -> (r: Vec<(String, Completion)>)
        ensures
            entries_of(r@) == self.entries(),
    ;

    /// Replaces the menu's items and selects the first.
    fn set_items(&mut self, items: Vec<(String, Completion)>)
        ensures
            final(self).entries() == entries_of(items@),
            final(self).selected() == 0,
            final(self).active() == old(self).active(),
    ;
}

/// The menu that the editor has unless it is given another. Its selection
/// wraps around: Next at the last entry selects the first, Previous at the
/// first selects the last.
pub struct DefaultMenu {
    selections: Vec<(String, Completion)>,
    cursor: usize,
    active: bool,
}

impl DefaultMenu {
    /// An empty, inactive menu.
    pub fn new() -> (m: Self)
        ensures
            m.entries() == Seq::<Entry>::empty(),
            m.selected() == 0,
            !m.active(),
    {
        let m = DefaultMenu { selections: Vec::new(), cursor: 0, active: false };
        m
    }
}

/// The entry that Next selects from entry `selected` of `len`.
pub open spec fn wrapped_next(selected: nat, len: nat) -> nat {
    if selected + 1 < len {
        selected + 1
    } else {
        0
    }
}

/// The entry that Previous selects from entry `selected` of `len`.
pub open spec fn wrapped_previous(selected: nat, len: nat) -> nat {
    if 0 < selected < len {
        (selected - 1) as nat
    } else if len > 0 {
        (len - 1) as nat
    } else {
        0
    }
}

impl Menu for DefaultMenu {
    closed spec fn entries(&self) -> Seq<Entry> {
        entries_of(self.selections@)
    }

    closed spec fn selected(&self) -> nat {
        self.cursor as nat
    }

    closed spec fn active(&self) -> bool {
        self.active
    }

    fn next(&mut self)
        ensures
            final(self).selected() == wrapped_next(old(self).selected(), old(self).entries().len()),
    {
        let len = self.selections.len();
        if self.cursor < len && self.cursor + 1 < len {
            self.cursor = self.cursor + 1;
        } else {
            self.cursor = 0;
        }
    }

    fn previous(&mut self)
        ensures
            final(self).selected() == wrapped_previous(
                old(self).selected(),
                old(self).entries().len(),
            ),
    {
        let len = self.selections.len();
        if 0 < self.cursor && self.cursor < len {
            self.cursor = self.cursor - 1;
        } else if len > 0 {
            self.cursor = len - 1;
        } else {
            self.cursor = 0;
        }
    }

    fn accept(&mut self) -> (r: Option<Completion>) {
        self.disactivate();
        self.current_selection()
    }

    fn current_selection(&self) -> (r: Option<Completion>) {
        if self.cursor < self.selections.len() {
            Some(self.selections[self.cursor].1.clone())
        } else {
            None
        }
    }

    fn is_active(&self) -> (r: bool) {
        self.active
    }

    fn activate(&mut self) {
        self.active = true;
    }

    fn disactivate(&mut self) {
        self.active = false;
    }

    fn items(&self) -> (r: Vec<(String, Completion)>) {
        let mut r: Vec<(String, Completion)> = Vec::new();
        let mut i: usize = 0;
        while i < self.selections.len()
            invariant
                i <= self.selections.len(),
                entries_of(r@) == entries_of(self.selections@.take(i as int)),
            decreases self.selections.len() - i,
        {
            let item = &self.selections[i];
            let ghost before = entries_of(r@);
            r.push((item.0.clone(), item.1.clone()));
            assert(entries_of(self.selections@.take(i + 1)) =~= before.push((item.0@, item.1@)));
            i += 1;
        }
        r
    }

    fn set_items(&mut self, items: Vec<(String, Completion)>) {
        self.selections = items;
        self.cursor = 0;
    }
}

} // verus!
