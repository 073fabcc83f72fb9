//! The highlighted row of the shown list.
use vstd::prelude::*;
use crate::matcher::texts;

verus! {

/// The selection right after the list was computed anew: its first row, or
/// none where it has no row.
pub open spec fn first_of(len: nat) -> Option<nat> {
    if len > 0 {
        Some(0)
    } else {
        None
    }
}

/// The selection one row further down, held at the last row.
pub open spec fn next_of(selected: Option<nat>, len: nat) -> Option<nat> {
    match selected {
        Some(i) => if i + 1 < len {
            Some(i + 1)
        } else {
            Some(i)
        },
        None => None,
    }
}

/// The selection one row further up, held at the first row.
pub open spec fn previous_of(selected: Option<nat>) -> Option<nat> {
    match selected {
        Some(i) => if i > 0 {
            Some((i - 1) as nat)
        } else {
            Some(i)
        },
        None => None,
    }
}

/// The selection names a row of a list of `len` rows, or none where the list
/// has no row.
pub open spec fn valid_for(selected: Option<nat>, len: nat) -> bool {
    match selected {
        Some(i) => i < len,
        None => len == 0,
    }
}

/// The text of the selected row, if a row of the list is selected.
pub open spec fn chosen(selected: Option<nat>, items: Seq<Seq<char>>) -> Option<Seq<char>> {
    match selected {
        Some(i) => if i < items.len() {
            Some(items[i as int])
        } else {
            None
        },
        None => None,
    }
}

/// Moving down from a valid selection gives the smaller of the next row and
/// the last row, and moving up the larger of the row before and the first.
/// Both leave the selection valid for the same list.
pub proof fn lemma_moves_stay_in_list(selected: Option<nat>, len: nat)
    requires
        valid_for(selected, len),
    ensures
        valid_for(next_of(selected, len), len),
        valid_for(previous_of(selected), len),
        valid_for(first_of(len), len),
        selected matches Some(i) ==> next_of(selected, len) == Some(
            if i + 1 <= len - 1 {
                i + 1
            } else {
                (len - 1) as nat
            },
        ),
        selected matches Some(i) ==> previous_of(selected) == Some(
            if i - 1 >= 0 {
                (i - 1) as nat
            } else {
                0nat
            },
        ),
        selected is None ==> next_of(selected, len) is None && previous_of(selected) is None,
{
}

/// Which row of the shown list is highlighted, if any.
pub struct Selection {
    index: Option<usize>,
}

impl View for Selection {
    type V = Option<nat>;

    closed spec fn view(&self) -> Option<nat> {
        match self.index {
            Some(i) => Some(i as nat),
            None => None,
        }
    }
}

impl Selection {
    /// No row selected.
    pub fn new() -> (s: Selection)
        ensures
            s@ is None,
    {
        Selection { index: None }
    }

    /// The selected row.
    pub fn selected(&self) -> (index: Option<usize>)
        ensures
            index matches Some(i) ==> self@ == Some(i as nat),
            index is None ==> self@ is None,
    {
        self.index
    }

    /// Selects the first row of a list of `len` rows, or none where it has
    /// no row.
    pub fn select_first(&mut self, len: usize)
        ensures
            final(self)@ == first_of(len as nat),
    {
        if len > 0 {
            self.index = Some(0);
        } else {
            self.index = None;
        }
    }

    /// Moves the selection one row down in a list of `len` rows; at the last
    /// row, and with no row selected, nothing changes.
    pub fn select_next(&mut self, len: usize)
        ensures
            final(self)@ == next_of(old(self)@, len as nat),
    {
        if let Some(i) = self.index {
            if len > 0 && i < len - 1 {
                self.index = Some(i + 1);
            }
        }
    }

    /// Moves the selection one row up; at the first row, and with no row
    /// selected, nothing changes.
    pub fn select_previous(&mut self)
        ensures
            final(self)@ == previous_of(old(self)@),
    {
        if let Some(i) = self.index {
            if i > 0 {
                self.index = Some(i - 1);
            }
        }
    }

    /// The text of the selected row of `items`, or none where no row of it is
    /// selected.
    pub fn confirm(&self, items: &Vec<String>) -> (choice: Option<String>)
        ensures
            choice matches Some(s) ==> chosen(self@, texts(items@)) == Some(s@),
            choice is None ==> chosen(self@, texts(items@)) is None,
    {
        match self.index {
            Some(i) => {
                if i < items.len() {
                    Some(items[i].clone())
                } else {
                    None
                }
            },
            None => None,
        }
    }
}

} // verus!
