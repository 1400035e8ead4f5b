//! The selection and scroll offset of a list on screen.

use vstd::prelude::*;

verus! {

/// Which list item is selected, and the index of the first visible item.
#[derive(Clone, Copy, Debug, PartialEq, Eq)]
pub struct ListSelection {
    pub selected: Option<usize>,
    pub offset: usize,
}

/// The index selected by moving down from `selected`: the next one (saturating),
/// or the first when nothing is selected.
pub open spec fn next_index(selected: Option<usize>) -> usize {
    match selected {
        Some(i) => if i < usize::MAX { (i + 1) as usize } else { i },
        None => 0usize,
    }
}

/// The index selected by moving up from `selected`: the previous one (staying
/// on the first), or `usize::MAX`, standing for the last, when nothing is selected.
pub open spec fn previous_index(selected: Option<usize>) -> usize {
    match selected {
        Some(i) => if i > 0 { (i - 1) as usize } else { 0usize },
        None => usize::MAX,
    }
}

impl ListSelection {
    /// No selection, scrolled to the top.
    pub fn new() -> (r: Self)
        ensures
            r.selected is None,
            r.offset == 0,
    {
        ListSelection { selected: None, offset: 0 }
    }

    /// The same list state with the given selection.
    pub fn with_selected(self, selected: Option<usize>) -> (r: Self)
        ensures
            r.selected == selected,
            r.offset == self.offset,
    {
        ListSelection { selected, offset: self.offset }
    }

    /// The selected index, if any.
    pub fn selected(&self) -> (r: Option<usize>)
        ensures
            r == self.selected,
    {
        self.selected
    }

    /// Selects `index`; clearing the selection also scrolls back to the top.
    pub fn select(&mut self, index: Option<usize>)
        ensures
            final(self).selected == index,
            final(self).offset == (if index is None { 0 } else { old(self).offset }),
    {
        self.selected = index;
        if index.is_none() {
            self.offset = 0;
        }
    }

    /// Selects the item after the selected one, or the first when none is
    /// selected; the index saturates at `usize::MAX`.
    pub fn select_next(&mut self)
        ensures
            final(self).offset == old(self).offset,
            final(self).selected == Some(next_index(old(self).selected)),
    {
        let next = match self.selected {
            Some(i) => i.saturating_add(1),
            None => 0,
        };
        self.select(Some(next));
    }

    /// Selects the item before the selected one (staying on the first), or
    /// `usize::MAX`, which stands for the last item, when none is selected.
    pub fn select_previous(&mut self)
        ensures
            final(self).offset == old(self).offset,
            final(self).selected == Some(previous_index(old(self).selected)),
    {
        let previous = match self.selected {
            Some(i) => i.saturating_sub(1),
            None => usize::MAX,
        };
        self.select(Some(previous));
    }

    /// Selects the first item.
    pub fn select_first(&mut self)
        ensures
            final(self).offset == old(self).offset,
            final(self).selected == Some(0usize),
    {
        self.select(Some(0));
    }

    /// What drawing a list of `len` items does to the selection: an empty list
    /// clears it, and a selection past the end moves to the last item.
    pub fn fit_to(&mut self, len: usize)
        ensures
            len == 0 ==> final(self).selected is None && final(self).offset == 0,
            len > 0 ==> final(self).offset == old(self).offset,
            len > 0 ==> final(self).selected == match old(self).selected {
                Some(i) => Some(if i >= len { (len - 1) as usize } else { i }),
                None => None,
            },
    {
        if len == 0 {
            self.select(None);
            return;
        }
        if let Some(i) = self.selected {
            if i >= len {
                self.select(Some(len - 1));
            }
        }
    }
}

/// Moving down then up comes back to where the selection was, as long as it
/// was not on the largest index; moving up then down does too, from any
/// index but the first.
pub proof fn lemma_next_previous_round_trip(i: usize)
    ensures
        i < usize::MAX ==> previous_index(Some(next_index(Some(i)))) == i,
        i > 0 ==> next_index(Some(previous_index(Some(i)))) == i,
{
}

} // verus!
