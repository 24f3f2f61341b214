use crate::outcome::MergeAnalysisResult;
use vstd::prelude::*;

verus! {

/// The selection an interactive viewer moves through the matrix with:
/// `None` until a row is first selected, then the index of the selected row.
///
/// The terminal drawing itself is the caller's concern; this type only owns
/// the rows and the selection and how the selection moves.
pub struct App {
    pub selected: Option<usize>,
    pub items: Vec<MergeAnalysisResult>,
}

/// Where the selection lands after a step downward: the first row when
/// nothing is selected yet, the next row otherwise, wrapping from the last
/// row back to the first.
pub open spec fn next_selection(selected: Option<usize>, len: nat) -> Option<usize> {
    match selected {
        None => Some(0usize),
        Some(i) => if i + 1 >= len {
            Some(0usize)
        } else {
            Some((i + 1) as usize)
        },
    }
}

/// Where the selection lands after a step upward: the first row when nothing
/// is selected yet, the previous row otherwise, wrapping from the first row
/// back to the last.
pub open spec fn previous_selection(selected: Option<usize>, len: nat) -> Option<usize> {
    match selected {
        None => Some(0usize),
        Some(i) => if i == 0 {
            Some((len - 1) as usize)
        } else {
            Some((i - 1) as usize)
        },
    }
}

impl App {
    /// Starts a viewer on the given rows with nothing selected.
    pub fn new(answer: Vec<MergeAnalysisResult>) -> (app: App)
        ensures
            app.selected is None,
            app.items == answer,
    {
        App { selected: None, items: answer }
    }

    /// Moves the selection one row down, wrapping around at the end. On an
    /// empty matrix the selection is left untouched.
    pub fn next(&mut self)
        ensures
            final(self).items == old(self).items,
            old(self).items@.len() == 0 ==> final(self).selected == old(self).selected,
            old(self).items@.len() > 0 ==> final(self).selected == next_selection(
                old(self).selected,
                old(self).items@.len(),
            ),
    {
        if self.items.len() == 0 {
            return ;
        }
        let i: usize = match self.selected {
            Some(i) => {
                if i >= self.items.len() - 1 {
                    0
                } else {
                    i + 1
                }
            },
            None => 0,
        };
        self.selected = Some(i);
    }

    /// Moves the selection one row up, wrapping around at the start. On an
    /// empty matrix the selection is left untouched.
    pub fn previous(&mut self)
        ensures
            final(self).items == old(self).items,
            old(self).items@.len() == 0 ==> final(self).selected == old(self).selected,
            old(self).items@.len() > 0 ==> final(self).selected == previous_selection(
                old(self).selected,
                old(self).items@.len(),
            ),
    {
        if self.items.len() == 0 {
            return ;
        }
        let i: usize = match self.selected {
            Some(i) => {
                if i == 0 {
                    self.items.len() - 1
                } else {
                    i - 1
                }
            },
            None => 0,
        };
        self.selected = Some(i);
    }

    /// The currently selected row index, if any.
    pub fn selected(&self) -> (r: Option<usize>)
        ensures
            r == self.selected,
    {
        self.selected
    }
}

} // verus!
