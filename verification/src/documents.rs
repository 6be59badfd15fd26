//! Notebooks: a title, a time range and the cells.

use crate::notebooks::{cell_views, Cell, CellView};
use vstd::prelude::*;

verus! {

/// A time range that is relative to the moment at which it is looked at.
#[derive(Clone, Copy, Debug, PartialEq, Eq, Structural)]
pub struct RelativeTimeRange {
    /// The start of the range in minutes from now; negative for the past.
    pub minutes: i32,
}

impl RelativeTimeRange {
    /// The range between now and the given number of minutes from now.
    pub fn from_minutes(minutes: i32) -> (range: Self)
        ensures
            range.minutes == minutes,
    {
        RelativeTimeRange { minutes }
    }
}

/// The time range of a notebook that is to be created.
#[derive(Clone, Copy, Debug, PartialEq, Eq, Structural)]
pub enum NewTimeRange {
    Relative(RelativeTimeRange),
}

/// A notebook that is to be created.
#[derive(Debug)]
pub struct NewNotebook {
    pub title: String,
    pub cells: Vec<Cell>,
    pub time_range: NewTimeRange,
}

/// Who can see a notebook.
#[derive(Clone, Copy, Debug, PartialEq, Eq, Structural)]
pub enum NotebookVisibility {
    Private,
    Public,
}

impl Default for NotebookVisibility {
    fn default() -> (visibility: Self)
        ensures
            visibility == NotebookVisibility::Private,
    {
        NotebookVisibility::Private
    }
}

/// A notebook.
#[derive(Debug)]
pub struct Notebook {
    pub id: String,
    pub title: String,
    pub cells: Vec<Cell>,
    pub read_only: bool,
    pub revision: u32,
    pub visibility: NotebookVisibility,
}

impl Notebook {
    /// The cells of the notebook with their indices.
    pub fn all_relevant_cells(&self) -> (cells: Vec<(u32, Cell)>)
        requires
            self.cells@.len() <= u32::MAX,
        ensures
            cells@.len() == self.cells@.len(),
            forall|i: int|
                0 <= i < cells@.len() ==> (#[trigger] cells@[i]).0 == i && cells@[i].1@
                    == self.cells@[i]@,
    {
        let mut cells: Vec<(u32, Cell)> = Vec::new();
        let mut index: usize = 0;
        while index < self.cells.len()
            invariant
                index <= self.cells@.len() <= u32::MAX,
                cells@.len() == index,
                forall|i: int|
                    0 <= i < index ==> (#[trigger] cells@[i]).0 == i && cells@[i].1@
                        == self.cells@[i]@,
            decreases self.cells@.len() - index,
        {
            cells.push((index as u32, self.cells[index].clone()));
            index += 1;
        }
        cells
    }
}

impl Default for Notebook {
    fn default() -> (notebook: Self)
        ensures
            notebook.id@.len() == 0,
            notebook.title@.len() == 0,
            notebook.cells@.len() == 0,
            !notebook.read_only,
            notebook.revision == 0,
            notebook.visibility == NotebookVisibility::Private,
    {
        Notebook {
            id: String::new(),
            title: String::new(),
            cells: Vec::new(),
            read_only: false,
            revision: 0,
            visibility: NotebookVisibility::Private,
        }
    }
}

} // verus!
