//! References to a cell that is only to be read.
use std::sync::Arc;

use crossbeam::atomic::AtomicCell;
use vstd::prelude::*;

use crate::atomic::late_load;
use crate::epoch::Glance;
use crate::sync::{downgrade, WeakRef};

verus! {

/// A weak reference to a cell that is only to be read.
///
/// The reference itself is private, so that whoever has it can look at what the cell holds, and
/// not store anything in it.
#[verifier::reject_recursive_types(T)]
pub struct CellLink<T: Copy> {
    reference: WeakRef<AtomicCell<T>>,
}

/// A cell that is only to be read.
#[verifier::reject_recursive_types(T)]
pub struct CellView<T: Copy> {
    cell: Arc<AtomicCell<T>>,
}

impl<T: Copy> CellLink<T> {
    /// The weak reference to the cell.
    pub closed spec fn reference(self) -> WeakRef<AtomicCell<T>> {
        self.reference
    }

    /// A reference to the cell.
    pub(crate) fn to(cell: &Arc<AtomicCell<T>>) -> (link: Self)
        ensures
            link.reference().target() == *cell,
        opens_invariants none
    {
        CellLink { reference: downgrade(cell) }
    }

    /// The cell, or `None` once its last owner is gone.
    pub(crate) fn find(&self) -> (found: Option<CellView<T>>)
        ensures
            self.reference().gives(CellView::cell_of(found)),
        opens_invariants none
    {
        match self.reference.find() {
            Some(cell) => Some(CellView { cell }),
            None => None,
        }
    }
}

impl<T: Copy> Clone for CellLink<T> {
    fn clone(&self) -> (copy: Self)
        ensures
            copy == *self,
    {
        CellLink { reference: self.reference.clone() }
    }
}

impl<T: Copy> CellView<T> {
    /// The cell itself.
    pub closed spec fn cell(self) -> Arc<AtomicCell<T>> {
        self.cell
    }

    /// The cell of what was found, if anything was.
    pub open spec fn cell_of(found: Option<Self>) -> Option<Arc<AtomicCell<T>>> {
        match found {
            Some(view) => Some(view.cell()),
            None => None,
        }
    }

    /// What the cell holds, after what the receipt is for.
    pub(crate) fn load_after(&self, receipt: Glance) -> (value: T)
        ensures
            crate::atomic::loads_after(*self.cell(), receipt, value),
        opens_invariants none
    {
        late_load(&self.cell, receipt)
    }
}

} // verus!
