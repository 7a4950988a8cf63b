//! The indices of a Python `slice`.

use vstd::prelude::*;

verus! {

/// The indices of a Python `slice`, with the number of items it selects.
#[derive(Clone, Copy, Debug, PartialEq, Eq, Structural)]
pub struct PySliceIndices {
    pub start: isize,
    pub stop: isize,
    pub step: isize,
    pub slicelength: isize,
}

impl PySliceIndices {
    /// Indices that have not been fitted to a sequence yet: the length is 0.
    pub fn new(start: isize, stop: isize, step: isize) -> (indices: PySliceIndices)
        ensures
            indices == (PySliceIndices { start, stop, step, slicelength: 0 }),
    {
        PySliceIndices { start, stop, step, slicelength: 0 }
    }

    /// What a query of the runtime for a slice's indices came to: the indices
    /// it wrote where it reported status 0, nothing where it raised an error.
    pub fn from_status(
        status: i32,
        start: isize,
        stop: isize,
        step: isize,
        slicelength: isize,
    ) -> (indices: Option<PySliceIndices>)
        ensures
            indices == if status == 0 {
                Some(PySliceIndices { start, stop, step, slicelength })
            } else {
                None
            },
    {
        if status == 0 {
            Some(PySliceIndices { start, stop, step, slicelength })
        } else {
            None
        }
    }
}

} // verus!
