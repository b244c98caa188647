use vstd::prelude::*;

verus! {

/// A vector that has another number of components than the place it was
/// meant for.
#[derive(Clone, Copy, Debug, PartialEq, Eq, Structural)]
pub struct DimensionMismatch {
    /// The number of components that was offered.
    pub actual: usize,
    /// The number of components that was called for.
    pub expected: usize,
}

/// What comes of offering `actual` components where `expected` are called
/// for: nothing when the two agree, else the mismatch with both sizes.
pub open spec fn mismatch_of(actual: usize, expected: usize) -> Option<DimensionMismatch> {
    if actual == expected {
        None
    } else {
        Some(DimensionMismatch { actual, expected })
    }
}

/// Compares a size that was offered with the size that is called for.
pub fn check_size(actual: usize, expected: usize) -> (r: Option<DimensionMismatch>)
    ensures
        r == mismatch_of(actual, expected),
{
    if actual == expected {
        None
    } else {
        Some(DimensionMismatch { actual, expected })
    }
}

/// The parameters of a function: a vector whose length is fixed when it is
/// made. It changes only as a whole, and only to a vector of the same length.
pub struct FunctionParameters<S> {
    vector: Vec<S>,
}

impl<S> View for FunctionParameters<S> {
    type V = Seq<S>;

    closed spec fn view(&self) -> Seq<S> {
        self.vector@
    }
}

impl<S> FunctionParameters<S> {
    pub fn new(vector: Vec<S>) -> (r: FunctionParameters<S>)
        ensures
            r@ == vector@,
    {
        FunctionParameters { vector }
    }

    pub fn vector(&self) -> (r: &Vec<S>)
        ensures
            r@ == self@,
    {
        &self.vector
    }

    /// Says whether a vector of `size` components may replace the stored one,
    /// and if not, reports both sizes.
    pub fn size_mismatch(&self, size: usize) -> (r: Option<DimensionMismatch>)
        ensures
            r == mismatch_of(size, self@.len() as usize),
    {
        check_size(size, self.vector.len())
    }

    /// Replaces the stored vector by one of the same length.
    pub fn set_vector(&mut self, new_vector: Vec<S>)
        requires
            new_vector@.len() == old(self)@.len(),
        ensures
            final(self)@ == new_vector@,
        no_unwind
    {
        self.vector = new_vector;
    }
}

} // verus!
