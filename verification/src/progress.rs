//! The range of the UIKit progress bar, which the bar keeps itself since the
//! native view only knows a fraction.

use vstd::prelude::*;

verus! {

/// The range of a progress bar.
#[derive(Debug, Clone, Copy, PartialEq, Eq, Structural)]
pub struct ProgressRange {
    minimum: usize,
    maximum: usize,
}

impl ProgressRange {
    /// The lowest position.
    pub closed spec fn spec_minimum(self) -> usize {
        self.minimum
    }

    /// The highest position.
    pub closed spec fn spec_maximum(self) -> usize {
        self.maximum
    }

    /// The range of a new bar: from 0 to 100.
    pub fn new() -> (r: Self)
        ensures
            r.spec_minimum() == 0,
            r.spec_maximum() == 100,
    {
        ProgressRange { minimum: 0, maximum: 100 }
    }

    /// The lowest position.
    pub fn minimum(&self) -> (m: usize)
        ensures
            m == self.spec_minimum(),
    {
        self.minimum
    }

    /// The highest position.
    pub fn maximum(&self) -> (m: usize)
        ensures
            m == self.spec_maximum(),
    {
        self.maximum
    }

    /// Sets the lowest position; the highest is left as it is.
    pub fn set_minimum(&mut self, v: usize)
        ensures
            final(self).spec_minimum() == v,
            final(self).spec_maximum() == old(self).spec_maximum(),
    {
        self.minimum = v;
    }

    /// Sets the highest position, kept above the lowest one.
    pub fn set_maximum(&mut self, v: usize)
        requires
            old(self).spec_minimum() < usize::MAX,
        ensures
            final(self).spec_minimum() == old(self).spec_minimum(),
            final(self).spec_maximum() == (if v > old(self).spec_minimum() + 1 {
                v
            } else {
                (old(self).spec_minimum() + 1) as usize
            }),
            final(self).spec_maximum() > final(self).spec_minimum(),
    {
        let floor = self.minimum + 1;
        self.maximum = if v > floor { v } else { floor };
    }

    /// How far `pos` lies into the range, and how wide the range is: the
    /// bar shows the first over the second.
    pub fn offset_and_width(&self, pos: usize) -> (r: (usize, usize))
        requires
            self.spec_minimum() <= pos,
            self.spec_minimum() <= self.spec_maximum(),
        ensures
            r.0 == pos - self.spec_minimum(),
            r.1 == self.spec_maximum() - self.spec_minimum(),
    {
        (pos - self.minimum, self.maximum - self.minimum)
    }
}

} // verus!
