//! The eight scan directions, in the fixed order that determines flip order.

use vstd::prelude::*;

verus! {

/// The `i`-th of the eight unit directions, in the fixed enumeration order
/// that every directional scan follows.
pub open spec fn dir_at(i: int) -> (int, int) {
    if i == 0 {
        (-1, -1)
    } else if i == 1 {
        (-1, 0)
    } else if i == 2 {
        (-1, 1)
    } else if i == 3 {
        (0, -1)
    } else if i == 4 {
        (0, 1)
    } else if i == 5 {
        (1, -1)
    } else if i == 6 {
        (1, 0)
    } else {
        (1, 1)
    }
}

/// The `k`-th unit direction as executable offsets.
pub fn direction_at(k: usize) -> (d: (isize, isize))
    requires
        k < 8,
    ensures
        d.0 as int == dir_at(k as int).0,
        d.1 as int == dir_at(k as int).1,
        -1 <= d.0 <= 1,
        -1 <= d.1 <= 1,
{
    match k {
        0 => (-1, -1),
        1 => (-1, 0),
        2 => (-1, 1),
        3 => (0, -1),
        4 => (0, 1),
        5 => (1, -1),
        6 => (1, 0),
        _ => (1, 1),
    }
}

/// A cursor over the eight unit directions, yielding them in the fixed order.
pub struct Directions {
    idx: usize,
}

impl Directions {
    /// How many directions have already been yielded.
    pub closed spec fn position(&self) -> int {
        self.idx as int
    }

    /// A cursor standing before the first direction.
    pub fn new() -> (d: Directions)
        ensures
            d.position() == 0,
    {
        Directions { idx: 0 }
    }

    /// The next direction in the fixed order, or `None` when all eight
    /// have been yielded.
    pub fn next(&mut self) -> (r: Option<(isize, isize)>)
        ensures
            old(self).position() < 8 ==> {
                &&& r matches Some(d) && d.0 as int == dir_at(old(self).position()).0 && d.1
                    as int == dir_at(old(self).position()).1
                &&& final(self).position() == old(self).position() + 1
            },
            old(self).position() >= 8 ==> r is None && final(self).position() == old(
                self,
            ).position(),
    {
        if self.idx < 8 {
            let d = direction_at(self.idx);
            self.idx = self.idx + 1;
            Some(d)
        } else {
            None
        }
    }
}

} // verus!
