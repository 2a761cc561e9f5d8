//! The two directions a walker can attempt to move in on each tick.

use vstd::prelude::*;

verus! {

/// A walker's choice of neighbouring cell for one move attempt.
#[derive(Debug, Clone, Copy, PartialEq, Eq)]
pub enum Direction {
    Left,
    Right,
}

impl Direction {
    /// Returns `true` if the direction is [`Left`].
    ///
    /// [`Left`]: Direction::Left
    #[must_use]
    pub fn is_left(&self) -> (r: bool)
        ensures
            r == (*self is Left),
    {
        matches!(self, Self::Left)
    }

    /// Returns `true` if the direction is [`Right`].
    ///
    /// [`Right`]: Direction::Right
    #[must_use]
    pub fn is_right(&self) -> (r: bool)
        ensures
            r == (*self is Right),
    {
        matches!(self, Self::Right)
    }

    /// The target cell of a move from cell `i` on a lattice of `max` cells,
    /// or `None` when the move would leave the valid range `[0, max)` and is
    /// therefore rejected at the boundary.
    pub fn next(self, i: usize, max: usize) -> (r: Option<usize>)
        requires
            i < max,
        ensures
            self is Left ==> (if i >= 1 {
                r == Some((i - 1) as usize)
            } else {
                r is None
            }),
            self is Right ==> (if i + 1 < max {
                r == Some((i + 1) as usize)
            } else {
                r is None
            }),
            r matches Some(j) ==> j < max,
    {
        match self {
            Self::Left => i.checked_sub(1),
            Self::Right => if i < max - 1 {
                Some(i + 1)
            } else {
                None
            },
        }
    }
}

} // verus!
