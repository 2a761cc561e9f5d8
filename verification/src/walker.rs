//! The per-tick step rule of a single walker: draw a direction, reject moves
//! that would leave the lattice, otherwise shift one walker to the adjacent
//! cell.

use vstd::prelude::*;
use crate::direction::Direction;
use crate::lattice::{moved_counts, Lattice};

verus! {

/// One move attempt of the walker standing at cell `pos`, in direction `dir`.
///
/// Returns the walker's new position and whether the move was accepted. A
/// move off either end of the lattice is silently rejected — the position and
/// the lattice stay exactly as they were, not a reflection. An accepted move
/// shifts the walker to the adjacent cell and applies the paired count
/// update; only accepted moves count as transitions.
pub fn walk_step(pos: usize, dir: Direction, lattice: &mut Lattice) -> (r: (usize, bool))
    requires
        old(lattice).wf(),
        pos < old(lattice).counts_seq().len(),
        old(lattice).counts_seq()[pos as int] >= 1,
    ensures
        final(lattice).wf(),
        final(lattice).counts_seq().len() == old(lattice).counts_seq().len(),
        final(lattice).walker_count() == old(lattice).walker_count(),
        r.0 < final(lattice).counts_seq().len(),
        final(lattice).counts_seq()[r.0 as int] >= 1,
        // Boundary policy: a move off either end is rejected and nothing changes.
        dir is Left && pos == 0 ==> !r.1,
        dir is Right && pos + 1 == old(lattice).counts_seq().len() ==> !r.1,
        !r.1 ==> r.0 == pos && final(lattice).counts_seq() == old(lattice).counts_seq(),
        // An accepted move goes to the adjacent cell in the drawn direction.
        dir is Left && pos >= 1 ==> r.1 && r.0 == pos - 1,
        dir is Right && pos + 1 < old(lattice).counts_seq().len() ==> r.1 && r.0 == pos + 1,
        // Conservation: exactly the two cells involved change, by -1 and +1.
        r.1 ==> moved_counts(
            old(lattice).counts_seq(),
            final(lattice).counts_seq(),
            pos as int,
            r.0 as int,
        ),
{
    let cells = lattice.len();
    match dir.next(pos, cells) {
        Some(target) => {
            lattice.apply_move(pos, target);
            (target, true)
        },
        None => (pos, false),
    }
}

} // verus!
