use brownian_motion::direction::Direction;
use brownian_motion::lattice::Lattice;
use brownian_motion::walker::walk_step;

#[test]
fn direction_predicates() {
    assert!(Direction::Left.is_left());
    assert!(!Direction::Left.is_right());
    assert!(Direction::Right.is_right());
    assert!(!Direction::Right.is_left());
}

#[test]
fn direction_next_interior() {
    assert_eq!(Direction::Left.next(5, 10), Some(4));
    assert_eq!(Direction::Right.next(5, 10), Some(6));
}

#[test]
fn direction_next_boundaries() {
    assert_eq!(Direction::Left.next(0, 10), None);
    assert_eq!(Direction::Right.next(9, 10), None);
    assert_eq!(Direction::Left.next(1, 10), Some(0));
    assert_eq!(Direction::Right.next(8, 10), Some(9));
    // A one-cell lattice rejects every move.
    assert_eq!(Direction::Left.next(0, 1), None);
    assert_eq!(Direction::Right.next(0, 1), None);
}

#[test]
fn initial_state_n10_k3() {
    // Scenario: N=10, K=3, queried immediately at start.
    let lat = Lattice::new(10, 3);
    assert_eq!(lat.snapshot(), vec![3, 0, 0, 0, 0, 0, 0, 0, 0, 0]);
    assert_eq!(lat.total(), 3);
}

#[test]
fn conservation_of_one_move() {
    let mut lat = Lattice::new(5, 4);
    let before = lat.snapshot();
    lat.apply_move(0, 1);
    let after = lat.snapshot();
    assert_eq!(after[0], before[0] - 1);
    assert_eq!(after[1], before[1] + 1);
    for j in 2..5 {
        assert_eq!(after[j], before[j]);
    }
    assert_eq!(lat.total(), 4);
}

#[test]
fn sum_stays_k_across_moves() {
    let mut lat = Lattice::new(6, 3);
    let mut positions = [0usize, 0, 0];
    let dirs = [
        Direction::Right,
        Direction::Right,
        Direction::Left,
        Direction::Right,
        Direction::Left,
        Direction::Right,
    ];
    for (t, dir) in dirs.iter().enumerate() {
        let w = t % positions.len();
        let (p, _) = walk_step(positions[w], *dir, &mut lat);
        positions[w] = p;
        // Every snapshot of a coordinated lattice sums to K, and every
        // occupancy count is non-negative (counts are unsigned).
        assert_eq!(lat.total(), 3);
        assert_eq!(lat.snapshot().iter().sum::<usize>(), 3);
    }
}

#[test]
fn boundary_rejection_left_edge() {
    let mut lat = Lattice::new(4, 2);
    let (pos, moved) = walk_step(0, Direction::Left, &mut lat);
    assert_eq!(pos, 0);
    assert!(!moved);
    assert_eq!(lat.snapshot(), vec![2, 0, 0, 0]);
}

#[test]
fn boundary_rejection_right_edge() {
    let mut lat = Lattice::new(3, 1);
    let (pos, moved) = walk_step(0, Direction::Right, &mut lat);
    assert_eq!((pos, moved), (1, true));
    let (pos, moved) = walk_step(pos, Direction::Right, &mut lat);
    assert_eq!((pos, moved), (2, true));
    // At index N-1 a "higher" move is silently dropped.
    let (pos, moved) = walk_step(pos, Direction::Right, &mut lat);
    assert_eq!((pos, moved), (2, false));
    assert_eq!(lat.snapshot(), vec![0, 0, 1]);
}

#[test]
fn boundary_saturation_n2_always_left() {
    // Scenario: N=2, K=1, p=1.0 — the walker starts at index 0 and every
    // tick draws "lower"; the occupancy never changes from [1, 0].
    let mut lat = Lattice::new(2, 1);
    let mut pos = 0usize;
    for _ in 0..50 {
        let (p, moved) = walk_step(pos, Direction::Left, &mut lat);
        assert!(!moved);
        assert_eq!(p, 0);
        pos = p;
        assert_eq!(lat.snapshot(), vec![1, 0]);
        assert_eq!(lat.total(), 1);
    }
}

#[test]
fn accepted_move_shifts_walker() {
    let mut lat = Lattice::new(10, 3);
    let (pos, moved) = walk_step(0, Direction::Right, &mut lat);
    assert!(moved);
    assert_eq!(pos, 1);
    assert_eq!(lat.snapshot(), vec![2, 1, 0, 0, 0, 0, 0, 0, 0, 0]);
    let (pos, moved) = walk_step(pos, Direction::Left, &mut lat);
    assert!(moved);
    assert_eq!(pos, 0);
    assert_eq!(lat.snapshot(), vec![3, 0, 0, 0, 0, 0, 0, 0, 0, 0]);
}

#[test]
fn lattice_len_reports_cells() {
    let lat = Lattice::new(7, 2);
    assert_eq!(lat.len(), 7);
    assert_eq!(lat.snapshot().len(), 7);
}
