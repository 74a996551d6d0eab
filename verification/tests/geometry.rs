use evasion::geometry::{overlaps, Position, Rect};

#[test]
fn overlaps_example() {
    // Player at the origin, enemy at (3, 3) world units, both of radius 5:
    // |30| < 100 and |30| < 100 in tenths, so they overlap.
    let player = Position { x: 0, y: 0 };
    let enemy = Position { x: 30, y: 30 };
    assert!(overlaps(enemy, 50, player, 50));
}

#[test]
fn overlaps_is_strict() {
    // A centre difference exactly equal to the radius sum does not overlap.
    let a = Position { x: 0, y: 0 };
    let b = Position { x: 100, y: 0 };
    assert!(!overlaps(a, 50, b, 50));
    let c = Position { x: 99, y: 0 };
    assert!(overlaps(a, 50, c, 50));
}

#[test]
fn overlaps_needs_both_axes() {
    // Close on one axis but far on the other is no overlap.
    let a = Position { x: 0, y: 0 };
    let b = Position { x: 5, y: 500 };
    assert!(!overlaps(a, 50, b, 50));
}

#[test]
fn overlaps_symmetric_concrete() {
    let pairs = [
        (Position { x: 0, y: 0 }, 50, Position { x: 30, y: 30 }, 50),
        (Position { x: -10, y: 40 }, 30, Position { x: 120, y: -80 }, 70),
        (Position { x: 100, y: 0 }, 50, Position { x: 0, y: 0 }, 50),
        (Position { x: -2048, y: 2048 }, 10, Position { x: 2048, y: -2048 }, 10),
    ];
    for (a, ra, b, rb) in pairs {
        assert_eq!(overlaps(a, ra, b, rb), overlaps(b, rb, a, ra));
    }
}

#[test]
fn rect_fields() {
    let r = Rect { left: -2560, right: 2560, bottom: -2560, top: 2560 };
    assert_eq!(r.left, -2560);
    assert_eq!(r.top, 2560);
}
