//! The entities that inhabit the arena: the player and its enemies.

use vstd::prelude::*;
use crate::geometry::{Position, COORD_LIMIT, RADIUS_LIMIT};

verus! {

/// Radius, in tenths of a world unit, that both entity kinds are built with.
pub const DEFAULT_RADIUS: i64 = 50;

/// An RGB colour triple.
#[derive(Clone, Copy, PartialEq, Eq, Structural, Debug)]
pub struct Color {
    pub red: u8,
    pub green: u8,
    pub blue: u8,
}

impl Color {
    /// The player's colour while alive.
    pub open spec fn white() -> Color {
        Color { red: 255, green: 255, blue: 255 }
    }

    /// The colour of every enemy.
    pub open spec fn red() -> Color {
        Color { red: 255, green: 0, blue: 0 }
    }

    /// The player's colour once dead.
    pub open spec fn black() -> Color {
        Color { red: 0, green: 0, blue: 0 }
    }
}

/// The entity the user steers.  It follows the pointer until it collides
/// with an enemy; then it turns black and stays inert until a reset.
#[derive(Clone, Copy, PartialEq, Eq, Structural, Debug)]
pub struct Player {
    pub position: Position,
    pub radius: i64,
    pub color: Color,
    pub alive: bool,
}

impl Player {
    /// Position and radius small enough for all arithmetic on them.
    pub open spec fn wf(self) -> bool {
        self.position.bounded(COORD_LIMIT as int) && 0 < self.radius <= RADIUS_LIMIT
    }
}

impl Default for Player {
    /// A live white player of the default radius at the origin.
    fn default() -> (p: Player)
        ensures
            p == (Player {
                position: Position { x: 0, y: 0 },
                radius: DEFAULT_RADIUS,
                color: Color::white(),
                alive: true,
            }),
    {
        Player {
            position: Position { x: 0, y: 0 },
            radius: DEFAULT_RADIUS,
            color: Color { red: 255, green: 255, blue: 255 },
            alive: true,
        }
    }
}

/// A hazard.  Enemies wander at random and kill the player on contact;
/// they never die themselves.
#[derive(Clone, Copy, PartialEq, Eq, Structural, Debug)]
pub struct Enemy {
    pub position: Position,
    pub radius: i64,
    pub color: Color,
    pub alive: bool,
}

impl Enemy {
    /// Position and radius small enough for all arithmetic on them.
    pub open spec fn wf(self) -> bool {
        self.position.bounded(COORD_LIMIT as int) && 0 < self.radius <= RADIUS_LIMIT
    }
}

impl Default for Enemy {
    /// A live red enemy of the default radius at the origin; callers place it.
    fn default() -> (e: Enemy)
        ensures
            e == (Enemy {
                position: Position { x: 0, y: 0 },
                radius: DEFAULT_RADIUS,
                color: Color::red(),
                alive: true,
            }),
    {
        Enemy {
            position: Position { x: 0, y: 0 },
            radius: DEFAULT_RADIUS,
            color: Color { red: 255, green: 0, blue: 0 },
            alive: true,
        }
    }
}

/// One circle of the per-frame drawable snapshot handed to the host.
#[derive(Clone, Copy, PartialEq, Eq, Structural, Debug)]
pub struct DrawCircle {
    pub position: Position,
    pub radius: i64,
    pub color: Color,
    pub alive: bool,
}

} // verus!
