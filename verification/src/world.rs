//! The world: the player, its enemies, and the rules that move them.
//!
//! The host drives one [`update`] per frame, handing in the pointer position,
//! whether the primary button is held, and the arena rectangle, and then reads
//! a drawable snapshot back with [`draw_view`].

use vstd::prelude::*;
use crate::entity::{Color, DrawCircle, Enemy, Player, DEFAULT_RADIUS};
use crate::geometry::{
    abs, clamp, clamp_to_rect, overlaps, overlaps_spec, Position, Rect, COORD_LIMIT, RADIUS_LIMIT,
};
use crate::rng::{random_flip, random_in_range};

verus! {

/// How many enemies a fresh world holds.
pub const NUM_ENEMIES: usize = 500;

/// Spawn coordinates are drawn from `[-SPAWN_BOUND, SPAWN_BOUND]` on each
/// axis: 80% of the arena's half extent of 256 world units, so that no enemy
/// starts flush against the boundary-clamp edge.
pub const SPAWN_BOUND: i64 = 2048;

/// Largest distance, per axis and per frame, that a random walk moves an
/// enemy: one world unit.
pub const WALK_STEP: i64 = 10;

/// Keeps track of all entities: the player and their enemies.
pub struct World {
    pub player: Player,
    pub enemies: Vec<Enemy>,
}

impl World {
    /// Every entity is well formed.
    pub open spec fn wf(self) -> bool {
        &&& self.player.wf()
        &&& forall|i: int| 0 <= i < self.enemies@.len() ==> (#[trigger] self.enemies@[i]).wf()
    }
}

/// What the host hands in each frame.
pub struct Input {
    /// Pointer position, already mapped into world coordinates.
    pub pointer: Position,
    /// Whether the primary button is currently held.
    pub pressed: bool,
    /// The arena's bounding rectangle.
    pub rect: Rect,
}

impl Input {
    /// The host pre-validates its input: a bounded pointer, a sane rectangle.
    pub open spec fn wf(self) -> bool {
        self.pointer.bounded(COORD_LIMIT as int) && self.rect.wf()
    }
}

/// The player a fresh world starts with.
pub open spec fn player_start() -> Player {
    Player {
        position: Position { x: 0, y: 0 },
        radius: DEFAULT_RADIUS,
        color: Color::white(),
        alive: true,
    }
}

/// There is room on both sides of `center` to place a point at least
/// `clearance` away without leaving `[-SPAWN_BOUND, SPAWN_BOUND]`.
pub open spec fn spawn_room(center: int, clearance: int) -> bool {
    -(SPAWN_BOUND as int) + clearance <= center <= SPAWN_BOUND as int - clearance
}

/// What the spawn policy guarantees of a freshly placed position: it lies in
/// the spawn square, and on every axis with room for it, it keeps a clearance
/// of twice the player's radius from the player.
pub open spec fn spawn_clear(pos: Position, player: Player) -> bool {
    &&& pos.bounded(SPAWN_BOUND as int)
    &&& spawn_room(player.position.x as int, 2 * player.radius) ==> abs(
        pos.x - player.position.x,
    ) >= 2 * player.radius
    &&& spawn_room(player.position.y as int, 2 * player.radius) ==> abs(
        pos.y - player.position.y,
    ) >= 2 * player.radius
}

/// An enemy as world construction leaves it.
pub open spec fn fresh_enemy(e: Enemy) -> bool {
    &&& e.radius == DEFAULT_RADIUS
    &&& e.color == Color::red()
    &&& e.alive
    &&& spawn_clear(e.position, player_start())
}

/// A world as construction (and reset) leaves it: the default player and
/// [`NUM_ENEMIES`] freshly placed enemies.
pub open spec fn fresh_world(w: World) -> bool {
    &&& w.player == player_start()
    &&& w.enemies@.len() == NUM_ENEMIES
    &&& forall|i: int| 0 <= i < w.enemies@.len() ==> fresh_enemy(#[trigger] w.enemies@[i])
}

/// Some enemy overlaps the player.
pub open spec fn any_overlap(w: World) -> bool {
    exists|i: int|
        0 <= i < w.enemies@.len() && overlaps_spec(
            (#[trigger] w.enemies@[i]).position,
            w.enemies@[i].radius as int,
            w.player.position,
            w.player.radius as int,
        )
}

/// How one random-walk step may change an enemy: each coordinate moves by at
/// most [`WALK_STEP`]; everything else stays.
pub open spec fn walk_step(before: Enemy, after: Enemy) -> bool {
    &&& after.radius == before.radius
    &&& after.color == before.color
    &&& after.alive == before.alive
    &&& abs(after.position.x - before.position.x) <= WALK_STEP as int
    &&& abs(after.position.y - before.position.y) <= WALK_STEP as int
}

/// Spawn-policy guarantee: in a fresh world, no enemy overlaps the player.
/// The clearance of twice the default radius equals the sum of the two radii,
/// and the overlap test needs a strictly smaller distance on both axes.
pub proof fn lemma_fresh_world_no_overlap(w: World)
    requires
        fresh_world(w),
    ensures
        forall|i: int|
            0 <= i < w.enemies@.len() ==> !overlaps_spec(
                (#[trigger] w.enemies@[i]).position,
                w.enemies@[i].radius as int,
                w.player.position,
                w.player.radius as int,
            ),
{
    assert forall|i: int| 0 <= i < w.enemies@.len() implies !overlaps_spec(
        (#[trigger] w.enemies@[i]).position,
        w.enemies@[i].radius as int,
        w.player.position,
        w.player.radius as int,
    ) by {
        assert(fresh_enemy(w.enemies@[i]));
    }
}

/// One spawn coordinate.  With `low_side` the value is drawn from the part of
/// the spawn interval below `center - clearance`, otherwise from the part
/// above `center + clearance`; an empty part collapses to its nearest
/// in-bounds point, so the result always lies in the spawn square, and keeps
/// the clearance whenever there is room for it.
fn spawn_coord(center: i64, clearance: i64, low_side: bool) -> (c: i64)
    requires
        -COORD_LIMIT <= center <= COORD_LIMIT,
        0 <= clearance <= 2 * RADIUS_LIMIT,
    ensures
        -SPAWN_BOUND <= c <= SPAWN_BOUND,
        spawn_room(center as int, clearance as int) ==> abs(c - center) >= clearance,
{
    if low_side {
        let mut hi: i64 = center - clearance;
        if hi > SPAWN_BOUND {
            hi = SPAWN_BOUND;
        }
        if hi < -SPAWN_BOUND {
            hi = -SPAWN_BOUND;
        }
        random_in_range(-SPAWN_BOUND, hi)
    } else {
        let mut lo: i64 = center + clearance;
        if lo < -SPAWN_BOUND {
            lo = -SPAWN_BOUND;
        }
        if lo > SPAWN_BOUND {
            lo = SPAWN_BOUND;
        }
        random_in_range(lo, SPAWN_BOUND)
    }
}

/// A random position for a new enemy, clear of the player as
/// [`spawn_clear`] states: on each axis a coin flip picks the side of the
/// player to draw from.
fn enemy_spawn_position(player: &Player) -> (pos: Position)
    requires
        player.wf(),
    ensures
        spawn_clear(pos, *player),
{
    let clearance: i64 = player.radius * 2;
    let x: i64 = spawn_coord(player.position.x, clearance, random_flip());
    let y: i64 = spawn_coord(player.position.y, clearance, random_flip());
    Position { x, y }
}

/// Builds a fresh world: the default player and [`NUM_ENEMIES`] enemies
/// scattered by the spawn policy.
pub fn setup_world() -> (w: World)
    ensures
        w.wf(),
        fresh_world(w),
{
    let player: Player = Player::default();
    let mut enemies: Vec<Enemy> = Vec::new();
    let mut i: usize = 0;
    while i < NUM_ENEMIES
        invariant
            i == enemies@.len() <= NUM_ENEMIES,
            player == player_start(),
            forall|j: int| 0 <= j < enemies@.len() ==> fresh_enemy(#[trigger] enemies@[j]),
        decreases NUM_ENEMIES - i,
    {
        let mut enemy: Enemy = Enemy::default();
        enemy.position = enemy_spawn_position(&player);
        enemies.push(enemy);
        i = i + 1;
    }
    let w = World { player, enemies };
    assert forall|j: int| 0 <= j < w.enemies@.len() implies (#[trigger] w.enemies@[j]).wf() by {
        assert(fresh_enemy(w.enemies@[j]));
    }
    w
}

/// Applies the user's control input: while the player is dead, a press of the
/// primary button replaces the whole world with a fresh one in a single
/// atomic swap; otherwise nothing changes.
pub fn controls(input: &Input, world: &mut World)
    ensures
        input.pressed && !old(world).player.alive ==> final(world).wf() && fresh_world(
            *final(world),
        ),
        !(input.pressed && !old(world).player.alive) ==> *final(world) == *old(world),
{
    if input.pressed && !world.player.alive {
        *world = setup_world();
    }
}

/// Moves everything for one live frame: the player's position becomes the
/// pointer position, and every enemy takes one random-walk step of at most
/// [`WALK_STEP`] per axis.  Nothing else changes.
pub fn gameplay(input: &Input, world: &mut World)
    requires
        input.wf(),
        old(world).wf(),
    ensures
        final(world).player == (Player { position: input.pointer, ..old(world).player }),
        final(world).enemies@.len() == old(world).enemies@.len(),
        forall|i: int|
            0 <= i < old(world).enemies@.len() ==> walk_step(
                old(world).enemies@[i],
                #[trigger] final(world).enemies@[i],
            ),
{
    world.player.position = input.pointer;
    let ghost orig: Seq<Enemy> = world.enemies@;
    let ghost moved_player: Player = world.player;
    let n: usize = world.enemies.len();
    let mut i: usize = 0;
    while i < n
        invariant
            i <= n == world.enemies@.len() == orig.len(),
            world.player == moved_player,
            forall|j: int| 0 <= j < orig.len() ==> (#[trigger] orig[j]).wf(),
            forall|j: int| 0 <= j < i ==> walk_step(orig[j], #[trigger] world.enemies@[j]),
            forall|j: int| i <= j < orig.len() ==> #[trigger] world.enemies@[j] == orig[j],
        decreases n - i,
    {
        let mut enemy: Enemy = world.enemies[i];
        enemy.position.x = random_in_range(enemy.position.x - WALK_STEP, enemy.position.x + WALK_STEP);
        enemy.position.y = random_in_range(enemy.position.y - WALK_STEP, enemy.position.y + WALK_STEP);
        world.enemies.set(i, enemy);
        i = i + 1;
    }
}

/// Tests every enemy against the player with the axis-aligned overlap test.
/// If any enemy overlaps, the player turns black and dies; otherwise the
/// player is untouched.  Enemies are never changed.
pub fn detect_collisions(world: &mut World)
    requires
        old(world).player.position.bounded(2 * COORD_LIMIT as int),
        0 < old(world).player.radius <= RADIUS_LIMIT,
        forall|i: int|
            0 <= i < old(world).enemies@.len() ==> (#[trigger] old(
                world,
            ).enemies@[i]).position.bounded(2 * COORD_LIMIT as int) && 0 < old(
                world,
            ).enemies@[i].radius <= RADIUS_LIMIT,
    ensures
        final(world).enemies@ == old(world).enemies@,
        final(world).player.position == old(world).player.position,
        final(world).player.radius == old(world).player.radius,
        any_overlap(*old(world)) ==> !final(world).player.alive && final(world).player.color
            == Color::black(),
        !any_overlap(*old(world)) ==> final(world).player == old(world).player,
{
    let ghost w0: World = *world;
    let n: usize = world.enemies.len();
    let mut i: usize = 0;
    while i < n
        invariant
            i <= n == world.enemies@.len(),
            world.enemies@ == w0.enemies@,
            world.player.position == w0.player.position,
            world.player.radius == w0.player.radius,
            w0.player.position.bounded(2 * COORD_LIMIT as int),
            0 < w0.player.radius <= RADIUS_LIMIT,
            forall|j: int|
                0 <= j < w0.enemies@.len() ==> (#[trigger] w0.enemies@[j]).position.bounded(
                    2 * COORD_LIMIT as int,
                ) && 0 < w0.enemies@[j].radius <= RADIUS_LIMIT,
            (exists|j: int|
                0 <= j < i && overlaps_spec(
                    (#[trigger] w0.enemies@[j]).position,
                    w0.enemies@[j].radius as int,
                    w0.player.position,
                    w0.player.radius as int,
                )) ==> !world.player.alive && world.player.color == Color::black(),
            !(exists|j: int|
                0 <= j < i && overlaps_spec(
                    (#[trigger] w0.enemies@[j]).position,
                    w0.enemies@[j].radius as int,
                    w0.player.position,
                    w0.player.radius as int,
                )) ==> world.player == w0.player,
        decreases n - i,
    {
        let enemy: Enemy = world.enemies[i];
        if overlaps(enemy.position, enemy.radius, world.player.position, world.player.radius) {
            world.player.color = Color { red: 0, green: 0, blue: 0 };
            world.player.alive = false;
        }
        i = i + 1;
    }
}

/// Clamps one position into the arena rectangle, axis by axis.
fn world_boundary(rect: &Rect, position: &mut Position)
    requires
        rect.wf(),
    ensures
        *final(position) == clamp_to_rect(*old(position), *rect),
{
    if position.y > rect.top {
        position.y = rect.top;
    }
    if position.y < rect.bottom {
        position.y = rect.bottom;
    }
    if position.x < rect.left {
        position.x = rect.left;
    }
    if position.x > rect.right {
        position.x = rect.right;
    }
}

/// Clamps the player and every enemy into the arena rectangle.  Positions are
/// moved by [`clamp_to_rect`]; all other fields stay.
pub fn handle_bounds(rect: &Rect, world: &mut World)
    requires
        rect.wf(),
    ensures
        final(world).player == (Player {
            position: clamp_to_rect(old(world).player.position, *rect),
            ..old(world).player
        }),
        final(world).enemies@.len() == old(world).enemies@.len(),
        forall|i: int|
            0 <= i < old(world).enemies@.len() ==> #[trigger] final(world).enemies@[i] == (Enemy {
                position: clamp_to_rect(old(world).enemies@[i].position, *rect),
                ..old(world).enemies@[i]
            }),
{
    let ghost orig: Seq<Enemy> = world.enemies@;
    let ghost clamped_player: Player = world.player;
    let mut player_pos: Position = world.player.position;
    world_boundary(rect, &mut player_pos);
    world.player.position = player_pos;
    let ghost new_player: Player = world.player;
    let n: usize = world.enemies.len();
    let mut i: usize = 0;
    while i < n
        invariant
            i <= n == world.enemies@.len() == orig.len(),
            rect.wf(),
            world.player == new_player,
            forall|j: int|
                0 <= j < i ==> #[trigger] world.enemies@[j] == (Enemy {
                    position: clamp_to_rect(orig[j].position, *rect),
                    ..orig[j]
                }),
            forall|j: int| i <= j < orig.len() ==> #[trigger] world.enemies@[j] == orig[j],
        decreases n - i,
    {
        let mut enemy: Enemy = world.enemies[i];
        let mut pos: Position = enemy.position;
        world_boundary(rect, &mut pos);
        enemy.position = pos;
        world.enemies.set(i, enemy);
        i = i + 1;
    }
}

/// What one frame does to a world whose player is alive: the player follows
/// the pointer (clamped into the arena), each enemy random-walks at most
/// [`WALK_STEP`] per axis and is clamped into the arena, and the player dies
/// and turns black exactly when its death shows; a surviving player keeps
/// its colour.
pub open spec fn live_frame(before: World, after: World, input: Input) -> bool {
    &&& after.player.position == clamp_to_rect(input.pointer, input.rect)
    &&& input.rect.contains(after.player.position)
    &&& after.player.radius == before.player.radius
    &&& (after.player.alive ==> after.player.color == before.player.color)
    &&& (!after.player.alive ==> after.player.color == Color::black())
    &&& after.enemies@.len() == before.enemies@.len()
    &&& forall|i: int|
        0 <= i < before.enemies@.len() ==> {
            let b = before.enemies@[i];
            let a = #[trigger] after.enemies@[i];
            &&& a.radius == b.radius
            &&& a.color == b.color
            &&& a.alive == b.alive
            &&& input.rect.contains(a.position)
            &&& clamp(b.position.x - WALK_STEP, input.rect.left as int, input.rect.right as int)
                <= a.position.x <= clamp(
                b.position.x + WALK_STEP,
                input.rect.left as int,
                input.rect.right as int,
            )
            &&& clamp(b.position.y - WALK_STEP, input.rect.bottom as int, input.rect.top as int)
                <= a.position.y <= clamp(
                b.position.y + WALK_STEP,
                input.rect.bottom as int,
                input.rect.top as int,
            )
        }
}

/// One frame of the simulation, in the fixed order: reset check, then — only
/// for a live player — movement, collision detection, and boundary clamping.
///
/// While the player is dead nothing moves: a frame without a press leaves the
/// world exactly as it was (so death is permanent until a reset), and a frame
/// with a press atomically replaces the world with a fresh one and does
/// nothing else.
pub fn update(input: &Input, world: &mut World)
    requires
        input.wf(),
        old(world).wf(),
    ensures
        final(world).wf(),
        !old(world).player.alive && input.pressed ==> fresh_world(*final(world)),
        !old(world).player.alive && !input.pressed ==> *final(world) == *old(world),
        // Death is monotonic: without a reset press, a dead player stays dead.
        !old(world).player.alive && !input.pressed ==> !final(world).player.alive,
        old(world).player.alive ==> live_frame(*old(world), *final(world), *input),
{
    if !world.player.alive {
        // A reset, when it happens, is the frame's only effect.
        controls(input, world);
        return ;
    }
    let ghost w0: World = *world;
    gameplay(input, world);
    let ghost walked: World = *world;
    assert forall|i: int| 0 <= i < walked.enemies@.len() implies
        (#[trigger] walked.enemies@[i]).position.bounded(2 * COORD_LIMIT as int) && 0
        < walked.enemies@[i].radius <= RADIUS_LIMIT by {
        assert(w0.enemies@[i].wf());
        assert(walk_step(w0.enemies@[i], walked.enemies@[i]));
    }
    detect_collisions(world);
    handle_bounds(&input.rect, world);
    assert forall|i: int| 0 <= i < world.enemies@.len() implies (#[trigger] world.enemies@[i]).wf()
    by {
        assert(w0.enemies@[i].wf());
        assert(walk_step(w0.enemies@[i], walked.enemies@[i]));
    }
    assert(live_frame(w0, *world, *input)) by {
        assert forall|i: int| 0 <= i < w0.enemies@.len() implies {
            let b = w0.enemies@[i];
            let a = #[trigger] world.enemies@[i];
            &&& a.radius == b.radius
            &&& a.color == b.color
            &&& a.alive == b.alive
            &&& input.rect.contains(a.position)
            &&& clamp(b.position.x - WALK_STEP, input.rect.left as int, input.rect.right as int)
                <= a.position.x <= clamp(
                b.position.x + WALK_STEP,
                input.rect.left as int,
                input.rect.right as int,
            )
            &&& clamp(b.position.y - WALK_STEP, input.rect.bottom as int, input.rect.top as int)
                <= a.position.y <= clamp(
                b.position.y + WALK_STEP,
                input.rect.bottom as int,
                input.rect.top as int,
            )
        } by {
            assert(walk_step(w0.enemies@[i], walked.enemies@[i]));
        }
    }
}

/// A point-in-time snapshot of everything drawable: the player first, then
/// every enemy in order, each as (position, radius, colour, alive).
pub fn draw_view(world: &World) -> (v: Vec<DrawCircle>)
    ensures
        v@.len() == world.enemies@.len() + 1,
        v@[0] == (DrawCircle {
            position: world.player.position,
            radius: world.player.radius,
            color: world.player.color,
            alive: world.player.alive,
        }),
        forall|i: int|
            0 <= i < world.enemies@.len() ==> v@[i + 1] == (DrawCircle {
                position: (#[trigger] world.enemies@[i]).position,
                radius: world.enemies@[i].radius,
                color: world.enemies@[i].color,
                alive: world.enemies@[i].alive,
            }),
{
    let mut v: Vec<DrawCircle> = Vec::new();
    v.push(
        DrawCircle {
            position: world.player.position,
            radius: world.player.radius,
            color: world.player.color,
            alive: world.player.alive,
        },
    );
    let n: usize = world.enemies.len();
    let mut i: usize = 0;
    while i < n
        invariant
            i <= n == world.enemies@.len(),
            v@.len() == i + 1,
            v@[0] == (DrawCircle {
                position: world.player.position,
                radius: world.player.radius,
                color: world.player.color,
                alive: world.player.alive,
            }),
            forall|j: int|
                0 <= j < i ==> v@[j + 1] == (DrawCircle {
                    position: (#[trigger] world.enemies@[j]).position,
                    radius: world.enemies@[j].radius,
                    color: world.enemies@[j].color,
                    alive: world.enemies@[j].alive,
                }),
        decreases n - i,
    {
        let enemy: Enemy = world.enemies[i];
        v.push(
            DrawCircle {
                position: enemy.position,
                radius: enemy.radius,
                color: enemy.color,
                alive: enemy.alive,
            },
        );
        i = i + 1;
    }
    v
}

} // verus!
