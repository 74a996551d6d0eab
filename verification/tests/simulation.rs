use evasion::entity::{Color, Enemy, Player, DEFAULT_RADIUS};
use evasion::geometry::{Position, Rect};
use evasion::world::{
    controls, detect_collisions, draw_view, gameplay, handle_bounds, setup_world, update, Input,
    World, NUM_ENEMIES, SPAWN_BOUND,
};

fn arena() -> Rect {
    Rect { left: -2560, right: 2560, bottom: -2560, top: 2560 }
}

fn white() -> Color {
    Color { red: 255, green: 255, blue: 255 }
}

fn black() -> Color {
    Color { red: 0, green: 0, blue: 0 }
}

fn red() -> Color {
    Color { red: 255, green: 0, blue: 0 }
}

fn world_with_enemies(positions: &[(i64, i64)]) -> World {
    let enemies: Vec<Enemy> = positions
        .iter()
        .map(|&(x, y)| Enemy { position: Position { x, y }, ..Enemy::default() })
        .collect();
    World { player: Player::default(), enemies }
}

#[test]
fn entity_defaults() {
    let p = Player::default();
    assert_eq!(p.position, Position { x: 0, y: 0 });
    assert_eq!(p.radius, DEFAULT_RADIUS);
    assert_eq!(p.color, white());
    assert!(p.alive);
    let e = Enemy::default();
    assert_eq!(e.position, Position { x: 0, y: 0 });
    assert_eq!(e.radius, DEFAULT_RADIUS);
    assert_eq!(e.color, red());
    assert!(e.alive);
}

#[test]
fn spawn_policy() {
    // 500 enemies, each clear of the default player by twice its radius on
    // both axes, and all inside the 80% spawn square.
    let w = setup_world();
    assert!(w.player.alive);
    assert_eq!(w.enemies.len(), NUM_ENEMIES);
    for e in &w.enemies {
        assert!(e.position.x.abs() >= 2 * DEFAULT_RADIUS);
        assert!(e.position.y.abs() >= 2 * DEFAULT_RADIUS);
        assert!(e.position.x.abs() <= SPAWN_BOUND);
        assert!(e.position.y.abs() <= SPAWN_BOUND);
        assert_eq!(e.color, red());
        assert!(e.alive);
    }
}

#[test]
fn collision_kills_player() {
    // The enemy starts at (3, 3) world units; even after one random-walk
    // step of at most one unit it still overlaps a player at the origin.
    let mut w = world_with_enemies(&[(30, 30)]);
    let input = Input { pointer: Position { x: 0, y: 0 }, pressed: false, rect: arena() };
    update(&input, &mut w);
    assert!(!w.player.alive);
    assert_eq!(w.player.color, black());
}

#[test]
fn far_enemy_leaves_player_alone() {
    let mut w = world_with_enemies(&[(2000, 2000)]);
    let input = Input { pointer: Position { x: 0, y: 0 }, pressed: false, rect: arena() };
    update(&input, &mut w);
    assert!(w.player.alive);
    assert_eq!(w.player.color, white());
}

#[test]
fn player_follows_pointer() {
    let mut w = world_with_enemies(&[(2000, 2000)]);
    let input = Input { pointer: Position { x: 123, y: -456 }, pressed: false, rect: arena() };
    update(&input, &mut w);
    assert_eq!(w.player.position, Position { x: 123, y: -456 });
}

#[test]
fn random_walk_stays_close() {
    // A step from (10, 10) world units lands within [9, 11] x [9, 11].
    let mut w = world_with_enemies(&[(100, 100)]);
    let input = Input { pointer: Position { x: 0, y: 0 }, pressed: false, rect: arena() };
    gameplay(&input, &mut w);
    let p = w.enemies[0].position;
    assert!(90 <= p.x && p.x <= 110);
    assert!(90 <= p.y && p.y <= 110);
}

#[test]
fn boundary_clamps_all_entities() {
    // A pointer outside the arena is clamped; an enemy just outside ends up
    // exactly on the edge, whichever way its walk went.
    let rect = Rect { left: -500, right: 500, bottom: -500, top: 500 };
    let mut w = world_with_enemies(&[(700, -700)]);
    let input = Input { pointer: Position { x: 3000, y: -3000 }, pressed: false, rect };
    update(&input, &mut w);
    assert_eq!(w.player.position, Position { x: 500, y: -500 });
    assert_eq!(w.enemies[0].position, Position { x: 500, y: -500 });
}

#[test]
fn handle_bounds_exact() {
    let rect = Rect { left: -100, right: 100, bottom: -100, top: 100 };
    let mut w = world_with_enemies(&[(-300, 40), (0, 150)]);
    w.player.position = Position { x: 99, y: 101 };
    handle_bounds(&rect, &mut w);
    assert_eq!(w.player.position, Position { x: 99, y: 100 });
    assert_eq!(w.enemies[0].position, Position { x: -100, y: 40 });
    assert_eq!(w.enemies[1].position, Position { x: 0, y: 100 });
}

#[test]
fn detect_collisions_checks_every_enemy() {
    // The overlapping enemy is last; detection must still find it.
    let mut w = world_with_enemies(&[(2000, 2000), (-2000, 100), (20, -20)]);
    detect_collisions(&mut w);
    assert!(!w.player.alive);
    assert_eq!(w.player.color, black());
    // Enemies are untouched by detection.
    assert_eq!(w.enemies[2].position, Position { x: 20, y: -20 });
}

#[test]
fn dead_world_is_frozen() {
    // Without a reset press nothing moves and the player stays dead.
    let mut w = world_with_enemies(&[(300, 300)]);
    w.player.alive = false;
    w.player.color = black();
    let input = Input { pointer: Position { x: 50, y: 50 }, pressed: false, rect: arena() };
    update(&input, &mut w);
    assert!(!w.player.alive);
    assert_eq!(w.player.position, Position { x: 0, y: 0 });
    assert_eq!(w.enemies[0].position, Position { x: 300, y: 300 });
}

#[test]
fn reset_revives_atomically() {
    // A press while dead rebuilds the whole world: live default player, full
    // enemy count, spawn clearance holding afresh.
    let mut w = world_with_enemies(&[(10, 10)]);
    w.player.alive = false;
    w.player.color = black();
    let input = Input { pointer: Position { x: 50, y: 50 }, pressed: true, rect: arena() };
    update(&input, &mut w);
    assert!(w.player.alive);
    assert_eq!(w.player.color, white());
    assert_eq!(w.player.position, Position { x: 0, y: 0 });
    assert_eq!(w.enemies.len(), NUM_ENEMIES);
    for e in &w.enemies {
        assert!(e.position.x.abs() >= 2 * DEFAULT_RADIUS);
        assert!(e.position.y.abs() >= 2 * DEFAULT_RADIUS);
        assert!(e.position.x.abs() <= SPAWN_BOUND);
        assert!(e.position.y.abs() <= SPAWN_BOUND);
    }
}

#[test]
fn controls_do_nothing_while_alive() {
    let mut w = world_with_enemies(&[(300, 300)]);
    let input = Input { pointer: Position { x: 50, y: 50 }, pressed: true, rect: arena() };
    controls(&input, &mut w);
    assert!(w.player.alive);
    assert_eq!(w.enemies.len(), 1);
    assert_eq!(w.enemies[0].position, Position { x: 300, y: 300 });
}

#[test]
fn draw_view_snapshot() {
    let w = world_with_enemies(&[(300, -300), (-40, 60)]);
    let v = draw_view(&w);
    assert_eq!(v.len(), 3);
    assert_eq!(v[0].position, Position { x: 0, y: 0 });
    assert_eq!(v[0].radius, DEFAULT_RADIUS);
    assert_eq!(v[0].color, white());
    assert!(v[0].alive);
    assert_eq!(v[1].position, Position { x: 300, y: -300 });
    assert_eq!(v[1].color, red());
    assert_eq!(v[2].position, Position { x: -40, y: 60 });
}
