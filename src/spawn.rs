use vstd::prelude::*;
use crate::shape::{Shape, UNIT};

verus! {

/// Enemy spawning rolls an integer in `[0, SPAWN_ROLLS)` each frame...
pub const SPAWN_ROLLS: i64 = 99;

/// ...and spawns one enemy when the roll is at least this.
pub const SPAWN_THRESHOLD: i64 = 95;

/// Enemy sizes are drawn from `[ENEMY_MIN_SIZE, ENEMY_MAX_SIZE)`.
pub const ENEMY_MIN_SIZE: i64 = 16 * UNIT;

pub const ENEMY_MAX_SIZE: i64 = 64 * UNIT;

/// Enemy speeds are drawn from `[ENEMY_MIN_SPEED, ENEMY_MAX_SPEED)`.
pub const ENEMY_MIN_SPEED: i64 = 50;

pub const ENEMY_MAX_SPEED: i64 = 150;

/// Relies on macroquad::rand::gen_range (quad-rand's): it computes
/// `low + (high - low) * u` in `f64` with `u = k / 2^32` for some `k < 2^32`,
/// and truncates. For integers that `f64` holds exactly the result is never
/// below `low` nor above `high`; it stays below `high` wherever `high - low` is
/// large enough against `high` that `f64` rounding cannot reach `high`
/// (`(high - low) * 2^20 >= high`). Which value comes depends on the
/// process-wide generator.
#[verifier::external_body]
fn random_between(low: i64, high: i64) -> (r: i64)
    requires
        0 <= low <= high <= 0x10_0000_0000_0000i64,
    ensures
        low <= r <= high,
        low < high && (high - low) * 0x10_0000 >= high ==> r < high,
{
    macroquad::rand::gen_range(low, high)
}

/// The roll spawns an enemy.
pub open spec fn spec_roll_spawns(roll: int) -> bool {
    roll >= SPAWN_THRESHOLD
}

pub fn roll_spawns(roll: i64) -> (r: bool)
    ensures
        r == spec_roll_spawns(roll as int),
{
    roll >= SPAWN_THRESHOLD
}

/// An enemy as spawning makes it on a field of this width: size, speed and
/// column from their half-open ranges, fully above the field, not collided.
pub open spec fn valid_spawn(e: Shape, field_w: int) -> bool {
    &&& ENEMY_MIN_SIZE <= e.size < ENEMY_MAX_SIZE
    &&& ENEMY_MIN_SPEED <= e.speed < ENEMY_MAX_SPEED
    &&& e.size / 2 <= e.x < field_w - e.size / 2
    &&& e.y == -e.size
    &&& !e.collided
}

/// The enemy for drawn size, speed and column: it starts fully above the field.
pub fn make_enemy(size: i64, speed: i64, x: i64, field_w: i64) -> (r: Shape)
    requires
        ENEMY_MIN_SIZE <= size < ENEMY_MAX_SIZE,
        ENEMY_MIN_SPEED <= speed < ENEMY_MAX_SPEED,
        size / 2 <= x < field_w - size / 2,
    ensures
        r == (Shape { size, speed, x, y: (-size) as i64, collided: false }),
        valid_spawn(r, field_w as int),
{
    Shape { size, speed, x, y: -size, collided: false }
}

/// One frame's spawn decision from the random generator: a roll, and where
/// it spawns, a size, a speed and then a column that keeps the enemy inside
/// the field's width (drawn as an offset from the leftmost column).
pub fn draw_enemy(field_w: i64) -> (r: Option<Shape>)
    requires
        ENEMY_MAX_SIZE <= field_w <= 0x10_0000_0000_0000i64,
    ensures
        r matches Some(e) ==> valid_spawn(e, field_w as int),
{
    let roll = random_between(0, SPAWN_ROLLS);
    if roll_spawns(roll) {
        let size = random_between(ENEMY_MIN_SIZE, ENEMY_MAX_SIZE);
        let speed = random_between(ENEMY_MIN_SPEED, ENEMY_MAX_SPEED);
        let offset = random_between(0, field_w - 2 * (size / 2));
        Some(make_enemy(size, speed, size / 2 + offset, field_w))
    } else {
        None
    }
}

} // verus!
