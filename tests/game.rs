use shapewar::game::{
    Events, Game, GameState, Input, FIRE_COOLDOWN, MIN_FIELD_H, PLAYER_SIZE, PROJECTILE_OFFSET,
    PROJECTILE_SIZE,
};
use shapewar::score::{parse_high_score, points, ScoreBoard};
use shapewar::shape::{advance_enemies, advance_projectiles, purge, Kind, Rect, Shape, UNIT};
use shapewar::spawn::{
    draw_enemy, make_enemy, roll_spawns, ENEMY_MAX_SIZE, ENEMY_MAX_SPEED, ENEMY_MIN_SIZE,
    ENEMY_MIN_SPEED, SPAWN_ROLLS,
};

const W: i64 = 800 * UNIT;
const H: i64 = 600 * UNIT;
const FRAME: i64 = 16_000;

fn shape(size_px: i64, speed: i64, x_px: i64, y_px: i64) -> Shape {
    Shape { size: size_px * UNIT, speed, x: x_px * UNIT, y: y_px * UNIT, collided: false }
}

fn start_input() -> Input {
    let mut i = Input::none();
    i.start = true;
    i
}

fn fire_input() -> Input {
    let mut i = Input::none();
    i.fire = true;
    i
}

fn playing_game(high: u32) -> Game {
    let mut g = Game::new(W, H, high, 0);
    let ev = g.step(0, 0, &start_input(), None);
    assert!(!ev.quit);
    assert_eq!(g.state, GameState::Playing);
    g
}

fn idle(g: &mut Game, now: i64) -> Events {
    g.step(FRAME, now, &Input::none(), None)
}

#[test]
fn enemy_falls_by_speed_times_dt() {
    let mut e = shape(20, 120, 50, 10);
    e.fall(16_667);
    assert_eq!(e.y, 10 * UNIT + 120 * 16_667);
    let mut v = vec![shape(20, 50, 50, 10), shape(30, 150, 70, -30)];
    advance_enemies(&mut v, 1_000);
    assert_eq!(v[0].y, 10 * UNIT + 50_000);
    assert_eq!(v[1].y, -30 * UNIT + 150_000);
    assert_eq!(v[1].x, 70 * UNIT);
}

#[test]
fn enemy_does_not_move_when_dt_is_zero() {
    let mut e = shape(20, 120, 50, 10);
    e.fall(0);
    assert_eq!(e.y, 10 * UNIT);
}

#[test]
fn projectile_rises_by_speed_times_dt() {
    let mut p = shape(32, 400, 50, 300);
    p.rise(10_000);
    assert_eq!(p.y, 300 * UNIT - 4_000_000);
    let mut v = vec![shape(32, 400, 50, 300)];
    advance_projectiles(&mut v, 10_000);
    assert_eq!(v[0].y, 300 * UNIT - 4_000_000);
}

#[test]
fn collision_is_symmetric() {
    let pairs = [
        (shape(32, 0, 100, 100), shape(16, 0, 120, 110)),
        (shape(32, 0, 100, 100), shape(16, 0, 200, 100)),
        (shape(64, 0, 10, 10), shape(16, 0, 50, 50)),
        (shape(20, 0, 0, 0), shape(20, 0, 20, 0)),
    ];
    for (a, b) in pairs.iter() {
        assert_eq!(a.collides_with(b), b.collides_with(a));
    }
}

#[test]
fn squares_far_apart_never_collide() {
    let a = shape(32, 0, 100, 100);
    // (32 + 16) / 2 = 24 pixels is the touching distance.
    assert!(!a.collides_with(&shape(16, 0, 125, 100)));
    assert!(!a.collides_with(&shape(16, 0, 100, 75)));
    assert!(a.collides_with(&shape(16, 0, 124, 100)));
    // Touching edges count as a collision.
    assert!(a.collides_with(&shape(16, 0, 100, 124)));
}

#[test]
fn odd_sizes_collide_exactly_at_half_sums() {
    let a = Shape { size: 3, speed: 0, x: 0, y: 0, collided: false };
    let b = Shape { size: 4, speed: 0, x: 4, y: 0, collided: false };
    // 2 * 4 = 8 > 3 + 4: apart.
    assert!(!a.collides_with(&b));
    let c = Shape { size: 5, speed: 0, x: 4, y: 0, collided: false };
    // 2 * 4 = 8 <= 3 + 5: touching.
    assert!(c.collides_with(&a));
}

#[test]
fn rect_uses_doubled_edges() {
    let r = shape(32, 0, 100, 50).rect();
    assert_eq!(
        r,
        Rect { left: 168 * UNIT, top: 68 * UNIT, right: 232 * UNIT, bottom: 132 * UNIT }
    );
    let s = Rect { left: 232 * UNIT, top: 0, right: 300 * UNIT, bottom: 68 * UNIT };
    assert!(r.overlaps(&s));
    assert!(s.overlaps(&r));
    let t = Rect { left: 233 * UNIT, top: 0, right: 300 * UNIT, bottom: 68 * UNIT };
    assert!(!r.overlaps(&t));
}

#[test]
fn firing_within_cooldown_yields_one_projectile() {
    let mut g = playing_game(0);
    let ev = g.step(FRAME, 1_000_000, &fire_input(), None);
    assert!(ev.fired);
    assert_eq!(g.projectiles.len(), 1);
    let ev = g.step(FRAME, 1_000_000 + FIRE_COOLDOWN, &fire_input(), None);
    assert!(!ev.fired);
    assert_eq!(g.projectiles.len(), 1);
    let ev = g.step(FRAME, 1_000_001 + FIRE_COOLDOWN, &fire_input(), None);
    assert!(ev.fired);
    assert_eq!(g.projectiles.len(), 2);
    assert_eq!(g.last_shot, 1_000_001 + FIRE_COOLDOWN);
}

#[test]
fn projectile_starts_above_player_at_twice_its_speed() {
    let mut g = playing_game(0);
    let ev = g.step(0, 2_000_000, &fire_input(), None);
    assert!(ev.fired);
    let p = g.projectiles[0];
    assert_eq!(p.x, W / 2);
    assert_eq!(p.y, H / 2 - PROJECTILE_OFFSET);
    assert_eq!(p.speed, 400);
    assert_eq!(p.size, PROJECTILE_SIZE);
}

#[test]
fn spawn_rate_is_about_five_percent() {
    // A fixed linear congruential stream of rolls in [0, 99).
    let mut state: u64 = 12345;
    let frames = 100_000;
    let mut spawned = 0;
    for _ in 0..frames {
        state = state.wrapping_mul(6364136223846793005).wrapping_add(1442695040888963407);
        let roll = ((state >> 33) % (SPAWN_ROLLS as u64)) as i64;
        if roll_spawns(roll) {
            spawned += 1;
        }
    }
    let rate = spawned as f64 / frames as f64;
    assert!(rate > 0.03 && rate < 0.06, "rate {}", rate);
}

#[test]
fn roll_threshold() {
    assert!(!roll_spawns(0));
    assert!(!roll_spawns(94));
    assert!(roll_spawns(95));
    assert!(roll_spawns(98));
}

#[test]
fn drawn_enemies_stay_in_their_ranges() {
    let mut seen = 0;
    for _ in 0..3_000 {
        if let Some(e) = draw_enemy(ENEMY_MAX_SIZE) {
            seen += 1;
            assert!(e.size >= ENEMY_MIN_SIZE && e.size < ENEMY_MAX_SIZE);
            assert!(e.speed >= ENEMY_MIN_SPEED && e.speed < ENEMY_MAX_SPEED);
            assert!(e.x >= e.size / 2 && e.x < ENEMY_MAX_SIZE - e.size / 2);
            assert_eq!(e.y, -e.size);
            assert!(!e.collided);
        }
    }
    assert!(seen > 0);
}

#[test]
fn made_enemy_starts_above_field() {
    let e = make_enemy(20 * UNIT, 60, 100 * UNIT, W);
    assert_eq!(e, shape(20, 60, 100, -20));
}

#[test]
fn start_from_main_menu_resets_the_run() {
    let mut g = Game::new(W, H, 7, 0);
    g.enemies.push(shape(20, 50, 10, 10));
    g.projectiles.push(shape(32, 400, 10, 10));
    g.scores.score = 5;
    g.player.x = 40 * UNIT;
    let ev = g.step(FRAME, 0, &start_input(), None);
    assert_eq!(g.state, GameState::Playing);
    assert!(g.enemies.is_empty());
    assert!(g.projectiles.is_empty());
    assert_eq!(g.scores.score, 0);
    assert_eq!(g.scores.high_score, 7);
    assert_eq!(g.player.x, W / 2);
    assert_eq!(g.player.y, H / 2);
    assert!(!ev.fired && !ev.player_destroyed && ev.save_high_score.is_none());
}

#[test]
fn quit_in_main_menu_only() {
    let mut g = Game::new(W, H, 0, 0);
    let mut i = Input::none();
    i.quit = true;
    i.start = true;
    let ev = g.step(FRAME, 0, &i, None);
    assert!(ev.quit);
    assert_eq!(g.state, GameState::MainMenu);
    let mut g = playing_game(0);
    let mut q = Input::none();
    q.quit = true;
    let ev = g.step(FRAME, 0, &q, None);
    assert!(!ev.quit);
    assert_eq!(g.state, GameState::Playing);
}

#[test]
fn enemy_on_player_ends_the_run() {
    let mut g = playing_game(0);
    g.enemies.push(shape(32, 50, 400, 300));
    let ev = idle(&mut g, 100_000);
    assert!(ev.player_destroyed);
    assert_eq!(g.state, GameState::GameOver);
}

#[test]
fn tied_high_score_is_stored_and_reloaded() {
    let mut g = playing_game(10);
    g.scores.score = 10;
    g.enemies.push(shape(32, 50, 400, 300));
    let ev = idle(&mut g, 100_000);
    assert_eq!(g.state, GameState::GameOver);
    assert_eq!(ev.save_high_score, Some(10));
    assert!(g.new_high_score);
    let stored = 10u32.to_string();
    let reloaded = Game::new(W, H, parse_high_score(stored.as_bytes()), 0);
    assert_eq!(reloaded.scores.high_score, 10);
}

#[test]
fn lower_score_is_not_stored() {
    let mut g = playing_game(10);
    g.scores.score = 4;
    g.enemies.push(shape(32, 50, 400, 300));
    let ev = idle(&mut g, 100_000);
    assert_eq!(g.state, GameState::GameOver);
    assert_eq!(ev.save_high_score, None);
    assert!(!g.new_high_score);
}

#[test]
fn odd_enemy_size_scores_one_less() {
    let mut g = playing_game(0);
    g.enemies.push(shape(7, 0, 100, 100));
    g.projectiles.push(shape(32, 400, 100, 100));
    let ev = idle(&mut g, 100_000);
    assert_eq!(ev.destroyed.len(), 1);
    assert_eq!(g.scores.score, 6);
    assert_eq!(g.scores.high_score, 6);
    assert_eq!(g.state, GameState::Playing);
}

#[test]
fn points_round_then_halve() {
    assert_eq!(points(7 * UNIT), 6);
    assert_eq!(points(8 * UNIT), 8);
    assert_eq!(points(7_499_999), 6);
    assert_eq!(points(7_500_000), 8);
    assert_eq!(points(63_600_000), 64);
    assert_eq!(points(1), 0);
}

#[test]
fn scoreboard_adds_and_lifts_high_score() {
    let mut b = ScoreBoard::new(10);
    b.add_enemy(7 * UNIT);
    assert_eq!((b.score, b.high_score), (6, 10));
    b.add_enemy(9 * UNIT);
    assert_eq!((b.score, b.high_score), (14, 14));
    assert!(b.is_record());
    b.reset();
    assert_eq!((b.score, b.high_score), (0, 14));
    let mut full = ScoreBoard { score: u32::MAX - 1, high_score: u32::MAX - 1 };
    full.add_enemy(64 * UNIT);
    assert_eq!(full.score, u32::MAX);
    assert_eq!(full.high_score, u32::MAX);
}

#[test]
fn collided_entities_are_removed_one_frame_later() {
    let mut g = playing_game(0);
    g.enemies.push(shape(20, 0, 100, 100));
    g.projectiles.push(shape(32, 400, 100, 100));
    idle(&mut g, 100_000);
    assert_eq!(g.enemies.len(), 1);
    assert!(g.enemies[0].collided);
    assert_eq!(g.projectiles.len(), 1);
    assert!(g.projectiles[0].collided);
    idle(&mut g, 116_000);
    assert!(g.enemies.is_empty());
    assert!(g.projectiles.is_empty());
}

#[test]
fn an_enemy_is_matched_with_one_projectile_only() {
    let mut g = playing_game(0);
    g.enemies.push(shape(20, 0, 100, 100));
    g.projectiles.push(shape(32, 400, 100, 100));
    g.projectiles.push(shape(32, 400, 105, 100));
    let ev = idle(&mut g, 100_000);
    assert_eq!(ev.destroyed.len(), 1);
    assert!(g.projectiles[0].collided);
    assert!(!g.projectiles[1].collided);
    assert_eq!(g.scores.score, 20);
}

#[test]
fn enemies_are_purged_once_below_the_field() {
    let mut v = vec![
        shape(20, 0, 10, 609),
        shape(20, 0, 10, 610),
        shape(20, 0, 10, -20),
        shape(20, 0, 10, -21),
    ];
    purge(&mut v, H, Kind::Enemy);
    assert_eq!(v, vec![shape(20, 0, 10, 609), shape(20, 0, 10, -20)]);
}

#[test]
fn projectiles_are_purged_once_above_the_field() {
    let mut v = vec![
        shape(20, 400, 10, -10),
        shape(20, 400, 10, -11),
        shape(20, 400, 10, -15),
        shape(20, 400, 10, 300),
        shape(20, 400, 10, 610),
    ];
    purge(&mut v, H, Kind::Projectile);
    assert_eq!(v, vec![shape(20, 400, 10, -10), shape(20, 400, 10, 300)]);
}

#[test]
fn purge_drops_collided_and_keeps_order() {
    let mut hit = shape(20, 0, 30, 100);
    hit.collided = true;
    let mut v = vec![shape(20, 0, 10, 100), hit, shape(20, 0, 50, 200)];
    purge(&mut v, H, Kind::Enemy);
    assert_eq!(v, vec![shape(20, 0, 10, 100), shape(20, 0, 50, 200)]);
}

#[test]
fn projectile_leaving_the_top_no_longer_scores() {
    let mut g = playing_game(0);
    // Wholly above the field after this frame's move: purged before the pass.
    g.projectiles.push(shape(20, 400, 100, -5));
    g.enemies.push(shape(20, 0, 100, -20));
    let ev = idle(&mut g, 100_000);
    assert!(ev.destroyed.is_empty());
    assert!(g.projectiles.is_empty());
    assert_eq!(g.scores.score, 0);
}

#[test]
fn field_as_short_as_the_player() {
    let mut g = Game::new(W, MIN_FIELD_H, 0, 0);
    g.step(0, 0, &start_input(), None);
    let mut i = Input::none();
    i.down = true;
    g.step(FRAME, 1_000, &i, None);
    assert_eq!(g.player.y, PLAYER_SIZE / 2);
}

#[test]
fn spawned_enemy_joins_and_moves() {
    let mut g = playing_game(0);
    let e = make_enemy(20 * UNIT, 100, 50 * UNIT, W);
    idle(&mut g, 50_000);
    g.step(FRAME, 66_000, &Input::none(), Some(e));
    assert_eq!(g.enemies.len(), 1);
    assert_eq!(g.enemies[0].y, -20 * UNIT + 100 * FRAME);
}

#[test]
fn player_is_clamped_to_the_field() {
    let mut g = playing_game(0);
    let mut i = Input::none();
    i.left = true;
    i.up = true;
    g.step(10_000_000, 1_000, &i, None);
    assert_eq!(g.player.x, PLAYER_SIZE / 2);
    assert_eq!(g.player.y, PLAYER_SIZE / 2);
    let mut i = Input::none();
    i.right = true;
    g.step(FRAME, 2_000, &i, None);
    assert_eq!(g.player.x, PLAYER_SIZE / 2 + 200 * FRAME);
}

#[test]
fn pause_freezes_and_resumes() {
    let mut g = playing_game(0);
    g.enemies.push(shape(20, 100, 100, 100));
    let mut p = Input::none();
    p.pause = true;
    g.step(FRAME, 10_000, &p, None);
    assert_eq!(g.state, GameState::Paused);
    let y = g.enemies[0].y;
    g.step(FRAME, 20_000, &fire_input(), None);
    assert_eq!(g.enemies[0].y, y);
    assert!(g.projectiles.is_empty());
    g.step(FRAME, 30_000, &p, None);
    assert_eq!(g.state, GameState::Playing);
}

#[test]
fn restart_from_game_over_returns_to_menu() {
    let mut g = playing_game(0);
    g.enemies.push(shape(32, 50, 400, 300));
    idle(&mut g, 100_000);
    assert_eq!(g.state, GameState::GameOver);
    idle(&mut g, 200_000);
    assert_eq!(g.state, GameState::GameOver);
    let mut r = Input::none();
    r.restart = true;
    g.step(FRAME, 300_000, &r, None);
    assert_eq!(g.state, GameState::MainMenu);
}

#[test]
fn frame_outside_play_spawns_nothing() {
    let mut g = Game::new(W, H, 0, 0);
    for t in 0..200 {
        g.frame(FRAME, t * FRAME, &Input::none());
    }
    assert!(g.enemies.is_empty());
}

#[test]
fn parse_high_score_reads_unsigned_decimals() {
    assert_eq!(parse_high_score(b"10"), 10);
    assert_eq!(parse_high_score(b"+12"), 12);
    assert_eq!(parse_high_score(b"0"), 0);
    assert_eq!(parse_high_score(b"4294967295"), u32::MAX);
    assert_eq!(parse_high_score(b"4294967296"), 0);
    assert_eq!(parse_high_score(b"99999999999999999999"), 0);
    assert_eq!(parse_high_score(b""), 0);
    assert_eq!(parse_high_score(b"+"), 0);
    assert_eq!(parse_high_score(b"-1"), 0);
    assert_eq!(parse_high_score(b"12\n"), 0);
    assert_eq!(parse_high_score(b"1a"), 0);
}
