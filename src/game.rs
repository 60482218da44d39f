use vstd::prelude::*;
use crate::collide::{player_hit, resolve_hits, scored, spec_hits, spec_player_hit};
use crate::score::ScoreBoard;
use crate::shape::{
    advance_enemies, advance_projectiles, fallen_all, purge, purged, risen_all, Kind, Shape, MAX_DT,
    MAX_EXTENT, UNIT,
};
use crate::spawn::{draw_enemy, valid_spawn, ENEMY_MAX_SIZE};

verus! {

pub const PLAYER_SIZE: i64 = 32 * UNIT;

pub const PLAYER_SPEED: i64 = 200;

pub const PROJECTILE_SIZE: i64 = 32 * UNIT;

/// How far above the player's center a projectile appears.
pub const PROJECTILE_OFFSET: i64 = 24 * UNIT;

/// Time (in microseconds) that must pass, strictly, between two shots.
pub const FIRE_COOLDOWN: i64 = 500_000;

/// Smallest field width: the widest enemy fits across it.
pub const MIN_FIELD_W: i64 = ENEMY_MAX_SIZE;

/// Smallest field height: the player fits in it.
pub const MIN_FIELD_H: i64 = PLAYER_SIZE;

#[derive(Clone, Copy, Debug, PartialEq, Eq, Structural)]
pub enum GameState {
    MainMenu,
    Playing,
    Paused,
    GameOver,
}

/// One frame's input: movement actions held, and actions triggered this frame.
#[derive(Clone, Copy, Debug, PartialEq, Eq, Structural)]
pub struct Input {
    pub left: bool,
    pub right: bool,
    pub up: bool,
    pub down: bool,
    pub fire: bool,
    pub pause: bool,
    pub start: bool,
    pub restart: bool,
    pub quit: bool,
}

impl Input {
    /// No action at all.
    pub fn none() -> (r: Input)
        ensures
            !r.left && !r.right && !r.up && !r.down,
            !r.fire && !r.pause && !r.start && !r.restart && !r.quit,
    {
        Input {
            left: false,
            right: false,
            up: false,
            down: false,
            fire: false,
            pause: false,
            start: false,
            restart: false,
            quit: false,
        }
    }
}

/// What a step reports for the sound, effect and storage collaborators.
#[derive(Clone, Debug)]
pub struct Events {
    /// The quit action was taken in the main menu.
    pub quit: bool,
    /// A projectile was fired.
    pub fired: bool,
    /// Enemies destroyed by projectiles, as they stood when hit.
    pub destroyed: Vec<Shape>,
    /// The player collided with an enemy.
    pub player_destroyed: bool,
    /// The high score to store, when the run ends on it.
    pub save_high_score: Option<u32>,
}

/// The whole simulation: mode, field, entities, scores and shot timing.
#[derive(Clone, Debug)]
pub struct Game {
    pub state: GameState,
    pub field_w: i64,
    pub field_h: i64,
    pub player: Shape,
    pub enemies: Vec<Shape>,
    pub projectiles: Vec<Shape>,
    pub scores: ScoreBoard,
    /// Time of the last shot, in microseconds.
    pub last_shot: i64,
    /// The last run ended with its score equal to the high score.
    pub new_high_score: bool,
}

pub open spec fn clamp(v: int, lo: int, hi: int) -> int {
    if v < lo { lo } else if v > hi { hi } else { v }
}

/// The player after the held movement actions over `dt`, kept inside the field.
pub open spec fn spec_moved(p: Shape, input: Input, dt: int, w: int, h: int) -> Shape {
    let d = p.speed * dt;
    let x = p.x + (if input.right { d } else { 0 }) - (if input.left { d } else { 0 });
    let y = p.y + (if input.down { d } else { 0 }) - (if input.up { d } else { 0 });
    Shape {
        x: clamp(x, p.size / 2, w - p.size / 2) as i64,
        y: clamp(y, p.size / 2, h - p.size / 2) as i64,
        ..p
    }
}

/// A shot may be fired: strictly more than the cooldown since the last one.
pub open spec fn can_fire(now: int, last_shot: int) -> bool {
    now - last_shot > FIRE_COOLDOWN
}

/// The projectile fired from the player's position, at twice its speed.
pub open spec fn spec_projectile(p: Shape) -> Shape {
    Shape {
        x: p.x,
        y: (p.y - PROJECTILE_OFFSET) as i64,
        speed: (p.speed * 2) as i64,
        size: PROJECTILE_SIZE,
        collided: false,
    }
}

/// The player at rest at the center of the field.
pub open spec fn centered_player(w: int, h: int) -> Shape {
    Shape {
        size: PLAYER_SIZE,
        speed: PLAYER_SPEED,
        x: (w / 2) as i64,
        y: (h / 2) as i64,
        collided: false,
    }
}

impl Game {
    pub open spec fn wf(self) -> bool {
        &&& MIN_FIELD_W <= self.field_w <= MAX_EXTENT
        &&& MIN_FIELD_H <= self.field_h <= MAX_EXTENT
        &&& self.player.size == PLAYER_SIZE
        &&& self.player.speed == PLAYER_SPEED
        &&& !self.player.collided
        &&& PLAYER_SIZE / 2 <= self.player.x <= self.field_w - PLAYER_SIZE / 2
        &&& PLAYER_SIZE / 2 <= self.player.y <= self.field_h - PLAYER_SIZE / 2
        &&& forall|i: int| 0 <= i < self.enemies@.len() ==> (#[trigger] self.enemies@[i]).wf()
        &&& forall|i: int|
            0 <= i < self.projectiles@.len() ==> (#[trigger] self.projectiles@[i]).wf()
        &&& self.scores.wf()
        &&& self.last_shot >= 0
    }

    /// The player after this frame's movement.
    pub open spec fn spec_player_next(self, input: Input, dt: int) -> Shape {
        spec_moved(self.player, input, dt, self.field_w as int, self.field_h as int)
    }

    /// A projectile is fired this frame.
    pub open spec fn spec_fires(self, input: Input, now: int) -> bool {
        input.fire && can_fire(now, self.last_shot as int)
    }

    /// Enemies after spawning, moving and the purge.
    pub open spec fn spec_enemies_moved(self, dt: int, spawn: Option<Shape>) -> Seq<Shape> {
        let es = match spawn {
            Some(e) => self.enemies@.push(e),
            None => self.enemies@,
        };
        purged(fallen_all(es, dt), self.field_h as int, Kind::Enemy)
    }

    /// Projectiles after firing, moving and the purge.
    pub open spec fn spec_projectiles_moved(self, input: Input, dt: int, now: int) -> Seq<Shape> {
        let ps = if self.spec_fires(input, now) {
            self.projectiles@.push(spec_projectile(self.spec_player_next(input, dt)))
        } else {
            self.projectiles@
        };
        purged(risen_all(ps, dt), self.field_h as int, Kind::Projectile)
    }

    /// The player collides with an enemy this frame.
    pub open spec fn spec_player_hit_now(self, input: Input, dt: int, spawn: Option<Shape>) -> bool {
        spec_player_hit(self.spec_player_next(input, dt), self.spec_enemies_moved(dt, spawn))
    }

    /// The projectile pass of this frame.
    pub open spec fn spec_pass(self, input: Input, dt: int, now: int, spawn: Option<Shape>) -> (
        Seq<Shape>,
        Seq<Shape>,
        Seq<Shape>,
    ) {
        spec_hits(self.spec_enemies_moved(dt, spawn), self.spec_projectiles_moved(input, dt, now))
    }

    /// A game in the main menu, on a field of the given size, with the stored
    /// high score; `now` is the current time.
    pub fn new(field_w: i64, field_h: i64, high_score: u32, now: i64) -> (r: Game)
        requires
            MIN_FIELD_W <= field_w <= MAX_EXTENT,
            MIN_FIELD_H <= field_h <= MAX_EXTENT,
            now >= 0,
        ensures
            r.wf(),
            r.state == GameState::MainMenu,
            r.field_w == field_w,
            r.field_h == field_h,
            r.player == centered_player(field_w as int, field_h as int),
            r.enemies@.len() == 0,
            r.projectiles@.len() == 0,
            r.scores.score == 0,
            r.scores.high_score == high_score,
            r.last_shot == now,
            !r.new_high_score,
    {
        Game {
            state: GameState::MainMenu,
            field_w,
            field_h,
            player: Shape {
                size: PLAYER_SIZE,
                speed: PLAYER_SPEED,
                x: field_w / 2,
                y: field_h / 2,
                collided: false,
            },
            enemies: Vec::new(),
            projectiles: Vec::new(),
            scores: ScoreBoard::new(high_score),
            last_shot: now,
            new_high_score: false,
        }
    }

    fn move_player(&mut self, input: &Input, dt: i64)
        requires
            old(self).wf(),
            0 <= dt <= MAX_DT,
        ensures
            final(self).player == old(self).spec_player_next(*input, dt as int),
            final(self).wf(),
            final(self).state == old(self).state,
            final(self).field_w == old(self).field_w,
            final(self).field_h == old(self).field_h,
            final(self).enemies == old(self).enemies,
            final(self).projectiles == old(self).projectiles,
            final(self).scores == old(self).scores,
            final(self).last_shot == old(self).last_shot,
            final(self).new_high_score == old(self).new_high_score,
    {
        assert(0 <= self.player.speed * dt <= PLAYER_SPEED * MAX_DT) by (nonlinear_arith)
            requires
                self.player.speed == PLAYER_SPEED,
                0 <= dt <= MAX_DT,
        ;
        let d = self.player.speed * dt;
        let mut x = self.player.x;
        let mut y = self.player.y;
        if input.right {
            x = x + d;
        }
        if input.left {
            x = x - d;
        }
        if input.down {
            y = y + d;
        }
        if input.up {
            y = y - d;
        }
        let half = self.player.size / 2;
        let x_max = self.field_w - half;
        let y_max = self.field_h - half;
        if x < half {
            x = half;
        } else if x > x_max {
            x = x_max;
        }
        if y < half {
            y = half;
        } else if y > y_max {
            y = y_max;
        }
        self.player.x = x;
        self.player.y = y;
    }

    /// `next` and `ev` are what a frame of play makes of `self`: the player
    /// moves, a shot is fired when the cooldown allows, `spawn` joins the
    /// enemies, everything moves and is purged, the player is tested against
    /// every enemy, then each projectile against each enemy, with scoring.
    /// A collision with the player ends the run, and stores the high score
    /// where the score equals it; otherwise a pause action pauses.
    pub open spec fn played(self, next: Game, ev: Events, dt: int, now: int, input: Input, spawn: Option<Shape>) -> bool {
        let hit = self.spec_player_hit_now(input, dt, spawn);
        let pass = self.spec_pass(input, dt, now, spawn);
        let record = self.scores.score == self.scores.high_score;
        &&& next.field_w == self.field_w
        &&& next.field_h == self.field_h
        &&& next.player == self.spec_player_next(input, dt)
        &&& next.last_shot == if self.spec_fires(input, now) { now as i64 } else { self.last_shot }
        &&& next.enemies@ == pass.0
        &&& next.projectiles@ == pass.1
        &&& next.scores == scored(self.scores, pass.2)
        &&& next.new_high_score == if hit { record } else { self.new_high_score }
        &&& next.state == if hit {
            GameState::GameOver
        } else if input.pause {
            GameState::Paused
        } else {
            GameState::Playing
        }
        &&& !ev.quit
        &&& ev.fired == self.spec_fires(input, now)
        &&& ev.destroyed@ == pass.2
        &&& ev.player_destroyed == hit
        &&& ev.save_high_score == if hit && record {
            Some(self.scores.high_score)
        } else {
            None
        }
    }

    /// The events of a frame in which nothing happens.
    pub open spec fn quiet(ev: Events) -> bool {
        !ev.quit && !ev.fired && ev.destroyed@.len() == 0 && !ev.player_destroyed
            && ev.save_high_score is None
    }

    /// `next` and `ev` are what one step makes of `self`, given the enemy that
    /// spawning produced this frame.
    pub open spec fn stepped(self, next: Game, ev: Events, dt: int, now: int, input: Input, spawn: Option<Shape>) -> bool {
        match self.state {
            GameState::MainMenu => if input.quit {
                next == self && ev.quit && !ev.fired && ev.destroyed@.len() == 0
                    && !ev.player_destroyed && ev.save_high_score is None
            } else if input.start {
                &&& next.state == GameState::Playing
                &&& next.field_w == self.field_w
                &&& next.field_h == self.field_h
                &&& next.player == centered_player(self.field_w as int, self.field_h as int)
                &&& next.enemies@.len() == 0
                &&& next.projectiles@.len() == 0
                &&& next.scores.score == 0
                &&& next.scores.high_score == self.scores.high_score
                &&& next.last_shot == self.last_shot
                &&& next.new_high_score == self.new_high_score
                &&& Self::quiet(ev)
            } else {
                next == self && Self::quiet(ev)
            },
            GameState::Playing => self.played(next, ev, dt, now, input, spawn),
            GameState::Paused => {
                &&& next == (Game {
                    state: if input.pause { GameState::Playing } else { GameState::Paused },
                    ..self
                })
                &&& Self::quiet(ev)
            },
            GameState::GameOver => {
                &&& next == (Game {
                    state: if input.restart { GameState::MainMenu } else { GameState::GameOver },
                    ..self
                })
                &&& Self::quiet(ev)
            },
        }
    }

    fn play(&mut self, dt: i64, now: i64, input: &Input, spawn: Option<Shape>) -> (ev: Events)
        requires
            old(self).wf(),
            old(self).state == GameState::Playing,
            0 <= dt <= MAX_DT,
            now >= 0,
            spawn matches Some(e) ==> valid_spawn(e, old(self).field_w as int),
        ensures
            final(self).wf(),
            old(self).played(*final(self), ev, dt as int, now as int, *input, spawn),
    {
        let ghost g0 = *self;
        let mut ev = Events {
            quit: false,
            fired: false,
            destroyed: Vec::new(),
            player_destroyed: false,
            save_high_score: None,
        };
        self.move_player(input, dt);
        let fires = input.fire && now - self.last_shot > FIRE_COOLDOWN;
        if fires {
            let shot = Shape {
                x: self.player.x,
                y: self.player.y - PROJECTILE_OFFSET,
                speed: self.player.speed * 2,
                size: PROJECTILE_SIZE,
                collided: false,
            };
            self.projectiles.push(shot);
            self.last_shot = now;
            ev.fired = true;
        }
        match spawn {
            Some(e) => self.enemies.push(e),
            None => {},
        }
        advance_enemies(&mut self.enemies, dt);
        advance_projectiles(&mut self.projectiles, dt);
        purge(&mut self.enemies, self.field_h, Kind::Enemy);
        purge(&mut self.projectiles, self.field_h, Kind::Projectile);
        assert(self.enemies@ == g0.spec_enemies_moved(dt as int, spawn));
        assert(self.projectiles@ == g0.spec_projectiles_moved(*input, dt as int, now as int));
        let hit = player_hit(&self.player, &self.enemies);
        if hit {
            ev.player_destroyed = true;
            if self.scores.is_record() {
                ev.save_high_score = Some(self.scores.high_score);
                self.new_high_score = true;
            } else {
                self.new_high_score = false;
            }
        }
        resolve_hits(&mut self.enemies, &mut self.projectiles, &mut self.scores, &mut ev.destroyed);
        assert(ev.destroyed@.subrange(0, ev.destroyed@.len() as int) =~= ev.destroyed@);
        if hit {
            self.state = GameState::GameOver;
        } else if input.pause {
            self.state = GameState::Paused;
        }
        ev
    }

    /// Advances the game by one frame of `dt` microseconds ending at time
    /// `now`, with `spawn` the enemy that spawning produced this frame, if any.
    pub fn step(&mut self, dt: i64, now: i64, input: &Input, spawn: Option<Shape>) -> (ev: Events)
        requires
            old(self).wf(),
            0 <= dt <= MAX_DT,
            now >= 0,
            spawn matches Some(e) ==> valid_spawn(e, old(self).field_w as int),
        ensures
            final(self).wf(),
            old(self).stepped(*final(self), ev, dt as int, now as int, *input, spawn),
    {
        match self.state {
            GameState::MainMenu => {
                let mut ev = Events {
                    quit: false,
                    fired: false,
                    destroyed: Vec::new(),
                    player_destroyed: false,
                    save_high_score: None,
                };
                if input.quit {
                    ev.quit = true;
                } else if input.start {
                    self.enemies.clear();
                    self.projectiles.clear();
                    self.player.x = self.field_w / 2;
                    self.player.y = self.field_h / 2;
                    self.scores.reset();
                    self.state = GameState::Playing;
                }
                ev
            },
            GameState::Playing => self.play(dt, now, input, spawn),
            GameState::Paused => {
                if input.pause {
                    self.state = GameState::Playing;
                }
                Events {
                    quit: false,
                    fired: false,
                    destroyed: Vec::new(),
                    player_destroyed: false,
                    save_high_score: None,
                }
            },
            GameState::GameOver => {
                if input.restart {
                    self.state = GameState::MainMenu;
                }
                Events {
                    quit: false,
                    fired: false,
                    destroyed: Vec::new(),
                    player_destroyed: false,
                    save_high_score: None,
                }
            },
        }
    }

    /// One frame with spawning drawn from the random generator while playing:
    /// the outcome is a step for some enemy that spawning could produce.
    pub fn frame(&mut self, dt: i64, now: i64, input: &Input) -> (ev: Events)
        requires
            old(self).wf(),
            0 <= dt <= MAX_DT,
            now >= 0,
        ensures
            final(self).wf(),
            exists|spawn: Option<Shape>|
                (spawn matches Some(e) ==> valid_spawn(e, old(self).field_w as int))
                && #[trigger] old(self).stepped(*final(self), ev, dt as int, now as int, *input, spawn),
    {
        let spawn = if self.state == GameState::Playing {
            draw_enemy(self.field_w)
        } else {
            None
        };
        self.step(dt, now, input, spawn)
    }
}

/// A shot fired at time `t1` is followed by another on a later fire action at
/// `t2` exactly when more than the cooldown has passed: two fire actions within
/// the cooldown give one projectile, and one after it gives a second.
pub proof fn lemma_fire_cooldown(
    g0: Game,
    g1: Game,
    g2: Game,
    ev1: Events,
    ev2: Events,
    dt1: int,
    dt2: int,
    t1: int,
    t2: int,
    in1: Input,
    in2: Input,
    s1: Option<Shape>,
    s2: Option<Shape>,
)
    requires
        g0.state == GameState::Playing,
        g0.played(g1, ev1, dt1, t1, in1, s1),
        g1.state == GameState::Playing,
        g1.played(g2, ev2, dt2, t2, in2, s2),
        ev1.fired,
        in2.fire,
        0 <= t1 <= i64::MAX,
    ensures
        ev2.fired == (t2 - t1 > FIRE_COOLDOWN),
{
}

/// In a frame of play, the run ends exactly when the moved player overlaps
/// an enemy that is on the field after spawning, moving and the purge; that
/// test adds nothing to the score, which changes only by the enemies that
/// projectiles destroyed.
pub proof fn lemma_player_hit_ends_run(
    g: Game,
    next: Game,
    ev: Events,
    dt: int,
    now: int,
    input: Input,
    spawn: Option<Shape>,
)
    requires
        g.state == GameState::Playing,
        g.played(next, ev, dt, now, input, spawn),
    ensures
        (next.state == GameState::GameOver) == (exists|i: int|
            0 <= i < g.spec_enemies_moved(dt, spawn).len() && g.spec_player_next(
                input,
                dt,
            ).spec_collides_with(#[trigger] g.spec_enemies_moved(dt, spawn)[i])),
        next.scores == scored(g.scores, g.spec_pass(input, dt, now, spawn).2),
{
}

} // verus!
