use vstd::prelude::*;

verus! {

/// Micro-pixels in one pixel.
pub const UNIT: i64 = 1_000_000;

/// Largest field extent, and largest entity size.
pub const MAX_EXTENT: i64 = 1_000_000_000_000;

/// Bound on the absolute value of a coordinate of a live entity.
pub const COORD_LIMIT: i64 = 4_000_000_000_000;

/// Largest speed of an entity.
pub const MAX_SPEED: i64 = 1_000;

/// Longest frame that one step may advance (in microseconds).
pub const MAX_DT: i64 = 1_000_000_000;

/// A positioned, sized, moving square. `(x, y)` is its center and `size` the
/// side length of its bounding box.
#[derive(Clone, Copy, Debug, PartialEq, Eq, Structural)]
pub struct Shape {
    pub size: i64,
    pub speed: i64,
    pub x: i64,
    pub y: i64,
    pub collided: bool,
}

/// Which list an entity belongs to, and so which way it travels.
#[derive(Clone, Copy, Debug, PartialEq, Eq, Structural)]
pub enum Kind {
    Enemy,
    Projectile,
}

/// An axis-aligned rectangle, with its edges at twice their coordinate so that
/// half a size stays exact.
#[derive(Clone, Copy, Debug, PartialEq, Eq, Structural)]
pub struct Rect {
    pub left: i64,
    pub top: i64,
    pub right: i64,
    pub bottom: i64,
}

pub open spec fn abs(v: int) -> int {
    if v < 0 { -v } else { v }
}

impl Shape {
    /// Size, speed and position lie within the bounds that keep arithmetic exact.
    pub open spec fn wf(self) -> bool {
        &&& 0 < self.size <= MAX_EXTENT
        &&& 0 <= self.speed <= MAX_SPEED
        &&& abs(self.x as int) <= COORD_LIMIT
        &&& abs(self.y as int) <= COORD_LIMIT
    }

    /// As `wf`, with twice the room for the vertical position: what an
    /// entity satisfies after moving, before the purge.
    pub open spec fn wf_moving(self) -> bool {
        &&& 0 < self.size <= MAX_EXTENT
        &&& 0 <= self.speed <= MAX_SPEED
        &&& abs(self.x as int) <= COORD_LIMIT
        &&& abs(self.y as int) <= 2 * COORD_LIMIT
    }

    pub open spec fn spec_rect(self) -> Rect {
        Rect {
            left: (2 * self.x - self.size) as i64,
            top: (2 * self.y - self.size) as i64,
            right: (2 * self.x + self.size) as i64,
            bottom: (2 * self.y + self.size) as i64,
        }
    }

    /// The two squares' bounding boxes intersect (touching edges count).
    pub open spec fn spec_collides_with(self, other: Shape) -> bool {
        self.spec_rect().spec_overlaps(other.spec_rect())
    }

    /// The bounding box, in doubled coordinates.
    pub fn rect(&self) -> (r: Rect)
        requires
            self.wf(),
        ensures
            r == self.spec_rect(),
    {
        Rect {
            left: 2 * self.x - self.size,
            top: 2 * self.y - self.size,
            right: 2 * self.x + self.size,
            bottom: 2 * self.y + self.size,
        }
    }

    pub fn collides_with(&self, other: &Shape) -> (r: bool)
        requires
            self.wf(),
            other.wf(),
        ensures
            r == self.spec_collides_with(*other),
    {
        self.rect().overlaps(&other.rect())
    }

    pub open spec fn spec_fallen(self, dt: int) -> Shape {
        Shape { y: (self.y + self.speed * dt) as i64, ..self }
    }

    pub open spec fn spec_risen(self, dt: int) -> Shape {
        Shape { y: (self.y - self.speed * dt) as i64, ..self }
    }

    /// Moves down the field (an enemy) by `speed * dt`.
    pub fn fall(&mut self, dt: i64)
        requires
            old(self).wf(),
            0 <= dt <= MAX_DT,
        ensures
            *final(self) == old(self).spec_fallen(dt as int),
            final(self).wf_moving(),
            final(self).y == old(self).y + old(self).speed * dt,
    {
        proof { lemma_step_bound(self.speed as int, dt as int); }
        self.y = self.y + self.speed * dt;
    }

    /// Moves up the field (a projectile) by `speed * dt`.
    pub fn rise(&mut self, dt: i64)
        requires
            old(self).wf(),
            0 <= dt <= MAX_DT,
        ensures
            *final(self) == old(self).spec_risen(dt as int),
            final(self).wf_moving(),
            final(self).y == old(self).y - old(self).speed * dt,
    {
        proof { lemma_step_bound(self.speed as int, dt as int); }
        self.y = self.y - self.speed * dt;
    }

    /// Not yet fully off the field in its direction of travel. An enemy
    /// travels down: it is kept from its spawn height `-size` until its top
    /// edge reaches the bottom of the field. A projectile travels up: it is
    /// kept until its bottom edge passes above the top of the field, and
    /// likewise dropped once wholly below it.
    pub open spec fn spec_on_field(self, field_h: int, kind: Kind) -> bool {
        &&& 2 * self.y - self.size < 2 * field_h
        &&& match kind {
            Kind::Enemy => -self.size <= self.y,
            Kind::Projectile => 0 <= 2 * self.y + self.size,
        }
    }

    /// Survives the purge: on the field and not marked by a collision.
    pub open spec fn spec_kept(self, field_h: int, kind: Kind) -> bool {
        self.spec_on_field(field_h, kind) && !self.collided
    }
}

impl Rect {
    pub open spec fn spec_overlaps(self, other: Rect) -> bool {
        &&& self.left <= other.right
        &&& other.left <= self.right
        &&& self.top <= other.bottom
        &&& other.top <= self.bottom
    }

    pub fn overlaps(&self, other: &Rect) -> (r: bool)
        ensures
            r == self.spec_overlaps(*other),
    {
        self.left <= other.right && other.left <= self.right && self.top <= other.bottom
            && other.top <= self.bottom
    }
}

proof fn lemma_step_bound(speed: int, dt: int)
    requires
        0 <= speed <= MAX_SPEED,
        0 <= dt <= MAX_DT,
    ensures
        0 <= speed * dt <= MAX_SPEED * MAX_DT,
{
    assert(0 <= speed * dt <= MAX_SPEED * MAX_DT) by (nonlinear_arith)
        requires
            0 <= speed <= MAX_SPEED,
            0 <= dt <= MAX_DT,
    ;
}

/// Collision is symmetric: `a` collides with `b` exactly when `b` collides with `a`.
pub proof fn lemma_collision_symmetric(a: Shape, b: Shape)
    ensures
        a.spec_collides_with(b) == b.spec_collides_with(a),
{
}

/// Squares whose centers are more than half the sum of their sizes apart on
/// either axis never collide.
pub proof fn lemma_apart_never_collide(a: Shape, b: Shape)
    requires
        a.wf(),
        b.wf(),
        abs(a.x - b.x) * 2 > a.size + b.size || abs(a.y - b.y) * 2 > a.size + b.size,
    ensures
        !a.spec_collides_with(b),
{
}

/// An enemy advanced by `dt` moves straight down by exactly `speed * dt`:
/// its box keeps its size and column, and both its horizontal edges move by
/// that distance.
pub proof fn lemma_enemy_falls_straight(e: Shape, dt: int)
    requires
        e.wf(),
        0 <= dt <= MAX_DT,
    ensures
        e.spec_fallen(dt).y == e.y + e.speed * dt,
        e.spec_fallen(dt).x == e.x,
        e.spec_fallen(dt).size == e.size,
        e.spec_fallen(dt).spec_rect().left == e.spec_rect().left,
        e.spec_fallen(dt).spec_rect().right == e.spec_rect().right,
        e.spec_fallen(dt).spec_rect().top == e.spec_rect().top + 2 * e.speed * dt,
        e.spec_fallen(dt).spec_rect().bottom == e.spec_rect().bottom + 2 * e.speed * dt,
{
    lemma_step_bound(e.speed as int, dt);
    assert(2 * (e.speed * dt) == 2 * e.speed * dt) by (nonlinear_arith);
}

pub open spec fn fallen_all(s: Seq<Shape>, dt: int) -> Seq<Shape> {
    s.map_values(|e: Shape| e.spec_fallen(dt))
}

pub open spec fn risen_all(s: Seq<Shape>, dt: int) -> Seq<Shape> {
    s.map_values(|e: Shape| e.spec_risen(dt))
}

/// Moves every enemy down by its `speed * dt`.
pub fn advance_enemies(v: &mut Vec<Shape>, dt: i64)
    requires
        forall|i: int| 0 <= i < old(v)@.len() ==> (#[trigger] old(v)@[i]).wf(),
        0 <= dt <= MAX_DT,
    ensures
        final(v)@ == fallen_all(old(v)@, dt as int),
        forall|i: int| 0 <= i < final(v)@.len() ==> (#[trigger] final(v)@[i]).wf_moving(),
{
    let n = v.len();
    let mut i: usize = 0;
    while i < n
        invariant
            0 <= i <= n,
            n == v@.len(),
            n == old(v)@.len(),
            0 <= dt <= MAX_DT,
            forall|k: int| 0 <= k < n ==> (#[trigger] old(v)@[k]).wf(),
            forall|k: int| 0 <= k < i ==> v@[k] == (#[trigger] old(v)@[k]).spec_fallen(dt as int),
            forall|k: int| 0 <= k < i ==> (#[trigger] v@[k]).wf_moving(),
            forall|k: int| i <= k < n ==> v@[k] == old(v)@[k],
        decreases n - i,
    {
        let mut e = v[i];
        e.fall(dt);
        v.set(i, e);
        i = i + 1;
    }
    assert(v@ =~= fallen_all(old(v)@, dt as int));
}

/// Moves every projectile up by its `speed * dt`.
pub fn advance_projectiles(v: &mut Vec<Shape>, dt: i64)
    requires
        forall|i: int| 0 <= i < old(v)@.len() ==> (#[trigger] old(v)@[i]).wf(),
        0 <= dt <= MAX_DT,
    ensures
        final(v)@ == risen_all(old(v)@, dt as int),
        forall|i: int| 0 <= i < final(v)@.len() ==> (#[trigger] final(v)@[i]).wf_moving(),
{
    let n = v.len();
    let mut i: usize = 0;
    while i < n
        invariant
            0 <= i <= n,
            n == v@.len(),
            n == old(v)@.len(),
            0 <= dt <= MAX_DT,
            forall|k: int| 0 <= k < n ==> (#[trigger] old(v)@[k]).wf(),
            forall|k: int| 0 <= k < i ==> v@[k] == (#[trigger] old(v)@[k]).spec_risen(dt as int),
            forall|k: int| 0 <= k < i ==> (#[trigger] v@[k]).wf_moving(),
            forall|k: int| i <= k < n ==> v@[k] == old(v)@[k],
        decreases n - i,
    {
        let mut e = v[i];
        e.rise(dt);
        v.set(i, e);
        i = i + 1;
    }
    assert(v@ =~= risen_all(old(v)@, dt as int));
}

pub open spec fn purged(s: Seq<Shape>, field_h: int, kind: Kind) -> Seq<Shape> {
    s.filter(|e: Shape| e.spec_kept(field_h, kind))
}

/// Removes every entity that has left the field or was marked by a collision,
/// keeping the survivors in their order.
pub fn purge(v: &mut Vec<Shape>, field_h: i64, kind: Kind)
    requires
        0 < field_h <= MAX_EXTENT,
        forall|i: int| 0 <= i < old(v)@.len() ==> (#[trigger] old(v)@[i]).wf_moving(),
    ensures
        final(v)@ == purged(old(v)@, field_h as int, kind),
        forall|i: int| 0 <= i < final(v)@.len() ==> (#[trigger] final(v)@[i]).wf(),
{
    let mut kept: Vec<Shape> = Vec::new();
    let n = v.len();
    let mut i: usize = 0;
    while i < n
        invariant
            0 <= i <= n,
            n == v@.len(),
            v@ == old(v)@,
            0 < field_h <= MAX_EXTENT,
            forall|k: int| 0 <= k < n ==> (#[trigger] v@[k]).wf_moving(),
            forall|k: int| 0 <= k < kept@.len() ==> (#[trigger] kept@[k]).wf(),
            kept@ == purged(v@.subrange(0, i as int), field_h as int, kind),
        decreases n - i,
    {
        let e = v[i];
        proof {
            reveal(Seq::filter);
            assert(v@.subrange(0, i + 1).drop_last() =~= v@.subrange(0, i as int));
            assert(v@.subrange(0, i + 1).last() == e);
        }
        let on_field = 2 * e.y - e.size < 2 * field_h && match kind {
            Kind::Enemy => -e.size <= e.y,
            Kind::Projectile => 0 <= 2 * e.y + e.size,
        };
        let keep = on_field && !e.collided;
        assert(keep == e.spec_kept(field_h as int, kind));
        if keep {
            kept.push(e);
        }
        i = i + 1;
    }
    assert(v@.subrange(0, n as int) =~= v@);
    *v = kept;
}

} // verus!
