use vstd::prelude::*;
use crate::shape::Shape;
use crate::score::ScoreBoard;

verus! {

/// The shape marked as collided.
pub open spec fn marked(s: Shape) -> Shape {
    Shape { collided: true, ..s }
}

/// Any enemy collides with the player.
pub open spec fn spec_player_hit(player: Shape, es: Seq<Shape>) -> bool {
    exists|i: int| 0 <= i < es.len() && player.spec_collides_with(#[trigger] es[i])
}

/// The first projectile at or after index `j` that is not yet marked and
/// overlaps the enemy `e`.
pub open spec fn first_hit_from(e: Shape, ps: Seq<Shape>, j: int) -> Option<int>
    decreases ps.len() - j,
{
    if j < 0 || j >= ps.len() {
        None
    } else if !ps[j].collided && ps[j].spec_collides_with(e) {
        Some(j)
    } else {
        first_hit_from(e, ps, j + 1)
    }
}

/// Enemies, projectiles, and the enemies destroyed in order, after the
/// projectile pass has handled the first `n` enemies: each unmarked enemy is
/// matched with the first unmarked projectile that overlaps it, and both are
/// marked.
pub open spec fn hits_upto(es: Seq<Shape>, ps: Seq<Shape>, n: int) -> (Seq<Shape>, Seq<Shape>, Seq<Shape>)
    decreases n,
{
    if n <= 0 {
        (es, ps, Seq::empty())
    } else {
        let (es1, ps1, d1) = hits_upto(es, ps, n - 1);
        let e = es1[n - 1];
        if e.collided {
            (es1, ps1, d1)
        } else {
            match first_hit_from(e, ps1, 0) {
                Some(j) => (es1.update(n - 1, marked(e)), ps1.update(j, marked(ps1[j])), d1.push(e)),
                None => (es1, ps1, d1),
            }
        }
    }
}

/// The projectile pass over all enemies.
pub open spec fn spec_hits(es: Seq<Shape>, ps: Seq<Shape>) -> (Seq<Shape>, Seq<Shape>, Seq<Shape>) {
    hits_upto(es, ps, es.len() as int)
}

/// The board after crediting each destroyed enemy in turn.
pub open spec fn scored(b: ScoreBoard, d: Seq<Shape>) -> ScoreBoard
    decreases d.len(),
{
    if d.len() == 0 {
        b
    } else {
        scored(b, d.drop_last()).spec_after_enemy(d.last().size as int)
    }
}

/// Whether the player overlaps any enemy.
pub fn player_hit(player: &Shape, es: &Vec<Shape>) -> (r: bool)
    requires
        player.wf(),
        forall|i: int| 0 <= i < es@.len() ==> (#[trigger] es@[i]).wf(),
    ensures
        r == spec_player_hit(*player, es@),
{
    let n = es.len();
    let mut i: usize = 0;
    while i < n
        invariant
            0 <= i <= n,
            n == es@.len(),
            player.wf(),
            forall|k: int| 0 <= k < n ==> (#[trigger] es@[k]).wf(),
            forall|k: int| 0 <= k < i ==> !player.spec_collides_with(#[trigger] es@[k]),
        decreases n - i,
    {
        if player.collides_with(&es[i]) {
            return true;
        }
        i = i + 1;
    }
    false
}

/// The index of the first unmarked projectile that overlaps `e`.
fn find_hit(e: &Shape, ps: &Vec<Shape>) -> (r: Option<usize>)
    requires
        e.wf(),
        forall|i: int| 0 <= i < ps@.len() ==> (#[trigger] ps@[i]).wf(),
    ensures
        r matches Some(j) ==> j < ps@.len() && first_hit_from(*e, ps@, 0) == Some(j as int),
        r is None ==> first_hit_from(*e, ps@, 0) is None,
{
    let n = ps.len();
    let mut j: usize = 0;
    while j < n
        invariant
            0 <= j <= n,
            n == ps@.len(),
            e.wf(),
            forall|k: int| 0 <= k < n ==> (#[trigger] ps@[k]).wf(),
            first_hit_from(*e, ps@, 0) == first_hit_from(*e, ps@, j as int),
        decreases n - j,
    {
        let p = ps[j];
        if !p.collided && p.collides_with(e) {
            return Some(j);
        }
        j = j + 1;
    }
    None
}

/// Runs the projectile pass: marks each matched enemy and projectile, credits
/// each destroyed enemy to the board, and appends it to `destroyed`.
pub fn resolve_hits(
    es: &mut Vec<Shape>,
    ps: &mut Vec<Shape>,
    board: &mut ScoreBoard,
    destroyed: &mut Vec<Shape>,
)
    requires
        forall|i: int| 0 <= i < old(es)@.len() ==> (#[trigger] old(es)@[i]).wf(),
        forall|i: int| 0 <= i < old(ps)@.len() ==> (#[trigger] old(ps)@[i]).wf(),
        old(board).wf(),
    ensures
        (final(es)@, final(ps)@, final(destroyed)@.subrange(
            old(destroyed)@.len() as int,
            final(destroyed)@.len() as int,
        )) == spec_hits(old(es)@, old(ps)@),
        final(destroyed)@.subrange(0, old(destroyed)@.len() as int) == old(destroyed)@,
        *final(board) == scored(*old(board), spec_hits(old(es)@, old(ps)@).2),
        final(board).wf(),
        forall|i: int| 0 <= i < final(es)@.len() ==> (#[trigger] final(es)@[i]).wf(),
        forall|i: int| 0 <= i < final(ps)@.len() ==> (#[trigger] final(ps)@[i]).wf(),
{
    let ghost es0 = es@;
    let ghost ps0 = ps@;
    let ghost b0 = *board;
    let ghost d0 = destroyed@;
    let n = es.len();
    let mut i: usize = 0;
    while i < n
        invariant
            0 <= i <= n,
            n == es@.len(),
            n == es0.len(),
            (es@, ps@, destroyed@.subrange(d0.len() as int, destroyed@.len() as int))
                == hits_upto(es0, ps0, i as int),
            d0.len() <= destroyed@.len(),
            destroyed@.subrange(0, d0.len() as int) == d0,
            *board == scored(b0, hits_upto(es0, ps0, i as int).2),
            board.wf(),
            forall|k: int| 0 <= k < es@.len() ==> (#[trigger] es@[k]).wf(),
            forall|k: int| 0 <= k < ps@.len() ==> (#[trigger] ps@[k]).wf(),
        decreases n - i,
    {
        let ghost d_prev = destroyed@.subrange(d0.len() as int, destroyed@.len() as int);
        let e = es[i];
        if !e.collided {
            match find_hit(&e, ps) {
                Some(j) => {
                    let mut p = ps[j];
                    p.collided = true;
                    ps.set(j, p);
                    let mut m = e;
                    m.collided = true;
                    es.set(i, m);
                    destroyed.push(e);
                    board.add_enemy(e.size);
                    proof {
                        assert(destroyed@.subrange(d0.len() as int, destroyed@.len() as int)
                            =~= d_prev.push(e));
                        assert(destroyed@.subrange(0, d0.len() as int) =~= d0);
                        assert(d_prev.push(e).drop_last() =~= d_prev);
                    }
                },
                None => {},
            }
        }
        i = i + 1;
    }
}

} // verus!
