use vstd::prelude::*;
use crate::shape::{UNIT, MAX_EXTENT};

verus! {

/// A size in micro-pixels rounded to whole pixels, halves away from zero.
pub open spec fn rounded_px(size: int) -> int {
    (size + UNIT as int / 2) / (UNIT as int)
}

/// What destroying an enemy of this size earns: the rounded size is added in
/// two equal whole halves, so an odd rounded size loses one point.
pub open spec fn spec_points(size: int) -> int {
    2 * (rounded_px(size) / 2)
}

/// `a + b`, held at `u32::MAX`.
pub open spec fn sat_add(a: int, b: int) -> int {
    if a + b > u32::MAX { u32::MAX as int } else { a + b }
}

pub fn points(size: i64) -> (r: u32)
    requires
        0 < size <= MAX_EXTENT,
    ensures
        r == spec_points(size as int),
{
    let half = ((size + UNIT / 2) / UNIT / 2) as u32;
    half + half
}

/// The current score and the best score ever reached.
#[derive(Clone, Copy, Debug, PartialEq, Eq, Structural)]
pub struct ScoreBoard {
    pub score: u32,
    pub high_score: u32,
}

impl ScoreBoard {
    /// The high score is never below the score.
    pub open spec fn wf(self) -> bool {
        self.score <= self.high_score
    }

    pub fn new(high_score: u32) -> (r: ScoreBoard)
        ensures
            r.score == 0,
            r.high_score == high_score,
            r.wf(),
    {
        ScoreBoard { score: 0, high_score }
    }

    /// Starts a run: the score goes back to zero, the high score stays.
    pub fn reset(&mut self)
        ensures
            final(self).score == 0,
            final(self).high_score == old(self).high_score,
            final(self).wf(),
    {
        self.score = 0;
    }

    /// The board after crediting an enemy of the given size.
    pub open spec fn spec_after_enemy(self, size: int) -> ScoreBoard {
        let score = sat_add(self.score as int, spec_points(size)) as u32;
        ScoreBoard {
            score,
            high_score: if score > self.high_score { score } else { self.high_score },
        }
    }

    /// Credits the destruction of an enemy of the given size, then lifts the
    /// high score to the score where it is passed.
    pub fn add_enemy(&mut self, size: i64)
        requires
            old(self).wf(),
            0 < size <= MAX_EXTENT,
        ensures
            *final(self) == old(self).spec_after_enemy(size as int),
            final(self).score == sat_add(old(self).score as int, spec_points(size as int)),
            final(self).wf(),
    {
        let half = ((size + UNIT / 2) / UNIT / 2) as u32;
        self.score = self.score.saturating_add(half);
        self.score = self.score.saturating_add(half);
        if self.score > self.high_score {
            self.high_score = self.score;
        }
    }

    /// The score equals the high score: the run ties or holds the record.
    pub fn is_record(&self) -> (r: bool)
        ensures
            r == (self.score == self.high_score),
    {
        self.score == self.high_score
    }
}

/// The characters '0' to '9'.
pub open spec fn is_digit(b: u8) -> bool {
    48 <= b <= 57
}

/// The value of a string of decimal digits.
pub open spec fn digits_value(d: Seq<u8>) -> int
    decreases d.len(),
{
    if d.len() == 0 {
        0
    } else {
        digits_value(d.drop_last()) * 10 + (d.last() - 48)
    }
}

/// The digits of an unsigned decimal number, after an optional '+'.
pub open spec fn unsigned_digits(b: Seq<u8>) -> Seq<u8> {
    if b.len() > 0 && b[0] == 43 { b.drop_first() } else { b }
}

/// The value of `b` read as an unsigned decimal integer that fits in `u32`,
/// or `None` where `b` is no such number.
pub open spec fn parsed_u32(b: Seq<u8>) -> Option<int> {
    let d = unsigned_digits(b);
    if d.len() > 0 && (forall|i: int| 0 <= i < d.len() ==> is_digit(#[trigger] d[i]))
        && digits_value(d) <= u32::MAX {
        Some(digits_value(d))
    } else {
        None
    }
}

/// Reads a stored high score; anything that is not an unsigned decimal number
/// that fits in `u32` reads as 0.
pub fn parse_high_score(b: &[u8]) -> (r: u32)
    ensures
        r == match parsed_u32(b@) {
            Some(v) => v,
            None => 0,
        },
{
    let n = b.len();
    let start: usize = if n > 0 && b[0] == 43 { 1 } else { 0 };
    let ghost d = unsigned_digits(b@);
    assert(d =~= b@.subrange(start as int, n as int));
    if start == n {
        return 0;
    }
    let mut acc: u64 = 0;
    let mut over = false;
    let mut i: usize = start;
    while i < n
        invariant
            start <= i <= n,
            n == b@.len(),
            d == b@.subrange(start as int, n as int),
            d == unsigned_digits(b@),
            forall|k: int| start <= k < i ==> is_digit(#[trigger] b@[k]),
            over ==> digits_value(b@.subrange(start as int, i as int)) > u32::MAX,
            !over ==> acc == digits_value(b@.subrange(start as int, i as int)),
            !over ==> acc <= u32::MAX,
        decreases n - i,
    {
        let c = b[i];
        if c < 48 || c > 57 {
            proof {
                let j = i - start;
                assert(d[j] == c);
                assert(!is_digit(d[j]));
                assert(unsigned_digits(b@) == d);
                assert(parsed_u32(b@) is None);
            }
            return 0;
        }
        proof {
            assert(b@.subrange(start as int, i + 1).drop_last()
                =~= b@.subrange(start as int, i as int));
        }
        if !over {
            acc = acc * 10 + (c - 48) as u64;
            if acc > 4294967295 {
                over = true;
            }
        }
        i = i + 1;
    }
    assert(b@.subrange(start as int, n as int) == d);
    if over {
        0
    } else {
        acc as u32
    }
}

} // verus!
