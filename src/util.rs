//! Splitting of circular arcs into pieces of at most a quarter turn.
//!
//! A cubic Bezier curve approximates a circular arc well only up to about a
//! quarter turn, so a wider arc is drawn as a chain of such pieces. Angles are
//! whole numbers of microdegrees, so that the split is exact: a quarter turn is
//! `QUARTER_TURN` units.
use vstd::prelude::*;

pub mod get_set;

verus! {

/// A right angle (a quarter turn), in microdegrees.
pub const QUARTER_TURN: i64 = 90_000_000;

pub open spec fn abs(x: int) -> int {
    if x < 0 {
        -x
    } else {
        x
    }
}

/// Where the first quarter-turn piece from `start` towards `end` stops.
pub open spec fn quarter_step(start: int, end: int) -> int {
    if end < start {
        start - QUARTER_TURN
    } else {
        start + QUARTER_TURN
    }
}

/// The pieces, in order, that the arc from `start` to `end` is split into:
/// whole quarter turns in the direction of travel while more than a quarter
/// turn remains, then one last piece that ends exactly at `end`.
pub open spec fn angle_segments(start: int, end: int) -> Seq<(int, int)>
    decreases abs(end - start),
{
    if abs(end - start) <= QUARTER_TURN {
        seq![(start, end)]
    } else {
        let next = quarter_step(start, end);
        seq![(start, next)] + angle_segments(next, end)
    }
}

/// How many pieces an arc of angular distance `d` is split into: the number
/// of quarter turns that `d` spans, rounded up, and one for an empty arc.
pub open spec fn segment_count(d: int) -> int {
    if d == 0 {
        1
    } else {
        (abs(d) + QUARTER_TURN - 1) / (QUARTER_TURN as int)
    }
}

/// A piece of arc, with its bounds widened to mathematical integers.
pub open spec fn widen(p: (i64, i64)) -> (int, int) {
    (p.0 as int, p.1 as int)
}

/// The pieces chain from `start` to `end` without gap or overlap: the first
/// begins at `start`, the last ends at `end`, each begins where the one before
/// it ends, and each moves in the direction from `start` to `end` (all of them
/// are empty only when the arc is).
pub proof fn lemma_segments_cover(start: int, end: int)
    ensures
        angle_segments(start, end).len() >= 1,
        angle_segments(start, end)[0].0 == start,
        angle_segments(start, end).last().1 == end,
        forall|i: int|
            0 <= i < angle_segments(start, end).len() - 1 ==> #[trigger] angle_segments(
                start,
                end,
            )[i].1 == angle_segments(start, end)[i + 1].0,
        forall|i: int|
            0 <= i < angle_segments(start, end).len() ==> {
                let p = #[trigger] angle_segments(start, end)[i];
                &&& start < end ==> p.0 < p.1
                &&& end < start ==> p.1 < p.0
                &&& start == end ==> p.0 == p.1
            },
    decreases abs(end - start),
{
    if abs(end - start) > QUARTER_TURN {
        let next = quarter_step(start, end);
        lemma_segments_cover(next, end);
        let rest = angle_segments(next, end);
        let segs = angle_segments(start, end);
        assert(segs == seq![(start, next)] + rest);
        assert forall|i: int| 0 <= i < segs.len() - 1 implies #[trigger] segs[i].1 == segs[i
            + 1].0 by {
            if i > 0 {
                assert(segs[i] == rest[i - 1]);
                assert(segs[i + 1] == rest[i]);
            }
        }
        assert forall|i: int| 0 <= i < segs.len() implies {
            let p = #[trigger] segs[i];
            &&& start < end ==> p.0 < p.1
            &&& end < start ==> p.1 < p.0
            &&& start == end ==> p.0 == p.1
        } by {
            if i > 0 {
                assert(segs[i] == rest[i - 1]);
            }
        }
    }
}

/// No piece spans more than a quarter turn.
pub proof fn lemma_segments_bounded(start: int, end: int)
    ensures
        forall|i: int|
            0 <= i < angle_segments(start, end).len() ==> abs(
                #[trigger] angle_segments(start, end)[i].1 - angle_segments(start, end)[i].0,
            ) <= QUARTER_TURN,
    decreases abs(end - start),
{
    if abs(end - start) > QUARTER_TURN {
        let next = quarter_step(start, end);
        lemma_segments_bounded(next, end);
        let rest = angle_segments(next, end);
        let segs = angle_segments(start, end);
        assert forall|i: int| 0 <= i < segs.len() implies abs(#[trigger] segs[i].1 - segs[i].0)
            <= QUARTER_TURN by {
            if i > 0 {
                assert(segs[i] == rest[i - 1]);
            }
        }
    }
}

/// An arc that is not empty is split into as many pieces as the quarter turns
/// it spans, rounded up: a half turn gives two pieces, a full turn four.
pub proof fn lemma_segment_count(start: int, end: int)
    ensures
        angle_segments(start, end).len() == segment_count(end - start),
        start != end ==> angle_segments(start, end).len() == (abs(end - start) + QUARTER_TURN
            - 1) / (QUARTER_TURN as int),
    decreases abs(end - start),
{
    if abs(end - start) > QUARTER_TURN {
        let next = quarter_step(start, end);
        lemma_segment_count(next, end);
        assert(abs(end - next) == abs(end - start) - QUARTER_TURN);
        assert((abs(end - start) + QUARTER_TURN - 1) / (QUARTER_TURN as int) == (abs(end - next)
            + QUARTER_TURN - 1) / (QUARTER_TURN as int) + 1);
    }
}

/// An arc of at most a quarter turn, in either direction, is one piece: the
/// arc itself. So the arc from `a` to `b` and the one from `b` to `a` are
/// each other's reverse.
pub proof fn lemma_single_segment(start: int, end: int)
    requires
        abs(end - start) <= QUARTER_TURN,
    ensures
        angle_segments(start, end) == seq![(start, end)],
        angle_segments(end, start) == seq![(end, start)],
{
}

/// Hands out the pieces of an arc one at a time, in order.
pub struct AngleIter {
    start: Option<i64>,
    end: i64,
}

impl View for AngleIter {
    type V = Seq<(int, int)>;

    /// The pieces that are still to come.
    closed spec fn view(&self) -> Seq<(int, int)> {
        match self.start {
            Some(s) => angle_segments(s as int, self.end as int),
            None => Seq::empty(),
        }
    }
}

impl AngleIter {
    pub fn new(start_angle: i64, end_angle: i64) -> (r: Self)
        ensures
            r@ == angle_segments(start_angle as int, end_angle as int),
    {
        AngleIter { start: Some(start_angle), end: end_angle }
    }

    /// The next piece, or `None` once the arc is used up.
    pub fn next(&mut self) -> (r: Option<(i64, i64)>)
        ensures
            r is None <==> old(self)@.len() == 0,
            r is None ==> final(self)@ == old(self)@,
            r is Some ==> widen(r->Some_0) == old(self)@[0] && final(self)@ == old(
                self,
            )@.drop_first(),
    {
        match self.start {
            None => None,
            Some(start) => {
                let diff: i128 = self.end as i128 - start as i128;
                if -(QUARTER_TURN as i128) <= diff && diff <= QUARTER_TURN as i128 {
                    self.start = None;
                    Some((start, self.end))
                } else {
                    let next: i64 = if diff < 0 {
                        start - QUARTER_TURN
                    } else {
                        start + QUARTER_TURN
                    };
                    self.start = Some(next);
                    Some((start, next))
                }
            },
        }
    }

    /// How many pieces are still to come, as a lower and an upper bound; the
    /// bounds are exact unless the count does not fit in a `usize`, in which
    /// case there is no upper bound.
    pub fn size_hint(&self) -> (r: (usize, Option<usize>))
        ensures
            self@.len() <= usize::MAX ==> r == (self@.len() as usize, Some(self@.len() as usize)),
            self@.len() > usize::MAX ==> r == (usize::MAX, None::<usize>),
    {
        match self.start {
            None => (0, Some(0)),
            Some(start) => {
                let diff: i128 = self.end as i128 - start as i128;
                let dist: u128 = if diff < 0 {
                    (-diff) as u128
                } else {
                    diff as u128
                };
                let count: u128 = if dist == 0 {
                    1
                } else {
                    (dist - 1) / (QUARTER_TURN as u128) + 1
                };
                proof {
                    lemma_segment_count(start as int, self.end as int);
                    if dist > 0 {
                        assert((dist - 1) / (QUARTER_TURN as int) + 1 == (dist + QUARTER_TURN - 1)
                            / (QUARTER_TURN as int));
                    }
                }
                if count <= usize::MAX as u128 {
                    (count as usize, Some(count as usize))
                } else {
                    (usize::MAX, None)
                }
            },
        }
    }
}

/// All pieces of the arc from `start_angle` to `end_angle`, in order.
pub fn arc_segments(start_angle: i64, end_angle: i64) -> (r: Vec<(i64, i64)>)
    ensures
        r@.map_values(|p: (i64, i64)| widen(p)) == angle_segments(
            start_angle as int,
            end_angle as int,
        ),
{
    let mut iter = AngleIter::new(start_angle, end_angle);
    let mut segments: Vec<(i64, i64)> = Vec::new();
    loop
        invariant
            segments@.map_values(|p: (i64, i64)| widen(p)) + iter@ == angle_segments(
                start_angle as int,
                end_angle as int,
            ),
        ensures
            iter@.len() == 0,
            segments@.map_values(|p: (i64, i64)| widen(p)) == angle_segments(
                start_angle as int,
                end_angle as int,
            ),
        decreases iter@.len(),
    {
        let ghost before = segments@.map_values(|p: (i64, i64)| widen(p));
        let ghost rest = iter@;
        match iter.next() {
            Some(p) => {
                segments.push(p);
                assert(segments@.map_values(|p: (i64, i64)| widen(p)) =~= before.push(widen(p)));
                assert(before.push(widen(p)) + iter@ =~= before + rest);
            },
            None => {
                assert(segments@.map_values(|p: (i64, i64)| widen(p)) + iter@ =~= before);
                break ;
            },
        }
    }
    segments
}

/// The pieces of the arc from `start_angle` to `end_angle` that are drawn as
/// curves: all of them, unless the arc is empty, in which case none. Each
/// piece returned spans more than nothing and at most a quarter turn, so its
/// end points are never on one line through the center.
pub fn curve_segments(start_angle: i64, end_angle: i64) -> (r: Vec<(i64, i64)>)
    ensures
        start_angle == end_angle ==> r@.len() == 0,
        start_angle != end_angle ==> r@.map_values(|p: (i64, i64)| widen(p)) == angle_segments(
            start_angle as int,
            end_angle as int,
        ),
        forall|i: int|
            0 <= i < r@.len() ==> 0 < abs(#[trigger] r@[i].1 - r@[i].0) <= QUARTER_TURN,
{
    if start_angle == end_angle {
        Vec::new()
    } else {
        let r = arc_segments(start_angle, end_angle);
        proof {
            lemma_segments_cover(start_angle as int, end_angle as int);
            lemma_segments_bounded(start_angle as int, end_angle as int);
            assert forall|i: int| 0 <= i < r@.len() implies 0 < abs(#[trigger] r@[i].1 - r@[i].0)
                <= QUARTER_TURN by {
                assert(widen(r@[i]) == angle_segments(start_angle as int, end_angle as int)[i]);
            }
        }
        r
    }
}

} // verus!
