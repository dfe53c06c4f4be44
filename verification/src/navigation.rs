//! The resolver: from the shelf a player stands on and a direction to the
//! shelf the player moves to, or to no move.
//!
//! Every rule has the same shape. A direction makes some shelves of the
//! layout reachable and gives each of them a distance; the target is the
//! reachable shelf at the least distance, and among several at that
//! distance the one that comes first in the layout. Where no shelf is
//! reachable there is no move.

use vstd::prelude::*;
use crate::input::{Direction, InputSnapshot};
use crate::layout::{shelf_fits, sound_layout, ShelfStructure};
use crate::shelf::ShelfPosition;

verus! {

/// The absolute value of `x`.
pub open spec fn magnitude(x: int) -> int {
    if x < 0 {
        -x
    } else {
        x
    }
}

/// Whether a player on `cur` may move to `s` in direction `dir`.
///
/// * Left: `s` is on the level of `cur` and ends before `cur` starts.
/// * Right: `s` is on the level of `cur` and starts after `cur` ends.
/// * Up: `cur` is not on the topmost level, and `s` is one level above it.
/// * Down: `cur` is not on the bottom level, and `s` is one level below it.
pub open spec fn reachable(
    dir: Direction,
    level_count: u32,
    cur: ShelfPosition,
    s: ShelfPosition,
) -> bool {
    match dir {
        Direction::Left => s.level == cur.level && s.end < cur.start,
        Direction::Right => s.level == cur.level && s.start > cur.end,
        Direction::Up => cur.level != level_count - 1 && s.level == cur.level + 1,
        Direction::Down => cur.level != 0 && s.level == cur.level - 1,
    }
}

/// How far `s` is from `cur` for a move in direction `dir`.
///
/// * Left: from the right edge of `s` to the left edge of `cur`, so the
///   nearest shelf is the one with the largest `end`.
/// * Right: from the right edge of `cur` to the right edge of `s`, so the
///   nearest shelf is the one with the smallest `end`. Both sideways rules
///   go by the right edge of the candidate.
/// * Up and down: between the edge sums `start + end` of the two shelves,
///   which is twice the distance between their midpoints.
pub open spec fn distance(dir: Direction, cur: ShelfPosition, s: ShelfPosition) -> int {
    match dir {
        Direction::Left => cur.start - s.end,
        Direction::Right => s.end - cur.end,
        Direction::Up | Direction::Down => magnitude(s.edge_sum() - cur.edge_sum()),
    }
}

/// Whether some shelf of `shelves` is reachable from `cur` in direction `dir`.
pub open spec fn has_reachable(
    shelves: Seq<ShelfPosition>,
    level_count: u32,
    cur: ShelfPosition,
    dir: Direction,
) -> bool {
    exists|i: int| 0 <= i < shelves.len() && reachable(dir, level_count, cur, #[trigger] shelves[i])
}

/// Whether the shelf at index `i` is the target of a move from `cur` in
/// direction `dir`: it is reachable, no reachable shelf is nearer, and every
/// reachable shelf before it in the layout is strictly farther.
pub open spec fn is_target(
    shelves: Seq<ShelfPosition>,
    level_count: u32,
    cur: ShelfPosition,
    dir: Direction,
    i: int,
) -> bool {
    &&& 0 <= i < shelves.len()
    &&& reachable(dir, level_count, cur, shelves[i])
    &&& forall|j: int|
        0 <= j < shelves.len() && reachable(dir, level_count, cur, #[trigger] shelves[j])
            ==> distance(dir, cur, shelves[i]) <= distance(dir, cur, shelves[j])
    &&& forall|j: int|
        0 <= j < i && reachable(dir, level_count, cur, #[trigger] shelves[j]) ==> distance(
            dir,
            cur,
            shelves[i],
        ) < distance(dir, cur, shelves[j])
}

/// The outcome of a move from `cur` in direction `dir`: the target shelf, or
/// `None` for no move.
pub open spec fn resolved(
    shelves: Seq<ShelfPosition>,
    level_count: u32,
    cur: ShelfPosition,
    dir: Direction,
) -> Option<ShelfPosition> {
    if exists|i: int| is_target(shelves, level_count, cur, dir, i) {
        Some(shelves[choose|i: int| is_target(shelves, level_count, cur, dir, i)])
    } else {
        None
    }
}

/// The outcome of one tick: the move in the direction that the snapshot
/// stands for, and no move when it stands for none.
pub open spec fn navigated(
    shelves: Seq<ShelfPosition>,
    level_count: u32,
    cur: ShelfPosition,
    input: InputSnapshot,
) -> Option<ShelfPosition> {
    match input.chosen() {
        Some(dir) => resolved(shelves, level_count, cur, dir),
        None => None,
    }
}

/// A move has at most one target.
pub proof fn lemma_target_unique(
    shelves: Seq<ShelfPosition>,
    level_count: u32,
    cur: ShelfPosition,
    dir: Direction,
    i: int,
    j: int,
)
    requires
        is_target(shelves, level_count, cur, dir, i),
        is_target(shelves, level_count, cur, dir, j),
    ensures
        i == j,
{
}

/// The shelf at a target index is the outcome of the move.
pub proof fn lemma_target_is_resolved(
    shelves: Seq<ShelfPosition>,
    level_count: u32,
    cur: ShelfPosition,
    dir: Direction,
    i: int,
)
    requires
        is_target(shelves, level_count, cur, dir, i),
    ensures
        resolved(shelves, level_count, cur, dir) == Some(shelves[i]),
{
    let k = choose|k: int| is_target(shelves, level_count, cur, dir, k);
    lemma_target_unique(shelves, level_count, cur, dir, i, k);
}

/// The index of the target among the first `n` shelves, found by walking
/// them in order.
proof fn nearest_among(
    shelves: Seq<ShelfPosition>,
    level_count: u32,
    cur: ShelfPosition,
    dir: Direction,
    n: int,
) -> (at: int)
    requires
        0 <= n <= shelves.len(),
        has_reachable(shelves.take(n), level_count, cur, dir),
    ensures
        is_target(shelves.take(n), level_count, cur, dir, at),
    decreases n,
{
    let head = shelves.take(n);
    let before = shelves.take(n - 1);
    let last = n - 1;
    assert forall|k: int| 0 <= k < last implies #[trigger] before[k] == head[k] by {}
    if has_reachable(before, level_count, cur, dir) {
        let best = nearest_among(shelves, level_count, cur, dir, last);
        if reachable(dir, level_count, cur, head[last]) && distance(dir, cur, head[last])
            < distance(dir, cur, head[best]) {
            last
        } else {
            best
        }
    } else {
        last
    }
}

/// A move has a target exactly when some shelf is reachable, and the
/// target is then a reachable shelf of the layout.
pub proof fn lemma_resolved_iff_reachable(
    shelves: Seq<ShelfPosition>,
    level_count: u32,
    cur: ShelfPosition,
    dir: Direction,
)
    ensures
        resolved(shelves, level_count, cur, dir) is Some <==> has_reachable(
            shelves,
            level_count,
            cur,
            dir,
        ),
        resolved(shelves, level_count, cur, dir) matches Some(t) ==> shelves.contains(t)
            && reachable(dir, level_count, cur, t),
{
    if has_reachable(shelves, level_count, cur, dir) {
        assert(shelves.take(shelves.len() as int) =~= shelves);
        let at = nearest_among(shelves, level_count, cur, dir, shelves.len() as int);
        lemma_target_is_resolved(shelves, level_count, cur, dir, at);
    }
    if resolved(shelves, level_count, cur, dir) is Some {
        let k = choose|k: int| is_target(shelves, level_count, cur, dir, k);
        assert(reachable(dir, level_count, cur, shelves[k]));
    }
}

/// From the bottom level there is no way down, whatever the layout holds.
pub proof fn lemma_no_way_down_from_bottom(
    shelves: Seq<ShelfPosition>,
    level_count: u32,
    cur: ShelfPosition,
)
    requires
        cur.level == 0,
    ensures
        resolved(shelves, level_count, cur, Direction::Down) is None,
{
}

/// From the topmost level there is no way up, whatever the layout holds.
pub proof fn lemma_no_way_up_from_top(
    shelves: Seq<ShelfPosition>,
    level_count: u32,
    cur: ShelfPosition,
)
    requires
        cur.level == level_count - 1,
    ensures
        resolved(shelves, level_count, cur, Direction::Up) is None,
{
}

/// Left and right asked for in one tick: the outcome is that of the move
/// to the left alone.
pub proof fn lemma_left_beats_right(
    shelves: Seq<ShelfPosition>,
    level_count: u32,
    cur: ShelfPosition,
    input: InputSnapshot,
)
    requires
        input.left,
        input.right,
    ensures
        navigated(shelves, level_count, cur, input) == resolved(
            shelves,
            level_count,
            cur,
            Direction::Left,
        ),
{
}

/// In a sound layout a sideways move never has to break a tie: two
/// different shelves that are reachable to one side end on different
/// columns, so the order of the catalog plays no part in the outcome.
pub proof fn lemma_no_sideways_tie_in_sound_layout(
    shelves: Seq<ShelfPosition>,
    level_count: u32,
    width: u32,
    cur: ShelfPosition,
    dir: Direction,
    i: int,
    j: int,
)
    requires
        sound_layout(level_count, width, shelves),
        dir == Direction::Left || dir == Direction::Right,
        0 <= i < shelves.len(),
        0 <= j < shelves.len(),
        i != j,
        reachable(dir, level_count, cur, shelves[i]),
        reachable(dir, level_count, cur, shelves[j]),
    ensures
        distance(dir, cur, shelves[i]) != distance(dir, cur, shelves[j]),
{
    assert(shelf_fits(level_count, shelves, i));
    assert(shelf_fits(level_count, shelves, j));
}

/// Whether some shelf on the level of `cur` begins on the very column where
/// `cur` ends, and ends before `right` begins. Such a shelf cannot be
/// reached from `cur` by a move to the right, yet from `right` it is nearer
/// than `cur`.
pub open spec fn wedged_after(
    shelves: Seq<ShelfPosition>,
    cur: ShelfPosition,
    right: ShelfPosition,
) -> bool {
    exists|k: int|
        0 <= k < shelves.len() && (#[trigger] shelves[k]).level == cur.level && shelves[k].start
            == cur.end && shelves[k].end < right.start
}

/// Whether some shelf on the level of `cur` ends on the very column where
/// `cur` begins, and begins after `left` ends. Such a shelf cannot be
/// reached from `cur` by a move to the left, yet from `left` it is nearer
/// than `cur`.
pub open spec fn wedged_before(
    shelves: Seq<ShelfPosition>,
    cur: ShelfPosition,
    left: ShelfPosition,
) -> bool {
    exists|k: int|
        0 <= k < shelves.len() && (#[trigger] shelves[k]).level == cur.level && shelves[k].end
            == cur.start && shelves[k].start > left.end
}

/// Right, then left, in a sound layout: the player is back where it began
/// exactly when no shelf is wedged between its shelf and the one to the
/// right. The round trip is no law of every layout.
pub proof fn lemma_right_then_left(
    shelves: Seq<ShelfPosition>,
    level_count: u32,
    width: u32,
    cur: ShelfPosition,
    right: ShelfPosition,
)
    requires
        sound_layout(level_count, width, shelves),
        shelves.contains(cur),
        resolved(shelves, level_count, cur, Direction::Right) == Some(right),
    ensures
        resolved(shelves, level_count, right, Direction::Left) == Some(cur) <==> !wedged_after(
            shelves,
            cur,
            right,
        ),
{
    let c = choose|c: int| 0 <= c < shelves.len() && shelves[c] == cur;
    let r = choose|r: int| is_target(shelves, level_count, cur, Direction::Right, r);
    assert(shelf_fits(level_count, shelves, r));
    assert(shelf_fits(level_count, shelves, c));
    if wedged_after(shelves, cur, right) {
        let k = choose|k: int|
            0 <= k < shelves.len() && (#[trigger] shelves[k]).level == cur.level && shelves[k].start
                == cur.end && shelves[k].end < right.start;
        assert(shelf_fits(level_count, shelves, k));
        assert(reachable(Direction::Left, level_count, right, shelves[k]));
        lemma_resolved_iff_reachable(shelves, level_count, right, Direction::Left);
        let t = choose|t: int| is_target(shelves, level_count, right, Direction::Left, t);
        assert(shelves[t].end >= shelves[k].end);
    } else {
        assert forall|j: int|
            0 <= j < shelves.len() && reachable(
                Direction::Left,
                level_count,
                right,
                #[trigger] shelves[j],
            ) implies shelves[j].end <= cur.end && (j < c ==> shelves[j].end < cur.end) by {
            assert(shelf_fits(level_count, shelves, j));
        }
        assert(is_target(shelves, level_count, right, Direction::Left, c));
        lemma_target_is_resolved(shelves, level_count, right, Direction::Left, c);
    }
}

/// Left, then right, in a sound layout: the player is back where it began
/// exactly when no shelf is wedged between its shelf and the one to the
/// left.
pub proof fn lemma_left_then_right(
    shelves: Seq<ShelfPosition>,
    level_count: u32,
    width: u32,
    cur: ShelfPosition,
    left: ShelfPosition,
)
    requires
        sound_layout(level_count, width, shelves),
        shelves.contains(cur),
        resolved(shelves, level_count, cur, Direction::Left) == Some(left),
    ensures
        resolved(shelves, level_count, left, Direction::Right) == Some(cur) <==> !wedged_before(
            shelves,
            cur,
            left,
        ),
{
    let c = choose|c: int| 0 <= c < shelves.len() && shelves[c] == cur;
    let l = choose|l: int| is_target(shelves, level_count, cur, Direction::Left, l);
    assert(shelf_fits(level_count, shelves, l));
    assert(shelf_fits(level_count, shelves, c));
    if wedged_before(shelves, cur, left) {
        let k = choose|k: int|
            0 <= k < shelves.len() && (#[trigger] shelves[k]).level == cur.level && shelves[k].end
                == cur.start && shelves[k].start > left.end;
        assert(shelf_fits(level_count, shelves, k));
        assert(reachable(Direction::Right, level_count, left, shelves[k]));
        lemma_resolved_iff_reachable(shelves, level_count, left, Direction::Right);
        let t = choose|t: int| is_target(shelves, level_count, left, Direction::Right, t);
        assert(shelves[t].end <= shelves[k].end);
    } else {
        assert forall|j: int|
            0 <= j < shelves.len() && reachable(
                Direction::Right,
                level_count,
                left,
                #[trigger] shelves[j],
            ) implies cur.end <= shelves[j].end && (j < c ==> cur.end < shelves[j].end) by {
            assert(shelf_fits(level_count, shelves, j));
        }
        assert(is_target(shelves, level_count, left, Direction::Right, c));
        lemma_target_is_resolved(shelves, level_count, left, Direction::Right, c);
    }
}

/// Tells whether a player on `cur` may move to `s` in direction `dir`.
pub fn is_reachable(dir: Direction, level_count: u32, cur: &ShelfPosition, s: &ShelfPosition) -> (ok:
    bool)
    ensures
        ok == reachable(dir, level_count, *cur, *s),
{
    match dir {
        Direction::Left => s.level == cur.level && s.end < cur.start,
        Direction::Right => s.level == cur.level && s.start > cur.end,
        Direction::Up => {
            let at_top: bool = level_count > 0 && cur.level == level_count - 1;
            !at_top && cur.level < u32::MAX && s.level == cur.level + 1
        },
        Direction::Down => cur.level != 0 && s.level == cur.level - 1,
    }
}

/// Computes how far `s` is from `cur` for a move in direction `dir`.
pub fn measure(dir: Direction, cur: &ShelfPosition, s: &ShelfPosition) -> (d: i64)
    ensures
        d == distance(dir, *cur, *s),
{
    match dir {
        Direction::Left => cur.start as i64 - s.end as i64,
        Direction::Right => s.end as i64 - cur.end as i64,
        Direction::Up | Direction::Down => {
            let apart: i64 = s.midpoint_sum() - cur.midpoint_sum();
            if apart < 0 {
                -apart
            } else {
                apart
            }
        },
    }
}

impl ShelfStructure {
    /// Resolves a move from `cur` in direction `dir`.
    ///
    /// The layout may be any layout, sound or not, and `cur` any shelf, in
    /// the layout or not. Among equally near shelves the first in catalog
    /// order is the target. The layout is only read: the outcome is a
    /// function of the shelves, the number of levels, `cur` and `dir`.
    pub fn resolve(&self, cur: &ShelfPosition, dir: Direction) -> (target: Option<ShelfPosition>)
        ensures
            target == resolved(self@, self.level_count, *cur, dir),
            target is Some <==> has_reachable(self@, self.level_count, *cur, dir),
            target matches Some(t) ==> self@.contains(t) && reachable(
                dir,
                self.level_count,
                *cur,
                t,
            ),
    {
        let n: usize = self.shelves.len();
        let mut target: Option<ShelfPosition> = None;
        let mut least: i64 = 0;
        let ghost mut at: int = 0;
        let mut i: usize = 0;
        while i < n
            invariant
                n == self@.len(),
                i <= n,
                target is None ==> forall|k: int|
                    0 <= k < i ==> !reachable(dir, self.level_count, *cur, #[trigger] self@[k]),
                target matches Some(t) ==> {
                    &&& 0 <= at < i
                    &&& self@[at] == t
                    &&& reachable(dir, self.level_count, *cur, t)
                    &&& least == distance(dir, *cur, t)
                    &&& forall|k: int|
                        0 <= k < i && reachable(dir, self.level_count, *cur, #[trigger] self@[k])
                            ==> least <= distance(dir, *cur, self@[k])
                    &&& forall|k: int|
                        0 <= k < at && reachable(dir, self.level_count, *cur, #[trigger] self@[k])
                            ==> least < distance(dir, *cur, self@[k])
                },
            decreases n - i,
        {
            let shelf: ShelfPosition = self.shelves[i];
            if is_reachable(dir, self.level_count, cur, &shelf) {
                let d: i64 = measure(dir, cur, &shelf);
                if target.is_none() || d < least {
                    target = Some(shelf);
                    least = d;
                    proof {
                        at = i as int;
                    }
                }
            }
            i += 1;
        }
        proof {
            if target is Some {
                assert(is_target(self@, self.level_count, *cur, dir, at));
                lemma_target_is_resolved(self@, self.level_count, *cur, dir, at);
            }
        }
        target
    }

    /// Move Left: among the shelves on the level of `cur` that end before
    /// `cur` starts, the one with the largest `end`.
    pub fn move_left(&self, cur: &ShelfPosition) -> (target: Option<ShelfPosition>)
        ensures
            target == resolved(self@, self.level_count, *cur, Direction::Left),
            target matches Some(t) ==> self@.contains(t) && t.level == cur.level && t.end
                < cur.start,
            target matches Some(t) ==> forall|k: int|
                #![trigger self@[k]]
                0 <= k < self@.len() && self@[k].level == cur.level && self@[k].end < cur.start
                    ==> self@[k].end <= t.end,
            target is None <==> forall|k: int|
                #![trigger self@[k]]
                0 <= k < self@.len() ==> !(self@[k].level == cur.level && self@[k].end
                    < cur.start),
    {
        self.resolve(cur, Direction::Left)
    }

    /// Move Right: among the shelves on the level of `cur` that start after
    /// `cur` ends, the one with the smallest `end`.
    pub fn move_right(&self, cur: &ShelfPosition) -> (target: Option<ShelfPosition>)
        ensures
            target == resolved(self@, self.level_count, *cur, Direction::Right),
            target matches Some(t) ==> self@.contains(t) && t.level == cur.level && t.start
                > cur.end,
            target matches Some(t) ==> forall|k: int|
                #![trigger self@[k]]
                0 <= k < self@.len() && self@[k].level == cur.level && self@[k].start > cur.end
                    ==> t.end <= self@[k].end,
            target is None <==> forall|k: int|
                #![trigger self@[k]]
                0 <= k < self@.len() ==> !(self@[k].level == cur.level && self@[k].start
                    > cur.end),
    {
        self.resolve(cur, Direction::Right)
    }

    /// Move Up: no move from the topmost level; elsewhere, among the shelves
    /// one level above `cur`, the one whose edge sum is nearest to that of
    /// `cur`.
    pub fn move_up(&self, cur: &ShelfPosition) -> (target: Option<ShelfPosition>)
        ensures
            target == resolved(self@, self.level_count, *cur, Direction::Up),
            cur.level == self.level_count - 1 ==> target is None,
            target matches Some(t) ==> self@.contains(t) && t.level == cur.level + 1,
            target matches Some(t) ==> forall|k: int|
                #![trigger self@[k]]
                0 <= k < self@.len() && self@[k].level == cur.level + 1 ==> magnitude(
                    t.edge_sum() - cur.edge_sum(),
                ) <= magnitude(self@[k].edge_sum() - cur.edge_sum()),
            target is None <==> cur.level == self.level_count - 1 || forall|k: int|
                #![trigger self@[k]]
                0 <= k < self@.len() ==> self@[k].level != cur.level + 1,
    {
        self.resolve(cur, Direction::Up)
    }

    /// Move Down: no move from the bottom level; elsewhere, among the
    /// shelves one level below `cur`, the one whose edge sum is nearest to
    /// that of `cur`.
    pub fn move_down(&self, cur: &ShelfPosition) -> (target: Option<ShelfPosition>)
        ensures
            target == resolved(self@, self.level_count, *cur, Direction::Down),
            cur.level == 0 ==> target is None,
            target matches Some(t) ==> self@.contains(t) && t.level == cur.level - 1,
            target matches Some(t) ==> forall|k: int|
                #![trigger self@[k]]
                0 <= k < self@.len() && self@[k].level == cur.level - 1 ==> magnitude(
                    t.edge_sum() - cur.edge_sum(),
                ) <= magnitude(self@[k].edge_sum() - cur.edge_sum()),
            target is None <==> cur.level == 0 || forall|k: int|
                #![trigger self@[k]]
                0 <= k < self@.len() ==> self@[k].level != cur.level - 1,
    {
        self.resolve(cur, Direction::Down)
    }

    /// Decides one tick: picks the one direction that `input` stands for,
    /// left before right before up before down, and resolves that move.
    /// The other flags of the snapshot play no part.
    pub fn navigate(&self, cur: &ShelfPosition, input: &InputSnapshot) -> (target: Option<
        ShelfPosition,
    >)
        ensures
            target == navigated(self@, self.level_count, *cur, *input),
            target matches Some(t) ==> self@.contains(t),
            input.chosen() is None ==> target is None,
    {
        match input.direction() {
            Some(dir) => self.resolve(cur, dir),
            None => None,
        }
    }
}

} // verus!
