//! The catalog of shelves: how many levels there are, how wide the grid is,
//! and where every shelf lies.

use vstd::prelude::*;
use crate::shelf::ShelfPosition;

verus! {

/// The shelves of one scene, in catalog order, with the number of levels and
/// the width of the grid.
///
/// The view of a layout is the sequence of its shelves.
#[derive(Debug)]
pub struct ShelfStructure {
    pub level_count: u32,
    pub width: u32,
    pub shelves: Vec<ShelfPosition>,
}

impl View for ShelfStructure {
    type V = Seq<ShelfPosition>;

    open spec fn view(&self) -> Seq<ShelfPosition> {
        self.shelves@
    }
}

impl Clone for ShelfStructure {
    /// A copy with the same levels, width and shelves.
    fn clone(&self) -> (copy: ShelfStructure)
        ensures
            copy.level_count == self.level_count,
            copy.width == self.width,
            copy@ == self@,
    {
        let shelves: Vec<ShelfPosition> = self.shelves.clone();
        assert(shelves@ =~= self.shelves@);
        ShelfStructure { level_count: self.level_count, width: self.width, shelves }
    }
}

/// Shelf `i` of `shelves` has a non-empty span and lies on one of the
/// `level_count` levels.
pub open spec fn shelf_fits(level_count: u32, shelves: Seq<ShelfPosition>, i: int) -> bool {
    &&& shelves[i].well_formed()
    &&& shelves[i].level < level_count
}

/// What makes a layout sound: at least one level, a positive width, every
/// shelf with a non-empty span on an existing level, and no two shelves of
/// one level sharing a column. Two equal shelves overlap, so a sound layout
/// holds every shelf once.
pub open spec fn sound_layout(level_count: u32, width: u32, shelves: Seq<ShelfPosition>) -> bool {
    &&& level_count > 0
    &&& width > 0
    &&& forall|i: int| 0 <= i < shelves.len() ==> #[trigger] shelf_fits(level_count, shelves, i)
    &&& forall|i: int, j: int|
        #![trigger shelves[i], shelves[j]]
        0 <= i < j < shelves.len() ==> !shelves[i].overlaps(&shelves[j])
}

/// The shelves of `shelves` that lie on `level`, in their order.
pub open spec fn on_level(shelves: Seq<ShelfPosition>, level: u32) -> Seq<ShelfPosition> {
    shelves.filter(|s: ShelfPosition| s.level == level)
}

/// The shelves of the standard scene: ten shelves on six levels.
pub open spec fn standard_shelves() -> Seq<ShelfPosition> {
    seq![
        ShelfPosition { level: 0, start: -8i32, end: 8 },
        ShelfPosition { level: 1, start: -12i32, end: 1 },
        ShelfPosition { level: 1, start: 3, end: 7 },
        ShelfPosition { level: 2, start: -3i32, end: 9 },
        ShelfPosition { level: 3, start: -7i32, end: 3 },
        ShelfPosition { level: 3, start: 5, end: 9 },
        ShelfPosition { level: 4, start: 1, end: 4 },
        ShelfPosition { level: 5, start: -7i32, end: -3i32 },
        ShelfPosition { level: 5, start: -1i32, end: 2 },
        ShelfPosition { level: 5, start: 5, end: 8 },
    ]
}

impl Default for ShelfStructure {
    /// The standard scene: six levels on a grid 32 columns wide, with the
    /// shelves of [`standard_shelves`].
    fn default() -> (layout: ShelfStructure)
        ensures
            layout.level_count == 6,
            layout.width == 32,
            layout@ == standard_shelves(),
            layout.well_formed(),
    {
        let shelves: Vec<ShelfPosition> = vec![
            ShelfPosition { level: 0, start: -8, end: 8 },
            ShelfPosition { level: 1, start: -12, end: 1 },
            ShelfPosition { level: 1, start: 3, end: 7 },
            ShelfPosition { level: 2, start: -3, end: 9 },
            ShelfPosition { level: 3, start: -7, end: 3 },
            ShelfPosition { level: 3, start: 5, end: 9 },
            ShelfPosition { level: 4, start: 1, end: 4 },
            ShelfPosition { level: 5, start: -7, end: -3 },
            ShelfPosition { level: 5, start: -1, end: 2 },
            ShelfPosition { level: 5, start: 5, end: 8 },
        ];
        assert(shelves@ =~= standard_shelves());
        ShelfStructure { level_count: 6, width: 32, shelves }
    }
}

/// A sound layout holds no shelf twice: two equal shelves would overlap.
pub proof fn lemma_sound_layout_has_no_duplicates(
    level_count: u32,
    width: u32,
    shelves: Seq<ShelfPosition>,
)
    requires
        sound_layout(level_count, width, shelves),
    ensures
        shelves.no_duplicates(),
{
    assert forall|i: int, j: int|
        0 <= i < shelves.len() && 0 <= j < shelves.len() && i != j implies shelves[i]
        != shelves[j] by {
        assert(shelf_fits(level_count, shelves, i));
        if i < j {
            assert(!shelves[i].overlaps(&shelves[j]));
        } else {
            assert(!shelves[j].overlaps(&shelves[i]));
        }
    }
}

impl ShelfStructure {
    /// Whether this layout is sound, see [`sound_layout`].
    pub open spec fn well_formed(&self) -> bool {
        sound_layout(self.level_count, self.width, self@)
    }

    /// Builds a layout from its parts, or nothing when they do not make a
    /// sound layout.
    pub fn new(level_count: u32, width: u32, shelves: Vec<ShelfPosition>) -> (layout: Option<
        ShelfStructure,
    >)
        ensures
            layout is Some <==> sound_layout(level_count, width, shelves@),
            layout matches Some(l) ==> l.level_count == level_count && l.width == width && l@
                == shelves@,
    {
        let candidate = ShelfStructure { level_count, width, shelves };
        if candidate.is_well_formed() {
            Some(candidate)
        } else {
            None
        }
    }

    /// Checks every condition of a sound layout.
    pub fn is_well_formed(&self) -> (ok: bool)
        ensures
            ok == self.well_formed(),
    {
        if self.level_count == 0 || self.width == 0 {
            return false;
        }
        let n: usize = self.shelves.len();
        let mut j: usize = 0;
        while j < n
            invariant
                n == self@.len(),
                j <= n,
                forall|k: int| 0 <= k < j ==> #[trigger] shelf_fits(self.level_count, self@, k),
                forall|a: int, b: int|
                    #![trigger self@[a], self@[b]]
                    0 <= a < b < j ==> !self@[a].overlaps(&self@[b]),
            decreases n - j,
        {
            let shelf: &ShelfPosition = &self.shelves[j];
            if !shelf.is_well_formed() || shelf.level >= self.level_count {
                assert(!shelf_fits(self.level_count, self@, j as int));
                return false;
            }
            let mut i: usize = 0;
            while i < j
                invariant
                    n == self@.len(),
                    i <= j < n,
                    *shelf == self@[j as int],
                    forall|a: int|
                        0 <= a < i ==> !(#[trigger] self@[a]).overlaps(&self@[j as int]),
                decreases j - i,
            {
                if self.shelves[i].overlaps_with(shelf) {
                    return false;
                }
                i += 1;
            }
            j += 1;
        }
        true
    }

    /// Tells whether `shelf` is one of the shelves of this layout.
    pub fn contains(&self, shelf: &ShelfPosition) -> (found: bool)
        ensures
            found == self@.contains(*shelf),
    {
        let n: usize = self.shelves.len();
        let mut i: usize = 0;
        while i < n
            invariant
                n == self@.len(),
                i <= n,
                forall|k: int| 0 <= k < i ==> self@[k] != *shelf,
            decreases n - i,
        {
            if self.shelves[i] == *shelf {
                return true;
            }
            i += 1;
        }
        false
    }

    /// The shelves that lie on `level`, in catalog order; none where the
    /// level holds no shelf.
    pub fn shelves_at_level(&self, level: u32) -> (found: Vec<ShelfPosition>)
        ensures
            found@ == on_level(self@, level),
            forall|k: int|
                0 <= k < found@.len() ==> (#[trigger] found@[k]).level == level && self@.contains(
                    found@[k],
                ),
            forall|i: int|
                0 <= i < self@.len() && (#[trigger] self@[i]).level == level ==> found@.contains(
                    self@[i],
                ),
            found@.len() == 0 <==> forall|i: int|
                0 <= i < self@.len() ==> (#[trigger] self@[i]).level != level,
    {
        let ghost keep = |s: ShelfPosition| s.level == level;
        let n: usize = self.shelves.len();
        let mut found: Vec<ShelfPosition> = Vec::new();
        let mut i: usize = 0;
        proof {
            reveal(Seq::filter);
            assert(self@.take(0) =~= Seq::<ShelfPosition>::empty());
        }
        while i < n
            invariant
                n == self@.len(),
                i <= n,
                keep == |s: ShelfPosition| s.level == level,
                found@ == self@.take(i as int).filter(keep),
            decreases n - i,
        {
            let shelf: ShelfPosition = self.shelves[i];
            proof {
                reveal(Seq::filter);
                let next = self@.take(i + 1);
                assert(next.drop_last() =~= self@.take(i as int));
                assert(next.last() == shelf);
            }
            if shelf.level == level {
                found.push(shelf);
            }
            i += 1;
        }
        proof {
            assert(self@.take(n as int) =~= self@);
            assert forall|k: int| 0 <= k < found@.len() implies (#[trigger] found@[k]).level
                == level && self@.contains(found@[k]) by {
                self@.lemma_filter_pred(keep, k);
                self@.lemma_filter_contains_rev(keep, found@[k]);
            }
            assert forall|i: int|
                0 <= i < self@.len() && (#[trigger] self@[i]).level == level implies found@.contains(
                self@[i],
            ) by {
                self@.lemma_filter_contains(keep, i);
            }
            if found@.len() > 0 {
                let at = choose|at: int| 0 <= at < self@.len() && self@[at] == found@[0];
                assert(self@[at].level == level);
            }
        }
        found
    }
}

} // verus!
