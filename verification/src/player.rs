//! The player: the one shelf it stands on, replaced on every move.

use vstd::prelude::*;
use crate::input::InputSnapshot;
use crate::layout::ShelfStructure;
use crate::navigation::navigated;
use crate::shelf::ShelfPosition;

verus! {

/// A player, known by the shelf it stands on.
#[derive(Clone, Copy, Debug, PartialEq, Eq, Hash, Structural)]
pub struct Player {
    pub shelf: ShelfPosition,
}

impl Player {
    /// The invariant of a player in play: its shelf is one of the shelves of
    /// the layout.
    pub open spec fn stands_in(&self, layout: &ShelfStructure) -> bool {
        layout@.contains(self.shelf)
    }

    /// Puts a new player on the first shelf of `layout`; there is no player
    /// where the layout has no shelf.
    pub fn new(layout: &ShelfStructure) -> (player: Option<Player>)
        ensures
            player is None <==> layout@.len() == 0,
            player matches Some(p) ==> p.shelf == layout@[0] && p.stands_in(layout),
    {
        if layout.shelves.len() == 0 {
            None
        } else {
            Some(Player { shelf: layout.shelves[0] })
        }
    }

    /// Plays one tick: decides the move that `input` asks for and, where
    /// there is one, steps onto its target. Returns the new shelf after a
    /// move and `None` where the player stays.
    pub fn tick(&mut self, layout: &ShelfStructure, input: &InputSnapshot) -> (moved: Option<
        ShelfPosition,
    >)
        ensures
            moved == navigated(layout@, layout.level_count, old(self).shelf, *input),
            moved matches Some(t) ==> final(self).shelf == t,
            moved is None ==> *final(self) == *old(self),
            old(self).stands_in(layout) ==> final(self).stands_in(layout),
    {
        let moved: Option<ShelfPosition> = layout.navigate(&self.shelf, input);
        match moved {
            Some(target) => {
                self.shelf = target;
            },
            None => {},
        }
        moved
    }
}

} // verus!
