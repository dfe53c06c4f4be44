//! Directions, and the snapshot of directional input taken once per tick.

use vstd::prelude::*;

verus! {

/// One of the four moves a player can ask for.
#[derive(Clone, Copy, Debug, PartialEq, Eq, Hash, Structural)]
pub enum Direction {
    Left,
    Right,
    Up,
    Down,
}

/// Which directions are asked for during one tick, one flag per direction.
#[derive(Clone, Copy, Debug, PartialEq, Eq, Hash, Structural)]
pub struct InputSnapshot {
    pub left: bool,
    pub right: bool,
    pub up: bool,
    pub down: bool,
}

impl InputSnapshot {
    /// The one direction a snapshot stands for: the first active flag in the
    /// order left, right, up, down, and none when no flag is active.
    pub open spec fn chosen(&self) -> Option<Direction> {
        if self.left {
            Some(Direction::Left)
        } else if self.right {
            Some(Direction::Right)
        } else if self.up {
            Some(Direction::Up)
        } else if self.down {
            Some(Direction::Down)
        } else {
            None
        }
    }

    /// Picks the direction to act on during this tick, see [`Self::chosen`].
    pub fn direction(&self) -> (picked: Option<Direction>)
        ensures
            picked == self.chosen(),
    {
        if self.left {
            Some(Direction::Left)
        } else if self.right {
            Some(Direction::Right)
        } else if self.up {
            Some(Direction::Up)
        } else if self.down {
            Some(Direction::Down)
        } else {
            None
        }
    }
}

/// The flags are ranked left, right, up, down: a direction is chosen exactly
/// when its flag is active and no flag ranked before it is.
pub proof fn lemma_priority_order(input: InputSnapshot)
    ensures
        input.chosen() == Some(Direction::Left) <==> input.left,
        input.chosen() == Some(Direction::Right) <==> !input.left && input.right,
        input.chosen() == Some(Direction::Up) <==> !input.left && !input.right && input.up,
        input.chosen() == Some(Direction::Down) <==> !input.left && !input.right && !input.up
            && input.down,
        input.chosen() is None <==> !input.left && !input.right && !input.up && !input.down,
{
}

} // verus!
