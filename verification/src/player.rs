//! A counting entity.

use vstd::prelude::*;
use crate::entity::Entity;

verus! {

/// An entity that counts the steps it has been given.
pub struct Player {
    /// The updates so far, counted modulo 2^64.
    pub ticks: u64,
}

impl Player {
    /// A player that has seen no step yet.
    pub fn new() -> (player: Player)
        ensures
            player.ticks == 0,
    {
        Player { ticks: 0 }
    }
}

impl Entity for Player {
    open spec fn updated(self, dt: u64) -> Self {
        Player { ticks: if self.ticks == u64::MAX { 0 } else { (self.ticks + 1) as u64 } }
    }

    open spec fn rendered(self) -> Self {
        self
    }

    /// Counts the step, whatever its length.
    fn update(&mut self, dt: u64) {
        self.ticks = self.ticks.wrapping_add(1);
    }

    /// A player has nothing to show.
    fn render(&mut self) {
    }
}

} // verus!
