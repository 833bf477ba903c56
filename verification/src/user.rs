//! A player's persistent record: wallet, lifetime catches, and inventory.
//!
//! Reading and writing the record to storage is the hosting application's
//! business; the engine only transforms the values.

use vstd::prelude::*;

use crate::fish::Fish;
use crate::inventory::Inventory;
use crate::money::MonetaryAmount;

verus! {

/// The stored values of one player.
#[derive(Clone, Debug)]
pub struct UserValues {
    /// The wallet, in cents.
    pub balance: MonetaryAmount,
    /// The names of species caught at least once.
    pub caught_fish: Vec<String>,
    /// Lifetime number of resolved catches.
    pub total_catches: u64,
    /// Whether a duplicate bait is equipped automatically when one is used.
    pub autobait: bool,
    /// Everything the player owns.
    pub inventory: Inventory,
}

/// Whether a species name is already on the player's list of catches.
pub open spec fn has_caught_spec(caught: Seq<String>, name: Seq<char>) -> bool {
    exists|i: int| 0 <= i < caught.len() && caught[i]@ == name
}

impl UserValues {
    /// A fresh record: an empty wallet and the starter inventory.
    pub fn new() -> (r: UserValues)
        ensures
            r.balance.amount_x100 == 0,
            r.caught_fish@.len() == 0,
            r.total_catches == 0,
            !r.autobait,
            r.inventory.wf(),
    {
        UserValues {
            balance: MonetaryAmount::new(0),
            caught_fish: Vec::new(),
            total_catches: 0,
            autobait: false,
            inventory: Inventory::default(),
        }
    }

    /// Whether the player has caught this species before.
    pub fn has_caught(&self, name: &String) -> (r: bool)
        ensures
            r == has_caught_spec(self.caught_fish@, name@),
    {
        let n = self.caught_fish.len();
        let mut i: usize = 0;
        while i < n
            invariant
                n == self.caught_fish@.len(),
                0 <= i <= n,
                forall|j: int| 0 <= j < i ==> self.caught_fish@[j]@ != name@,
            decreases n - i,
        {
            if self.caught_fish[i].eq(name) {
                return true;
            }
            i = i + 1;
        }
        false
    }

    /// Applies a successful catch to the record: credits the wallet with
    /// the fish's value (saturating at the largest representable balance),
    /// adds the species name to the catch list if it is new, and counts
    /// the catch.
    pub fn apply_catch(&mut self, fish: &Fish)
        ensures
            final(self).balance.amount_x100 == (if old(self).balance.amount_x100
                + fish.value.amount_x100 <= u64::MAX {
                old(self).balance.amount_x100 + fish.value.amount_x100
            } else {
                u64::MAX as int
            }),
            has_caught_spec(old(self).caught_fish@, fish.name@) ==> final(self).caught_fish@ == old(
                self,
            ).caught_fish@,
            !has_caught_spec(old(self).caught_fish@, fish.name@) ==> final(self).caught_fish@.len()
                == old(self).caught_fish@.len() + 1 && final(self).caught_fish@.last()@
                == fish.name@ && final(self).caught_fish@.drop_last() == old(self).caught_fish@,
            final(self).total_catches == (if old(self).total_catches < u64::MAX {
                old(self).total_catches + 1
            } else {
                u64::MAX as int
            }),
            final(self).autobait == old(self).autobait,
            final(self).inventory == old(self).inventory,
    {
        self.balance = self.balance.saturating_add(&fish.value);
        if !self.has_caught(&fish.name) {
            self.caught_fish.push(fish.name.clone());
        }
        if self.total_catches < u64::MAX {
            self.total_catches = self.total_catches + 1;
        }
    }
}

} // verus!
