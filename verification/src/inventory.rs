//! A player's owned gear and the bait bucket.
//!
//! The loadout a cast uses is recomputed on demand from the equipped
//! selections; it is never stored as derived data.

use vstd::prelude::*;

use crate::bait::Bait;
use crate::gear::{Line, Reel, RodBase, RodLoadout, Sinker};

verus! {

/// A player's collection of bait.
#[derive(Clone, Debug, Default)]
pub struct BaitBucket {
    pub baits: Vec<Bait>,
}

impl BaitBucket {
    /// An empty bucket.
    pub fn new() -> (r: BaitBucket)
        ensures
            r.baits@.len() == 0,
    {
        BaitBucket { baits: Vec::new() }
    }

    /// Adds a bait to the bucket.
    pub fn add(&mut self, bait: Bait)
        ensures
            final(self).baits@ == old(self).baits@.push(bait),
    {
        self.baits.push(bait);
    }

    /// Removes and returns the bait at an index; `None` when out of range.
    pub fn remove_index(&mut self, index: usize) -> (r: Option<Bait>)
        ensures
            index < old(self).baits@.len() ==> r == Some(old(self).baits@[index as int])
                && final(self).baits@ == old(self).baits@.remove(index as int),
            index >= old(self).baits@.len() ==> r is None && *final(self) == *old(self),
    {
        if index < self.baits.len() {
            Some(self.baits.remove(index))
        } else {
            None
        }
    }

    /// The bait at an index, if any.
    pub fn get(&self, index: usize) -> (r: Option<&Bait>)
        ensures
            index < self.baits@.len() ==> r == Some(&self.baits@[index as int]),
            index >= self.baits@.len() ==> r is None,
    {
        if index < self.baits.len() {
            Some(&self.baits[index])
        } else {
            None
        }
    }

    /// How many baits the bucket holds.
    pub fn len(&self) -> (r: usize)
        ensures
            r == self.baits@.len(),
    {
        self.baits.len()
    }

    /// Whether the bucket is empty.
    pub fn is_empty(&self) -> (r: bool)
        ensures
            r == (self.baits@.len() == 0),
    {
        self.baits.len() == 0
    }
}

/// The gear categories the inventory browser pages through.
#[derive(Clone, Copy, Debug, PartialEq, Eq, Structural)]
pub enum InventoryCategory {
    Rods,
    Reels,
    Lines,
    Sinkers,
}

impl InventoryCategory {
    /// The category one page to the right, wrapping around.
    pub fn next(&self) -> (r: InventoryCategory)
        ensures
            self is Rods ==> r is Reels,
            self is Reels ==> r is Lines,
            self is Lines ==> r is Sinkers,
            self is Sinkers ==> r is Rods,
    {
        match self {
            InventoryCategory::Rods => InventoryCategory::Reels,
            InventoryCategory::Reels => InventoryCategory::Lines,
            InventoryCategory::Lines => InventoryCategory::Sinkers,
            InventoryCategory::Sinkers => InventoryCategory::Rods,
        }
    }

    /// The category one page to the left, wrapping around.
    pub fn prev(&self) -> (r: InventoryCategory)
        ensures
            self is Rods ==> r is Sinkers,
            self is Reels ==> r is Rods,
            self is Lines ==> r is Reels,
            self is Sinkers ==> r is Lines,
    {
        match self {
            InventoryCategory::Rods => InventoryCategory::Sinkers,
            InventoryCategory::Reels => InventoryCategory::Rods,
            InventoryCategory::Lines => InventoryCategory::Reels,
            InventoryCategory::Sinkers => InventoryCategory::Lines,
        }
    }

    /// The category's display name.
    pub fn name(&self) -> (r: &'static str)
        ensures
            self is Rods ==> r == "Fishing Rods",
            self is Reels ==> r == "Reels",
            self is Lines ==> r == "Lines",
            self is Sinkers ==> r == "Sinkers",
    {
        match self {
            InventoryCategory::Rods => "Fishing Rods",
            InventoryCategory::Reels => "Reels",
            InventoryCategory::Lines => "Lines",
            InventoryCategory::Sinkers => "Sinkers",
        }
    }

    /// The category's description line.
    pub fn description(&self) -> (r: &'static str)
        ensures
            self is Rods ==> r == "View and equip your fishing rods.",
            self is Reels ==> r == "View and equip your reels.",
            self is Lines ==> r == "View and equip your fishing lines.",
            self is Sinkers ==> r == "View and equip your sinkers.",
    {
        match self {
            InventoryCategory::Rods => "View and equip your fishing rods.",
            InventoryCategory::Reels => "View and equip your reels.",
            InventoryCategory::Lines => "View and equip your fishing lines.",
            InventoryCategory::Sinkers => "View and equip your sinkers.",
        }
    }
}

/// Why an equip request was rejected.
#[derive(Clone, Copy, Debug, PartialEq, Eq, Structural)]
pub enum EquipError {
    /// The index points past the owned items of that category.
    InvalidSelection,
}

/// Everything a player owns, with the current selections.
#[derive(Clone, Debug)]
pub struct Inventory {
    pub rods: Vec<RodBase>,
    pub selected_rod: usize,
    pub lines: Vec<Line>,
    pub selected_line: usize,
    pub reels: Vec<Reel>,
    pub selected_reel: usize,
    pub sinkers: Vec<Sinker>,
    pub selected_sinker: usize,
    pub bait_bucket: BaitBucket,
    pub selected_bait: Option<usize>,
    pub underwater_cam: bool,
    pub depth_finder: bool,
}

/// Two baits that agree in every observable field.
pub open spec fn same_bait_spec(a: Bait, b: Bait) -> bool {
    &&& a.name == b.name
    &&& a.description == b.description
    &&& a.price == b.price
    &&& a.reusable == b.reusable
    &&& a.attraction@ == b.attraction@
}

impl Inventory {
    /// Every selection points at an owned item.
    pub open spec fn wf(&self) -> bool {
        &&& 0 < self.rods@.len()
        &&& self.selected_rod < self.rods@.len()
        &&& 0 < self.lines@.len()
        &&& self.selected_line < self.lines@.len()
        &&& 0 < self.reels@.len()
        &&& self.selected_reel < self.reels@.len()
        &&& 0 < self.sinkers@.len()
        &&& self.selected_sinker < self.sinkers@.len()
        &&& (self.selected_bait matches Some(i) ==> i < self.bait_bucket.baits@.len())
    }

    /// Runtime check of [`Inventory::wf`].
    pub fn check(&self) -> (r: bool)
        ensures
            r == self.wf(),
    {
        0 < self.rods.len() && self.selected_rod < self.rods.len() && 0 < self.lines.len()
            && self.selected_line < self.lines.len() && 0 < self.reels.len()
            && self.selected_reel < self.reels.len() && 0 < self.sinkers.len()
            && self.selected_sinker < self.sinkers.len() && (match self.selected_bait {
            Some(i) => i < self.bait_bucket.baits.len(),
            None => true,
        })
    }

    /// A copy of the equipped bait, if one is selected.
    pub fn get_selected_bait(&self) -> (r: Option<Bait>)
        requires
            self.wf(),
        ensures
            match self.selected_bait {
                Some(i) => r matches Some(b) && same_bait_spec(b, self.bait_bucket.baits@[i as int]),
                None => r is None,
            },
    {
        match self.selected_bait {
            Some(index) => match self.bait_bucket.get(index) {
                Some(b) => Some(b.clone()),
                None => None,
            },
            None => None,
        }
    }

    /// The loadout the player's current selections add up to.
    pub fn get_loadout(&self) -> (r: RodLoadout)
        requires
            self.wf(),
        ensures
            r.rod == self.rods@[self.selected_rod as int],
            r.line == self.lines@[self.selected_line as int],
            r.reel == self.reels@[self.selected_reel as int],
            r.sinker == self.sinkers@[self.selected_sinker as int],
            match self.selected_bait {
                Some(i) => r.bait matches Some(b) && same_bait_spec(
                    b,
                    self.bait_bucket.baits@[i as int],
                ),
                None => r.bait is None,
            },
            r.has_underwater_camera == self.underwater_cam,
            r.has_depth_finder == self.depth_finder,
    {
        RodLoadout {
            rod: self.rods[self.selected_rod].clone(),
            line: self.lines[self.selected_line].clone(),
            reel: self.reels[self.selected_reel].clone(),
            sinker: self.sinkers[self.selected_sinker].clone(),
            bait: self.get_selected_bait(),
            has_underwater_camera: self.underwater_cam,
            has_depth_finder: self.depth_finder,
        }
    }

    /// How many items the player owns in a category.
    pub fn get_item_count(&self, category: InventoryCategory) -> (r: usize)
        ensures
            category is Rods ==> r == self.rods@.len(),
            category is Reels ==> r == self.reels@.len(),
            category is Lines ==> r == self.lines@.len(),
            category is Sinkers ==> r == self.sinkers@.len(),
    {
        match category {
            InventoryCategory::Rods => self.rods.len(),
            InventoryCategory::Reels => self.reels.len(),
            InventoryCategory::Lines => self.lines.len(),
            InventoryCategory::Sinkers => self.sinkers.len(),
        }
    }

    /// Equips the item at `index` in a category. Rejects an index past the
    /// owned items; on success only that category's selection changes.
    pub fn equip(&mut self, category: InventoryCategory, index: usize) -> (r: Result<
        (),
        EquipError,
    >)
        ensures
            r is Err <==> index >= old(self).get_count_spec(category),
            r is Err ==> *final(self) == *old(self),
            r is Ok ==> {
                &&& final(self).rods@ == old(self).rods@
                &&& final(self).lines@ == old(self).lines@
                &&& final(self).reels@ == old(self).reels@
                &&& final(self).sinkers@ == old(self).sinkers@
                &&& final(self).bait_bucket == old(self).bait_bucket
                &&& final(self).selected_bait == old(self).selected_bait
                &&& final(self).underwater_cam == old(self).underwater_cam
                &&& final(self).depth_finder == old(self).depth_finder
                &&& final(self).selected_rod == (if category is Rods {
                    index as int
                } else {
                    old(self).selected_rod as int
                })
                &&& final(self).selected_reel == (if category is Reels {
                    index as int
                } else {
                    old(self).selected_reel as int
                })
                &&& final(self).selected_line == (if category is Lines {
                    index as int
                } else {
                    old(self).selected_line as int
                })
                &&& final(self).selected_sinker == (if category is Sinkers {
                    index as int
                } else {
                    old(self).selected_sinker as int
                })
            },
    {
        match category {
            InventoryCategory::Rods => {
                if index >= self.rods.len() {
                    return Err(EquipError::InvalidSelection);
                }
                self.selected_rod = index;
            },
            InventoryCategory::Reels => {
                if index >= self.reels.len() {
                    return Err(EquipError::InvalidSelection);
                }
                self.selected_reel = index;
            },
            InventoryCategory::Lines => {
                if index >= self.lines.len() {
                    return Err(EquipError::InvalidSelection);
                }
                self.selected_line = index;
            },
            InventoryCategory::Sinkers => {
                if index >= self.sinkers.len() {
                    return Err(EquipError::InvalidSelection);
                }
                self.selected_sinker = index;
            },
        }
        Ok(())
    }

    /// The owned-item count of a category, as the contracts see it.
    pub open spec fn get_count_spec(&self, category: InventoryCategory) -> int {
        match category {
            InventoryCategory::Rods => self.rods@.len() as int,
            InventoryCategory::Reels => self.reels@.len() as int,
            InventoryCategory::Lines => self.lines@.len() as int,
            InventoryCategory::Sinkers => self.sinkers@.len() as int,
        }
    }

    /// Selects the bait at `index` as active, or unequips with `None`.
    /// Rejects an index past the bucket's contents; nothing else changes.
    pub fn select_bait(&mut self, index: Option<usize>) -> (r: Result<(), EquipError>)
        ensures
            r is Err <==> (index matches Some(i) && i >= old(self).bait_bucket.baits@.len()),
            r is Err ==> *final(self) == *old(self),
            r is Ok ==> *final(self) == (Inventory { selected_bait: index, ..*old(self) }),
    {
        match index {
            Some(i) => {
                if i >= self.bait_bucket.len() {
                    return Err(EquipError::InvalidSelection);
                }
                self.selected_bait = Some(i);
            },
            None => {
                self.selected_bait = None;
            },
        }
        Ok(())
    }

    /// Unequips and discards the active bait, if any: the bait leaves the
    /// bucket. Used both when single-use bait is consumed by a resolved
    /// cast and when a snapped line forcibly clears it.
    pub fn consume_active_bait(&mut self)
        requires
            old(self).wf(),
        ensures
            final(self).selected_bait is None,
            match old(self).selected_bait {
                Some(i) => final(self).bait_bucket.baits@ == old(self).bait_bucket.baits@.remove(
                    i as int,
                ),
                None => final(self).bait_bucket == old(self).bait_bucket,
            },
            final(self).rods@ == old(self).rods@ && final(self).selected_rod == old(
                self,
            ).selected_rod,
            final(self).lines@ == old(self).lines@ && final(self).selected_line == old(
                self,
            ).selected_line,
            final(self).reels@ == old(self).reels@ && final(self).selected_reel == old(
                self,
            ).selected_reel,
            final(self).sinkers@ == old(self).sinkers@ && final(self).selected_sinker == old(
                self,
            ).selected_sinker,
            final(self).underwater_cam == old(self).underwater_cam,
            final(self).depth_finder == old(self).depth_finder,
    {
        match self.selected_bait {
            Some(index) => {
                let _ = self.bait_bucket.remove_index(index);
                self.selected_bait = None;
            },
            None => {},
        }
    }

    /// Forcibly clears the active bait after a snapped line.
    pub fn clear_active_bait(&mut self)
        requires
            old(self).wf(),
        ensures
            final(self).selected_bait is None,
            match old(self).selected_bait {
                Some(i) => final(self).bait_bucket.baits@ == old(self).bait_bucket.baits@.remove(
                    i as int,
                ),
                None => final(self).bait_bucket == old(self).bait_bucket,
            },
    {
        self.consume_active_bait();
    }
}

impl Default for Inventory {
    /// The starter inventory: exactly the default loadout's items, nothing
    /// selected but them, and no bait.
    fn default() -> (r: Inventory)
        ensures
            r.wf(),
            r.rods@.len() == 1 && r.lines@.len() == 1 && r.reels@.len() == 1 && r.sinkers@.len()
                == 1,
            r.selected_rod == 0 && r.selected_line == 0 && r.selected_reel == 0
                && r.selected_sinker == 0,
            r.bait_bucket.baits@.len() == 0,
            r.selected_bait is None,
            !r.underwater_cam,
            !r.depth_finder,
    {
        let loadout = RodLoadout::default();
        let mut rods: Vec<RodBase> = Vec::new();
        rods.push(loadout.rod);
        let mut lines: Vec<Line> = Vec::new();
        lines.push(loadout.line);
        let mut reels: Vec<Reel> = Vec::new();
        reels.push(loadout.reel);
        let mut sinkers: Vec<Sinker> = Vec::new();
        sinkers.push(loadout.sinker);
        Inventory {
            rods,
            selected_rod: 0,
            lines,
            selected_line: 0,
            reels,
            selected_reel: 0,
            sinkers,
            selected_sinker: 0,
            bait_bucket: BaitBucket::new(),
            selected_bait: None,
            underwater_cam: false,
            depth_finder: false,
        }
    }
}

} // verus!
