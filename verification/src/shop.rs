//! The shop: static gear catalogs plus a bait stock that refreshes daily.
//!
//! Loading and saving the shop files, and asking the clock for today's
//! date, are the hosting application's business; the engine works with a
//! plain day number.

use vstd::prelude::*;

use crate::bait::{no_conflicts_spec, Bait, BaitData, BaitPotency};
use crate::gear::{Line, Reel, RodBase, Sinker};
use crate::money::MonetaryAmount;
use crate::user::UserValues;

verus! {

/// The pages the shop browser cycles through.
#[derive(Clone, Copy, Debug, PartialEq, Eq, Structural)]
pub enum ShopCategory {
    Rods,
    Reels,
    Lines,
    Sinkers,
    Bait,
    Unique,
}

impl ShopCategory {
    /// The page one step to the right, wrapping around.
    pub fn next(&self) -> (r: ShopCategory)
        ensures
            self is Rods ==> r is Reels,
            self is Reels ==> r is Lines,
            self is Lines ==> r is Sinkers,
            self is Sinkers ==> r is Bait,
            self is Bait ==> r is Unique,
            self is Unique ==> r is Rods,
    {
        match self {
            ShopCategory::Rods => ShopCategory::Reels,
            ShopCategory::Reels => ShopCategory::Lines,
            ShopCategory::Lines => ShopCategory::Sinkers,
            ShopCategory::Sinkers => ShopCategory::Bait,
            ShopCategory::Bait => ShopCategory::Unique,
            ShopCategory::Unique => ShopCategory::Rods,
        }
    }

    /// The page one step to the left, wrapping around.
    pub fn prev(&self) -> (r: ShopCategory)
        ensures
            self is Rods ==> r is Unique,
            self is Reels ==> r is Rods,
            self is Lines ==> r is Reels,
            self is Sinkers ==> r is Lines,
            self is Bait ==> r is Sinkers,
            self is Unique ==> r is Bait,
    {
        match self {
            ShopCategory::Rods => ShopCategory::Unique,
            ShopCategory::Reels => ShopCategory::Rods,
            ShopCategory::Lines => ShopCategory::Reels,
            ShopCategory::Sinkers => ShopCategory::Lines,
            ShopCategory::Bait => ShopCategory::Sinkers,
            ShopCategory::Unique => ShopCategory::Bait,
        }
    }

    /// The page's display name.
    pub fn name(&self) -> (r: &'static str)
        ensures
            self is Rods ==> r == "Fishing Rods",
            self is Reels ==> r == "Reels",
            self is Lines ==> r == "Lines",
            self is Sinkers ==> r == "Sinkers",
            self is Bait ==> r == "Bait (Daily Stock)",
            self is Unique ==> r == "Unique Equipment",
    {
        match self {
            ShopCategory::Rods => "Fishing Rods",
            ShopCategory::Reels => "Reels",
            ShopCategory::Lines => "Lines",
            ShopCategory::Sinkers => "Sinkers",
            ShopCategory::Bait => "Bait (Daily Stock)",
            ShopCategory::Unique => "Unique Equipment",
        }
    }

    /// The page's description line.
    pub fn description(&self) -> (r: &'static str)
        ensures
            r@.len() > 0,
    {
        let d = match self {
            ShopCategory::Rods
                => "The main tool for fishing. Better rods increase catch chance and handle heavier loads.",
            ShopCategory::Reels
                => "Determines how fast you can reel in a catch. Faster reels reduce catch time.",
            ShopCategory::Lines
                => "Determines the maximum weight you can pull. Stronger lines prevent snapping.",
            ShopCategory::Sinkers
                => "Determines the depth range you can reach. Different fish live at different depths.",
            ShopCategory::Bait
                => "Consumables that attract specific fish, sizes, or rarities. Refreshes daily.",
            ShopCategory::Unique
                => "Special utility items that provide permanent bonuses or information.",
        };
        proof {
            reveal_strlit(
                "The main tool for fishing. Better rods increase catch chance and handle heavier loads.",
            );
            reveal_strlit(
                "Determines how fast you can reel in a catch. Faster reels reduce catch time.",
            );
            reveal_strlit(
                "Determines the maximum weight you can pull. Stronger lines prevent snapping.",
            );
            reveal_strlit(
                "Determines the depth range you can reach. Different fish live at different depths.",
            );
            reveal_strlit(
                "Consumables that attract specific fish, sizes, or rarities. Refreshes daily.",
            );
            reveal_strlit(
                "Special utility items that provide permanent bonuses or information.",
            );
        }
        d
    }
}

/// The preset bait options of the quick-buy menu: display label and value
/// tag.
pub fn get_bait_options() -> (r: Vec<(&'static str, &'static str)>)
    ensures
        r@.len() == 3,
        r@[0].1 == "worms",
        r@[1].1 == "crickets",
        r@[2].1 == "minnow",
{
    let mut v: Vec<(&'static str, &'static str)> = Vec::new();
    v.push(("Worms ($5)", "worms"));
    v.push(("Crickets ($10)", "crickets"));
    v.push(("Minnow ($15)", "minnow"));
    v
}

/// The dynamic part of the shop: the day it was last restocked and the
/// baits on offer that day.
#[derive(Clone, Debug)]
pub struct ShopState {
    /// The day of the last restock, as a day number.
    pub last_refresh_day: u64,
    pub daily_baits: Vec<Bait>,
}

impl Default for ShopState {
    /// A never-refreshed shop: day zero, no stock.
    fn default() -> (r: ShopState)
        ensures
            r.last_refresh_day == 0,
            r.daily_baits@.len() == 0,
    {
        ShopState { last_refresh_day: 0, daily_baits: Vec::new() }
    }
}

impl ShopState {
    /// Whether the stock is stale: the last restock happened on an
    /// earlier day than today.
    pub fn needs_refresh(&self, today_day: u64) -> (r: bool)
        ensures
            r == (self.last_refresh_day < today_day),
    {
        self.last_refresh_day < today_day
    }

    /// Restocks the shop for today: four low-potency baits, three medium,
    /// one high, and one guaranteed lure. Every generated bait has
    /// conflict-free attractions.
    pub fn refresh_stock(today_day: u64, data: &BaitData) -> (r: ShopState)
        ensures
            r.last_refresh_day == today_day,
            r.daily_baits@.len() == 9,
            forall|i: int|
                0 <= i < r.daily_baits@.len() ==> no_conflicts_spec(
                    #[trigger] r.daily_baits@[i].attraction@,
                ),
            r.daily_baits@[8].reusable,
    {
        let mut baits: Vec<Bait> = Vec::new();
        baits.push(Bait::generate(BaitPotency::Low, false, data));
        baits.push(Bait::generate(BaitPotency::Low, false, data));
        baits.push(Bait::generate(BaitPotency::Low, false, data));
        baits.push(Bait::generate(BaitPotency::Low, false, data));
        baits.push(Bait::generate(BaitPotency::Medium, false, data));
        baits.push(Bait::generate(BaitPotency::Medium, false, data));
        baits.push(Bait::generate(BaitPotency::Medium, false, data));
        baits.push(Bait::generate(BaitPotency::High, false, data));
        baits.push(Bait::generate(BaitPotency::High, true, data));
        ShopState { last_refresh_day: today_day, daily_baits: baits }
    }
}

/// The whole shop: the dynamic bait stock plus the static gear catalogs.
#[derive(Clone, Debug)]
pub struct Shop {
    pub state: ShopState,
    pub rods: Vec<RodBase>,
    pub lines: Vec<Line>,
    pub reels: Vec<Reel>,
    pub sinkers: Vec<Sinker>,
}

/// Why a purchase was rejected.
#[derive(Clone, Copy, Debug, PartialEq, Eq, Structural)]
pub enum PurchaseError {
    /// The index points past the items of that page.
    ItemNotFound,
    /// The player's balance does not cover the price.
    InsufficientFunds,
    /// The unique item is already owned.
    AlreadyOwned,
}

/// The price of the depth finder, in cents.
pub const DEPTH_FINDER_PRICE: u64 = 500_000;

/// The price of the underwater camera, in cents.
pub const UNDERWATER_CAMERA_PRICE: u64 = 250_000;

impl Shop {
    /// How many items a page offers.
    pub fn get_item_count(&self, category: ShopCategory) -> (r: usize)
        ensures
            category is Rods ==> r == self.rods@.len(),
            category is Reels ==> r == self.reels@.len(),
            category is Lines ==> r == self.lines@.len(),
            category is Sinkers ==> r == self.sinkers@.len(),
            category is Bait ==> r == self.state.daily_baits@.len(),
            category is Unique ==> r == 2,
    {
        match category {
            ShopCategory::Rods => self.rods.len(),
            ShopCategory::Reels => self.reels.len(),
            ShopCategory::Lines => self.lines.len(),
            ShopCategory::Sinkers => self.sinkers.len(),
            ShopCategory::Bait => self.state.daily_baits.len(),
            ShopCategory::Unique => 2,
        }
    }

    /// Buys the item at `index` on a page for a player: checks the price
    /// against the wallet, deducts it, adds the item to the player's
    /// inventory, and equips it. Unique items set their flag instead and
    /// cannot be bought twice.
    pub fn purchase(&self, user: &mut UserValues, category: ShopCategory, index: usize) -> (r:
        Result<(), PurchaseError>)
        requires
            old(user).inventory.wf(),
        ensures
            r is Ok ==> final(user).inventory.wf(),
            r is Err ==> *final(user) == *old(user),
            r is Err <==> match category {
                ShopCategory::Rods => index >= self.rods@.len() || old(user).balance.amount_x100
                    < self.rods@[index as int].price,
                ShopCategory::Reels => index >= self.reels@.len() || old(user).balance.amount_x100
                    < self.reels@[index as int].price,
                ShopCategory::Lines => index >= self.lines@.len() || old(user).balance.amount_x100
                    < self.lines@[index as int].price,
                ShopCategory::Sinkers => index >= self.sinkers@.len() || old(
                    user,
                ).balance.amount_x100 < self.sinkers@[index as int].price,
                ShopCategory::Bait => index >= self.state.daily_baits@.len() || old(
                    user,
                ).balance.amount_x100 < self.state.daily_baits@[index as int].price,
                ShopCategory::Unique => index >= 2 || (index == 0 && (old(
                    user,
                ).inventory.depth_finder || old(user).balance.amount_x100 < DEPTH_FINDER_PRICE))
                    || (index == 1 && (old(user).inventory.underwater_cam || old(
                    user,
                ).balance.amount_x100 < UNDERWATER_CAMERA_PRICE)),
            },
            r is Ok && category is Rods ==> {
                &&& index < self.rods@.len()
                &&& old(user).balance.amount_x100 >= self.rods@[index as int].price
                &&& final(user).balance.amount_x100 == old(user).balance.amount_x100
                    - self.rods@[index as int].price
                &&& final(user).inventory.rods@.len() == old(user).inventory.rods@.len() + 1
                &&& final(user).inventory.rods@.last() == self.rods@[index as int]
                &&& final(user).inventory.selected_rod + 1 == final(user).inventory.rods@.len()
            },
            r is Ok && category is Lines ==> {
                &&& index < self.lines@.len()
                &&& old(user).balance.amount_x100 >= self.lines@[index as int].price
                &&& final(user).balance.amount_x100 == old(user).balance.amount_x100
                    - self.lines@[index as int].price
                &&& final(user).inventory.lines@.len() == old(user).inventory.lines@.len() + 1
                &&& final(user).inventory.lines@.last() == self.lines@[index as int]
                &&& final(user).inventory.selected_line + 1 == final(user).inventory.lines@.len()
            },
            r is Ok && category is Reels ==> {
                &&& index < self.reels@.len()
                &&& old(user).balance.amount_x100 >= self.reels@[index as int].price
                &&& final(user).balance.amount_x100 == old(user).balance.amount_x100
                    - self.reels@[index as int].price
                &&& final(user).inventory.reels@.len() == old(user).inventory.reels@.len() + 1
                &&& final(user).inventory.reels@.last() == self.reels@[index as int]
                &&& final(user).inventory.selected_reel + 1 == final(user).inventory.reels@.len()
            },
            r is Ok && category is Sinkers ==> {
                &&& index < self.sinkers@.len()
                &&& old(user).balance.amount_x100 >= self.sinkers@[index as int].price
                &&& final(user).balance.amount_x100 == old(user).balance.amount_x100
                    - self.sinkers@[index as int].price
                &&& final(user).inventory.sinkers@.len() == old(user).inventory.sinkers@.len() + 1
                &&& final(user).inventory.sinkers@.last() == self.sinkers@[index as int]
                &&& final(user).inventory.selected_sinker + 1 == final(user)
                    .inventory.sinkers@.len()
            },
            r is Ok && category is Bait ==> {
                &&& index < self.state.daily_baits@.len()
                &&& old(user).balance.amount_x100 >= self.state.daily_baits@[index as int].price
                &&& final(user).balance.amount_x100 == old(user).balance.amount_x100
                    - self.state.daily_baits@[index as int].price
                &&& final(user).inventory.bait_bucket.baits@.len() == old(user)
                    .inventory.bait_bucket.baits@.len() + 1
                &&& final(user).inventory.selected_bait == Some(
                    (final(user).inventory.bait_bucket.baits@.len() - 1) as usize,
                )
            },
            r is Ok && category is Unique ==> {
                &&& (index == 0 ==> !old(user).inventory.depth_finder
                    && final(user).inventory.depth_finder
                    && final(user).balance.amount_x100 == old(user).balance.amount_x100
                    - DEPTH_FINDER_PRICE)
                &&& (index == 1 ==> !old(user).inventory.underwater_cam
                    && final(user).inventory.underwater_cam
                    && final(user).balance.amount_x100 == old(user).balance.amount_x100
                    - UNDERWATER_CAMERA_PRICE)
                &&& index < 2
            },
    {
        match category {
            ShopCategory::Rods => {
                if index >= self.rods.len() {
                    return Err(PurchaseError::ItemNotFound);
                }
                let price = MonetaryAmount::new(self.rods[index].price);
                if !user.balance.covers(&price) {
                    return Err(PurchaseError::InsufficientFunds);
                }
                user.balance = user.balance.minus(&price);
                user.inventory.rods.push(self.rods[index].clone());
                user.inventory.selected_rod = user.inventory.rods.len() - 1;
                Ok(())
            },
            ShopCategory::Reels => {
                if index >= self.reels.len() {
                    return Err(PurchaseError::ItemNotFound);
                }
                let price = MonetaryAmount::new(self.reels[index].price);
                if !user.balance.covers(&price) {
                    return Err(PurchaseError::InsufficientFunds);
                }
                user.balance = user.balance.minus(&price);
                user.inventory.reels.push(self.reels[index].clone());
                user.inventory.selected_reel = user.inventory.reels.len() - 1;
                Ok(())
            },
            ShopCategory::Lines => {
                if index >= self.lines.len() {
                    return Err(PurchaseError::ItemNotFound);
                }
                let price = MonetaryAmount::new(self.lines[index].price);
                if !user.balance.covers(&price) {
                    return Err(PurchaseError::InsufficientFunds);
                }
                user.balance = user.balance.minus(&price);
                user.inventory.lines.push(self.lines[index].clone());
                user.inventory.selected_line = user.inventory.lines.len() - 1;
                Ok(())
            },
            ShopCategory::Sinkers => {
                if index >= self.sinkers.len() {
                    return Err(PurchaseError::ItemNotFound);
                }
                let price = MonetaryAmount::new(self.sinkers[index].price);
                if !user.balance.covers(&price) {
                    return Err(PurchaseError::InsufficientFunds);
                }
                user.balance = user.balance.minus(&price);
                user.inventory.sinkers.push(self.sinkers[index].clone());
                user.inventory.selected_sinker = user.inventory.sinkers.len() - 1;
                Ok(())
            },
            ShopCategory::Bait => {
                if index >= self.state.daily_baits.len() {
                    return Err(PurchaseError::ItemNotFound);
                }
                let price = MonetaryAmount::new(self.state.daily_baits[index].price);
                if !user.balance.covers(&price) {
                    return Err(PurchaseError::InsufficientFunds);
                }
                user.balance = user.balance.minus(&price);
                user.inventory.bait_bucket.add(self.state.daily_baits[index].clone());
                user.inventory.selected_bait = Some(user.inventory.bait_bucket.len() - 1);
                Ok(())
            },
            ShopCategory::Unique => {
                if index == 0 {
                    if user.inventory.depth_finder {
                        return Err(PurchaseError::AlreadyOwned);
                    }
                    let price = MonetaryAmount::new(DEPTH_FINDER_PRICE);
                    if !user.balance.covers(&price) {
                        return Err(PurchaseError::InsufficientFunds);
                    }
                    user.balance = user.balance.minus(&price);
                    user.inventory.depth_finder = true;
                    Ok(())
                } else if index == 1 {
                    if user.inventory.underwater_cam {
                        return Err(PurchaseError::AlreadyOwned);
                    }
                    let price = MonetaryAmount::new(UNDERWATER_CAMERA_PRICE);
                    if !user.balance.covers(&price) {
                        return Err(PurchaseError::InsufficientFunds);
                    }
                    user.balance = user.balance.minus(&price);
                    user.inventory.underwater_cam = true;
                    Ok(())
                } else {
                    Err(PurchaseError::ItemNotFound)
                }
            },
        }
    }
}

} // verus!
