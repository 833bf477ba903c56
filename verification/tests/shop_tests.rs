use angler::bait::BaitData;
use angler::config::Config;
use angler::gear::{RodBase, RodLoadout};
use angler::inventory::{EquipError, InventoryCategory};
use angler::money::MonetaryAmount;
use angler::shop::{PurchaseError, Shop, ShopCategory, ShopState};
use angler::text::{code_matches, generate_error_code, u64_to_string};
use angler::user::UserValues;

fn small_shop() -> Shop {
    let loadout = RodLoadout::default();
    let mut better_rod = loadout.rod.clone();
    better_rod.name = "Oak Rod".to_string();
    better_rod.price = 500;
    better_rod.sensitivity = 120;
    Shop {
        state: ShopState::default(),
        rods: vec![better_rod],
        lines: vec![],
        reels: vec![],
        sinkers: vec![],
    }
}

#[test]
fn shop_pages_cycle() {
    assert_eq!(ShopCategory::Rods.next(), ShopCategory::Reels);
    assert_eq!(ShopCategory::Unique.next(), ShopCategory::Rods);
    assert_eq!(ShopCategory::Rods.prev(), ShopCategory::Unique);
    assert_eq!(ShopCategory::Bait.name(), "Bait (Daily Stock)");
    assert!(!ShopCategory::Unique.description().is_empty());
}

#[test]
fn inventory_pages_cycle() {
    assert_eq!(InventoryCategory::Rods.next(), InventoryCategory::Reels);
    assert_eq!(InventoryCategory::Sinkers.next(), InventoryCategory::Rods);
    assert_eq!(InventoryCategory::Rods.prev(), InventoryCategory::Sinkers);
    assert_eq!(InventoryCategory::Lines.name(), "Lines");
    assert_eq!(InventoryCategory::Reels.description(), "View and equip your reels.");
}

#[test]
fn purchase_needs_funds() {
    let shop = small_shop();
    let mut user = UserValues::new();
    let r = shop.purchase(&mut user, ShopCategory::Rods, 0);
    assert_eq!(r, Err(PurchaseError::InsufficientFunds));
    assert_eq!(user.inventory.rods.len(), 1);
}

#[test]
fn purchase_adds_and_equips() {
    let shop = small_shop();
    let mut user = UserValues::new();
    user.balance = MonetaryAmount::new(1000);
    shop.purchase(&mut user, ShopCategory::Rods, 0).unwrap();
    assert_eq!(user.balance.get(), 500);
    assert_eq!(user.inventory.rods.len(), 2);
    assert_eq!(user.inventory.selected_rod, 1);
    assert_eq!(user.inventory.rods[1].name, "Oak Rod");
}

#[test]
fn purchase_rejects_a_missing_item() {
    let shop = small_shop();
    let mut user = UserValues::new();
    user.balance = MonetaryAmount::new(100000000);
    assert_eq!(shop.purchase(&mut user, ShopCategory::Lines, 0), Err(PurchaseError::ItemNotFound));
    assert_eq!(shop.purchase(&mut user, ShopCategory::Unique, 2), Err(PurchaseError::ItemNotFound));
}

#[test]
fn unique_items_cannot_be_bought_twice() {
    let shop = small_shop();
    let mut user = UserValues::new();
    user.balance = MonetaryAmount::new(100000000);
    shop.purchase(&mut user, ShopCategory::Unique, 0).unwrap();
    assert!(user.inventory.depth_finder);
    assert_eq!(shop.purchase(&mut user, ShopCategory::Unique, 0), Err(PurchaseError::AlreadyOwned));
}

#[test]
fn equip_switches_selection() {
    let mut user = UserValues::new();
    let mut spare: RodBase = user.inventory.rods[0].clone();
    spare.name = "Spare".to_string();
    user.inventory.rods.push(spare);
    assert_eq!(user.inventory.equip(InventoryCategory::Rods, 1), Ok(()));
    assert_eq!(user.inventory.selected_rod, 1);
    assert_eq!(
        user.inventory.equip(InventoryCategory::Rods, 7),
        Err(EquipError::InvalidSelection)
    );
    assert_eq!(user.inventory.equip(InventoryCategory::Lines, 0), Ok(()));
}

#[test]
fn daily_stock_refresh() {
    let state = ShopState::default();
    assert!(state.needs_refresh(1));
    let data = BaitData { base_names: vec!["Worm".to_string()] };
    let fresh = ShopState::refresh_stock(20345, &data);
    assert_eq!(fresh.last_refresh_day, 20345);
    assert_eq!(fresh.daily_baits.len(), 9);
    assert!(!fresh.needs_refresh(20345));
    assert!(fresh.needs_refresh(20346));
    // The last slot of the daily stock is the guaranteed lure.
    assert!(fresh.daily_baits[8].reusable);
}

#[test]
fn consuming_bait_empties_the_slot() {
    let mut user = UserValues::new();
    let data = BaitData { base_names: vec!["Worm".to_string()] };
    let stock = ShopState::refresh_stock(1, &data);
    user.inventory.bait_bucket.add(stock.daily_baits[0].clone());
    user.inventory.selected_bait = Some(0);
    user.inventory.consume_active_bait();
    assert!(user.inventory.selected_bait.is_none());
    assert!(user.inventory.bait_bucket.is_empty());
    // Consuming with nothing selected is harmless.
    user.inventory.clear_active_bait();
    assert!(user.inventory.selected_bait.is_none());
}

#[test]
fn money_renders_in_cents() {
    assert_eq!(MonetaryAmount::new(105).display_string(), "$1.05");
    assert_eq!(MonetaryAmount::new(123456).display_string(), "$1234.56");
    assert_eq!(MonetaryAmount::new(0).display_string(), "$0.00");
}

#[test]
fn numbers_render_in_decimal() {
    assert_eq!(u64_to_string(0), "0");
    assert_eq!(u64_to_string(7), "7");
    assert_eq!(u64_to_string(1050), "1050");
}

#[test]
fn loadout_displays() {
    let loadout = RodLoadout::default();
    let cfg = Config::default();
    assert_eq!(loadout.get_catch_chance_display(&cfg.fishing), "40%");
    assert_eq!(loadout.get_total_strength_display(), "4lbs");
    assert_eq!(loadout.get_depth_range_display(), "0m - 15m (Average: 5m)");
    assert_eq!(loadout.get_speed_multiplier_display(&cfg.fishing), "36s");
}

#[test]
fn error_codes_are_short_and_alphanumeric() {
    for _ in 0..50 {
        let code = generate_error_code();
        assert_eq!(code.len(), 5);
        assert!(code.chars().all(|c| c.is_ascii_alphanumeric()));
    }
}

#[test]
fn code_matching_is_exactly_case_and_space_insensitive() {
    assert!(code_matches("a B c", "ABC"));
    assert!(code_matches("  x Y z 1 2  ", "xyz12"));
    assert!(!code_matches("abd", "abc"));
    assert!(!code_matches("ab", "abc"));
}

#[test]
fn selecting_bait_validates_the_index() {
    let mut user = UserValues::new();
    let data = BaitData { base_names: vec!["Worm".to_string()] };
    let stock = ShopState::refresh_stock(1, &data);
    user.inventory.bait_bucket.add(stock.daily_baits[0].clone());
    assert_eq!(user.inventory.select_bait(Some(0)), Ok(()));
    assert_eq!(user.inventory.selected_bait, Some(0));
    assert_eq!(user.inventory.select_bait(Some(3)), Err(EquipError::InvalidSelection));
    assert_eq!(user.inventory.select_bait(None), Ok(()));
    assert_eq!(user.inventory.selected_bait, None);
}
