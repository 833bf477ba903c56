use angler::attribute::Attribute;
use angler::bait::{AttractionQuality, Bait, BaitAttraction, BaitBias, BaitData, BaitPotency};
use angler::config::{Config, ValueCalculationType};
use angler::depth::Depth;
use angler::error::ReelError;
use angler::fish::{FishCategory, FishType, Pond};
use angler::rarity::FishRarity;

fn species(
    name: &str,
    rarity: FishRarity,
    category: FishCategory,
    depth_min: u64,
    depth_max: u64,
) -> FishType {
    FishType {
        name: name.to_string(),
        rarity,
        category,
        size_range: Attribute { min: 500, max: 2000, average: 1000 },
        weight_range: Attribute { min: 100, max: 900, average: 200 },
        depth_min,
        depth_max,
        base_value: 1000,
    }
}

#[test]
fn multiplicative_value_is_exact() {
    let mut t = species("Salmon", FishRarity::Common, FishCategory::Schooling, 0, 6000);
    t.size_range.average = 500;
    t.weight_range.average = 200;
    // 1000 * (600/500) * (300/200) = 1800 cents.
    assert_eq!(t.value_of_catch(600, 300, ValueCalculationType::Multiplicative), 1800);
}

#[test]
fn averaged_value_is_exact() {
    let mut t = species("Salmon", FishRarity::Common, FishCategory::Schooling, 0, 6000);
    t.size_range.average = 500;
    t.weight_range.average = 200;
    // 1000 * ((600/500 + 300/200) / 2) = 1350 cents.
    assert_eq!(t.value_of_catch(600, 300, ValueCalculationType::Averaged), 1350);
}

#[test]
fn value_never_falls_below_one_currency_unit() {
    let mut t = species("Fry", FishRarity::Common, FishCategory::BaitFish, 0, 6000);
    t.base_value = 1;
    t.size_range = Attribute { min: 1, max: 1000000, average: 999999 };
    t.weight_range = Attribute { min: 1, max: 1000000, average: 999999 };
    // The tiniest possible fry of a nearly worthless species still pays a
    // whole currency unit.
    assert_eq!(t.value_of_catch(1, 1, ValueCalculationType::Multiplicative), 100);
    assert_eq!(t.value_of_catch(1, 1, ValueCalculationType::Averaged), 100);
    let cfg = Config::default();
    for _ in 0..200 {
        let f = t.generate_fish(300, None, &cfg).unwrap();
        assert!(f.value.get() >= 100);
    }
}

#[test]
fn generated_fish_respects_catalog_ranges() {
    let t = species("Minnow", FishRarity::Common, FishCategory::BaitFish, 0, 6000);
    let cfg = Config::default();
    for _ in 0..300 {
        let f = t.generate_fish(1234, None, &cfg).unwrap();
        assert_eq!(f.name, "Minnow");
        assert_eq!(f.depth, 1234);
        assert!(t.size_range.min <= f.size && f.size <= t.size_range.max);
        assert!(t.weight_range.min <= f.weight && f.weight <= t.weight_range.max);
        assert_eq!(f.average_weight, t.weight_range.average);
    }
}

#[test]
fn degenerate_species_is_reported() {
    let mut t = species("Glitch", FishRarity::Common, FishCategory::Forager, 0, 6000);
    t.size_range = Attribute { min: 900, max: 100, average: 500 };
    let cfg = Config::default();
    assert!(matches!(t.generate_fish(100, None, &cfg), Err(ReelError::MathError)));
    let mut z = species("Zero", FishRarity::Common, FishCategory::Forager, 0, 6000);
    z.weight_range = Attribute { min: 0, max: 900, average: 0 };
    assert!(matches!(z.generate_fish(100, None, &cfg), Err(ReelError::ZeroAverage)));
}

#[test]
fn shallow_cast_with_common_ceiling_offers_only_the_minnow() {
    // A shallow common minnow and a deep rare lurker: with the rarity
    // ceiling at Common, only the minnow is eligible.
    let minnow = species("Minnow", FishRarity::Common, FishCategory::BaitFish, 0, 6000);
    let lurker = species("Lurker", FishRarity::Rare, FishCategory::Abyssal, 20000, 100000);
    let pond = Pond { fish_types: vec![minnow, lurker] };
    let available = pond.get_available_fish(Depth::Shallow, FishRarity::Common);
    assert_eq!(available.fish_types.len(), 1);
    assert_eq!(available.fish_types[0].name, "Minnow");
}

#[test]
fn common_minnow_pond_always_yields_the_minnow() {
    // A Common species passes every drawn rarity ceiling, so a cast over
    // its depth never comes up empty.
    let minnow = species("Minnow", FishRarity::Common, FishCategory::BaitFish, 0, 6000);
    let pond = Pond { fish_types: vec![minnow] };
    let cfg = Config::default();
    for _ in 0..200 {
        let f = pond.generate_fish(3000, None, &cfg).unwrap().expect("a catch is guaranteed");
        assert_eq!(f.name, "Minnow");
        assert_eq!(f.depth, 3000);
    }
}

#[test]
fn empty_pond_never_yields_a_fish() {
    let pond = Pond { fish_types: vec![] };
    let cfg = Config::default();
    for _ in 0..50 {
        assert_eq!(pond.generate_fish(3000, None, &cfg).unwrap().is_none(), true);
    }
}

fn specific_bait(target: &str, bias: BaitBias) -> Bait {
    Bait {
        name: "Test Bait".to_string(),
        description: "A bait for testing.".to_string(),
        price: 500,
        reusable: false,
        attraction: vec![BaitAttraction::SpecificFish {
            name: target.to_string(),
            bias,
            quality: AttractionQuality::Good,
        }],
    }
}

#[test]
fn specific_fish_attraction_multiplies_only_its_target() {
    // A SpecificFish("Salmon", High) attraction multiplies Salmon's
    // selection weight by the High multiplier (5.0) and leaves every
    // other species at the neutral 1.0.
    let salmon = species("Salmon", FishRarity::Common, FishCategory::Schooling, 0, 6000);
    let trout = species("Trout", FishRarity::Common, FishCategory::Schooling, 0, 6000);
    let cfg = Config::default();
    let bait = specific_bait("Salmon", BaitBias::High);
    assert_eq!(salmon.selection_weight(Some(&bait), &cfg), 500);
    assert_eq!(trout.selection_weight(Some(&bait), &cfg), 100);
    assert_eq!(salmon.selection_weight(None, &cfg), 100);
}

#[test]
fn category_and_specific_modifiers_stack() {
    let salmon = species("Salmon", FishRarity::Common, FishCategory::Schooling, 0, 6000);
    let cfg = Config::default();
    let bait = Bait {
        name: "Combo".to_string(),
        description: "Stacked attractions.".to_string(),
        price: 500,
        reusable: false,
        attraction: vec![
            BaitAttraction::Category(
                FishCategory::Schooling,
                BaitBias::Medium,
                AttractionQuality::Good,
            ),
            BaitAttraction::SpecificFish {
                name: "Salmon".to_string(),
                bias: BaitBias::High,
                quality: AttractionQuality::Good,
            },
        ],
    };
    // 1.0 * 3.5 (category) * 5.0 (specific) = 17.5 -> 1750 hundredths.
    assert_eq!(salmon.selection_weight(Some(&bait), &cfg), 1750);
}

#[test]
fn bait_bias_getters_read_the_attractions() {
    let cfg = Config::default();
    let b = Bait {
        name: "Heavy Feeder".to_string(),
        description: "Pulls in the big ones.".to_string(),
        price: 500,
        reusable: false,
        attraction: vec![
            BaitAttraction::Large { bias: BaitBias::High, quality: AttractionQuality::Good },
            BaitAttraction::Light { bias: BaitBias::Low, quality: AttractionQuality::Bad },
        ],
    };
    // Large/High: 500/500 of the scale, clamped to 1.0 -> +100.
    assert_eq!(b.get_size_bias(&cfg.bait), 100);
    // Light/Low: 150*100/500 = 30 -> -30.
    assert_eq!(b.get_weight_bias(&cfg.bait), -30);
    assert!(b.get_rarity_modifier(&cfg.bait).is_none());
    assert!(b.get_category_modifier(&cfg.bait).is_none());
    assert!(b.get_specific_fish_modifier(&cfg.bait).is_none());
}

fn conflicting(a: &BaitAttraction, b: &BaitAttraction) -> bool {
    match (a, b) {
        (BaitAttraction::Heavy { .. }, BaitAttraction::Light { .. }) => true,
        (BaitAttraction::Light { .. }, BaitAttraction::Heavy { .. }) => true,
        (BaitAttraction::Large { .. }, BaitAttraction::Small { .. }) => true,
        (BaitAttraction::Small { .. }, BaitAttraction::Large { .. }) => true,
        (BaitAttraction::Category(c1, _, _), BaitAttraction::Category(c2, _, _)) => c1 == c2,
        (BaitAttraction::Rarity(r1, _, _), BaitAttraction::Rarity(r2, _, _)) => r1 == r2,
        _ => false,
    }
}

#[test]
fn generated_bait_has_no_conflicting_attractions() {
    let data = BaitData { base_names: vec!["Worm".to_string(), "Cricket".to_string()] };
    for _ in 0..50 {
        for potency in [BaitPotency::Low, BaitPotency::Medium, BaitPotency::High] {
            let b = Bait::generate(potency, false, &data);
            assert!(b.attraction.len() <= 5);
            assert!(b.price >= 500);
            for i in 0..b.attraction.len() {
                for j in (i + 1)..b.attraction.len() {
                    assert!(!conflicting(&b.attraction[i], &b.attraction[j]));
                }
            }
        }
        let lure = Bait::generate(BaitPotency::High, true, &data);
        assert!(lure.reusable);
    }
}

#[test]
fn generated_bait_prices_follow_the_potency_brackets() {
    let data = BaitData { base_names: vec!["Worm".to_string()] };
    for _ in 0..50 {
        let low = Bait::generate(BaitPotency::Low, false, &data);
        if !low.reusable {
            assert!(500 <= low.price && low.price <= 2_000);
        } else {
            assert!(5_000 <= low.price && low.price <= 20_000);
        }
        assert!(1 <= low.attraction.len() && low.attraction.len() <= 2);
        let medium = Bait::generate(BaitPotency::Medium, false, &data);
        if !medium.reusable {
            assert!(5_000 <= medium.price && medium.price <= 15_000);
        } else {
            assert!(50_000 <= medium.price && medium.price <= 150_000);
        }
        assert!(1 <= medium.attraction.len() && medium.attraction.len() <= 3);
        let lure = Bait::generate(BaitPotency::High, true, &data);
        assert!(lure.reusable);
        assert!(300_000 <= lure.price && lure.price <= 800_000);
        assert!(1 <= lure.attraction.len() && lure.attraction.len() <= 5);
    }
}
