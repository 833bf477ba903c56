use angler::config::Config;
use angler::rarity::FishRarity;
use angler::weighted::pick_index;

#[test]
fn base_weights_match_the_ladder() {
    assert_eq!(FishRarity::Common.get_weight(), 400);
    assert_eq!(FishRarity::Uncommon.get_weight(), 300);
    assert_eq!(FishRarity::Rare.get_weight(), 200);
    assert_eq!(FishRarity::Elusive.get_weight(), 89);
    assert_eq!(FishRarity::Legendary.get_weight(), 10);
    assert_eq!(FishRarity::Mythical.get_weight(), 1);
}

#[test]
fn possible_rarities_are_the_prefix_of_the_ladder() {
    assert_eq!(FishRarity::Common.get_possible(), vec![FishRarity::Common]);
    assert_eq!(
        FishRarity::Rare.get_possible(),
        vec![FishRarity::Common, FishRarity::Uncommon, FishRarity::Rare]
    );
    assert_eq!(
        FishRarity::Mythical.get_possible(),
        vec![
            FishRarity::Common,
            FishRarity::Uncommon,
            FishRarity::Rare,
            FishRarity::Elusive,
            FishRarity::Legendary,
            FishRarity::Mythical,
        ]
    );
}

#[test]
fn from_weight_brackets() {
    assert_eq!(FishRarity::from_weight(1), FishRarity::Mythical);
    assert_eq!(FishRarity::from_weight(5), FishRarity::Legendary);
    assert_eq!(FishRarity::from_weight(50), FishRarity::Elusive);
    assert_eq!(FishRarity::from_weight(150), FishRarity::Rare);
    assert_eq!(FishRarity::from_weight(250), FishRarity::Uncommon);
    assert_eq!(FishRarity::from_weight(700), FishRarity::Common);
}

#[test]
fn ladder_iteration_order() {
    let tiers = FishRarity::iter();
    assert_eq!(tiers.len(), 6);
    assert_eq!(tiers[0], FishRarity::Common);
    assert_eq!(tiers[5], FishRarity::Mythical);
}

#[test]
fn every_tier_owns_exactly_its_weight_share_of_the_draw_space() {
    // The unbiased weight vector over a 100,000-point draw space; walking
    // every draw shows each tier is picked exactly weight/1000 of the time.
    let ws: Vec<u64> = vec![40000, 30000, 20000, 8900, 1000, 100];
    let mut counts = [0u64; 6];
    for u in 0..100000u64 {
        counts[pick_index(&ws, u)] += 1;
    }
    assert_eq!(counts, [40000, 30000, 20000, 8900, 1000, 100]);
}

#[test]
fn observed_frequencies_converge_to_the_weight_shares() {
    let cfg = Config::default();
    let n = 20000u64;
    let mut counts = [0u64; 6];
    for _ in 0..n {
        let tier = FishRarity::weighted_random(None, &cfg.bait);
        counts[tier.rank() as usize] += 1;
    }
    let expected = [0.400f64, 0.300, 0.200, 0.089, 0.010, 0.001];
    for i in 0..6 {
        let freq = counts[i] as f64 / n as f64;
        assert!(
            (freq - expected[i]).abs() < 0.03,
            "tier {} frequency {} too far from {}",
            i,
            freq,
            expected[i]
        );
    }
}

#[test]
fn labels_name_the_tiers() {
    assert_eq!(FishRarity::Common.label(), "Common");
    assert_eq!(FishRarity::Mythical.label(), "Mythical");
}
