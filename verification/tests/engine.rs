use angler::attribute::Attribute;
use angler::cast::{begin_cast, cancel_cast, resolve_catch, resolve_challenge, CastError,
    CastSession, ChallengeResult, ResolveOutcome};
use angler::config::Config;
use angler::error::ReelError;
use angler::fish::{Fish, FishCategory, FishType, Pond};
use angler::gear::RodLoadout;
use angler::money::MonetaryAmount;
use angler::rarity::FishRarity;
use angler::registry::{SessionError, SessionRegistry};
use angler::user::UserValues;

fn minnow_pond() -> Pond {
    Pond {
        fish_types: vec![FishType {
            name: "Minnow".to_string(),
            rarity: FishRarity::Common,
            category: FishCategory::BaitFish,
            size_range: Attribute { min: 100, max: 500, average: 250 },
            weight_range: Attribute { min: 10, max: 100, average: 40 },
            depth_min: 0,
            depth_max: 6000,
            base_value: 250,
        }],
    }
}

fn a_fish(weight: u64, category: FishCategory) -> Fish {
    Fish {
        name: "Bass".to_string(),
        category,
        size: 1000,
        weight,
        depth: 3000,
        average_weight: 500,
        value: MonetaryAmount::new(425),
    }
}

#[test]
fn second_cast_is_rejected_until_the_first_ends() {
    let mut reg = SessionRegistry::new();
    assert_eq!(reg.try_begin(1), Ok(()));
    assert_eq!(reg.try_begin(1), Err(SessionError::AlreadyFishing));
    reg.end(1);
    assert_eq!(reg.try_begin(1), Ok(()));
}

#[test]
fn registry_tracks_players_independently() {
    let mut reg = SessionRegistry::new();
    assert_eq!(reg.try_begin(1), Ok(()));
    assert_eq!(reg.try_begin(2), Ok(()));
    reg.end(1);
    assert!(!reg.contains(1));
    assert!(reg.contains(2));
    reg.end(7);
    assert!(reg.contains(2));
}

#[test]
fn begin_cast_rejects_a_player_already_fishing() {
    let mut reg = SessionRegistry::new();
    reg.try_begin(42).unwrap();
    let loadout = RodLoadout::default();
    let pond = minnow_pond();
    let cfg = Config::default();
    let r = begin_cast(&mut reg, 42, &loadout, &pond, &cfg);
    assert!(matches!(r, Err(CastError::AlreadyFishing)));
}

#[test]
fn begin_cast_creates_a_live_session() {
    let mut reg = SessionRegistry::new();
    let loadout = RodLoadout::default();
    let pond = minnow_pond();
    let cfg = Config::default();
    let s = begin_cast(&mut reg, 42, &loadout, &pond, &cfg).unwrap();
    assert_eq!(s.player, 42);
    assert!(!s.canceled);
    assert!(reg.contains(42));
    // The pond's only species is an always-eligible Common minnow, so the
    // line is never empty.
    let f = s.fish.as_ref().expect("a catch is guaranteed");
    assert!(f.depth <= loadout.sinker.depth_range.max);
    assert_eq!(f.name, "Minnow");
}

#[test]
fn zero_hook_chance_always_misses() {
    let mut loadout = RodLoadout::default();
    loadout.rod.sensitivity = 0;
    let mut cfg = Config::default();
    cfg.fishing.base_catch_chance = 0;
    let mut reg = SessionRegistry::new();
    reg.try_begin(5).unwrap();
    let session = CastSession {
        player: 5,
        fish: Some(a_fish(1500, FishCategory::BaitFish)),
        canceled: false,
        catch_time_x100: 2000,
    };
    let r = resolve_catch(&mut reg, session, &loadout, &cfg);
    assert!(matches!(r.outcome, ResolveOutcome::Missed));
}

#[test]
fn begin_cast_reports_a_bad_sinker_without_registering() {
    let mut reg = SessionRegistry::new();
    let mut loadout = RodLoadout::default();
    loadout.sinker.depth_range = Attribute { min: 900, max: 100, average: 500 };
    let pond = minnow_pond();
    let cfg = Config::default();
    let r = begin_cast(&mut reg, 9, &loadout, &pond, &cfg);
    assert!(matches!(r, Err(CastError::SinkerFailure(ReelError::MathError))));
    assert!(!reg.contains(9));
}

#[test]
fn begin_cast_reports_a_bad_catalog_without_registering() {
    let mut reg = SessionRegistry::new();
    let loadout = RodLoadout::default();
    let mut pond = minnow_pond();
    pond.fish_types[0].weight_range.average = 0;
    pond.fish_types[0].weight_range.min = 0;
    let cfg = Config::default();
    let r = begin_cast(&mut reg, 9, &loadout, &pond, &cfg);
    assert!(matches!(r, Err(CastError::FishFailure(ReelError::ZeroAverage))));
    assert!(!reg.contains(9));
}

#[test]
fn overload_challenge_time_limit() {
    // Line strength 10 with a 1.0 rod bonus gives max_strength = 10 lbs;
    // a 15 lb fish with a weightless sinker overloads it 1.5x, so the
    // time limit is max(15 s / 1.5, 2 s) = 10 s.
    let mut loadout = RodLoadout::default();
    loadout.line.strength = 10;
    loadout.rod.strength_bonus = 100;
    loadout.sinker.weight = 0;
    loadout.rod.sensitivity = 10000;  // guarantees the hook check passes
    let cfg = Config::default();
    let mut reg = SessionRegistry::new();
    reg.try_begin(5).unwrap();
    let session = CastSession {
        player: 5,
        fish: Some(a_fish(1500, FishCategory::BaitFish)),
        canceled: false,
        catch_time_x100: 2000,
    };
    let r = resolve_catch(&mut reg, session, &loadout, &cfg);
    match r.outcome {
        ResolveOutcome::Challenge { fish, code, time_limit_x100 } => {
            assert_eq!(fish.weight, 1500);
            assert_eq!(time_limit_x100, 1000);
            assert_eq!(code.len(), 5);
            assert!(code.chars().all(|c| c.is_ascii_alphanumeric()));
        }
        other => panic!("expected a challenge, got {:?}", other),
    }
    assert!(!reg.contains(5));
}

#[test]
fn fitting_load_is_caught_outright() {
    let mut loadout = RodLoadout::default();
    loadout.line.strength = 100;
    loadout.rod.strength_bonus = 100;
    loadout.sinker.weight = 0;
    loadout.rod.sensitivity = 10000;
    let cfg = Config::default();
    let mut reg = SessionRegistry::new();
    reg.try_begin(5).unwrap();
    let session = CastSession {
        player: 5,
        fish: Some(a_fish(1500, FishCategory::BaitFish)),
        canceled: false,
        catch_time_x100: 2000,
    };
    let r = resolve_catch(&mut reg, session, &loadout, &cfg);
    assert!(matches!(r.outcome, ResolveOutcome::Caught { .. }));
}

#[test]
fn canceled_cast_suppresses_resolution() {
    // The player cancels during the wait; when the deferred resolver
    // later wakes it must perform no action: no outcome, no bait use,
    // and no registry mutation.
    let loadout = RodLoadout::default();
    let cfg = Config::default();
    let mut reg = SessionRegistry::new();
    reg.try_begin(5).unwrap();
    let mut session = CastSession {
        player: 5,
        fish: Some(a_fish(1500, FishCategory::BaitFish)),
        canceled: false,
        catch_time_x100: 2000,
    };
    cancel_cast(&mut reg, &mut session);
    assert!(session.canceled);
    assert!(!reg.contains(5));
    reg.try_begin(5).unwrap();
    let r = resolve_catch(&mut reg, session, &loadout, &cfg);
    assert!(matches!(r.outcome, ResolveOutcome::Suppressed));
    assert!(!r.consume_bait);
    // The new cast the player started meanwhile is untouched.
    assert!(reg.contains(5));
}

#[test]
fn empty_line_resolves_to_nothing() {
    let loadout = RodLoadout::default();
    let cfg = Config::default();
    let mut reg = SessionRegistry::new();
    reg.try_begin(5).unwrap();
    let session = CastSession { player: 5, fish: None, canceled: false, catch_time_x100: 2000 };
    let r = resolve_catch(&mut reg, session, &loadout, &cfg);
    assert!(matches!(r.outcome, ResolveOutcome::Nothing));
    assert!(!reg.contains(5));
}

#[test]
fn challenge_reply_matching_ignores_case_and_spaces() {
    let fish = a_fish(1500, FishCategory::BaitFish);
    let r = resolve_challenge(fish, Some("a b C 1 2"), "AbC12");
    assert!(matches!(r, ChallengeResult::Saved { .. }));
    let fish = a_fish(1500, FishCategory::BaitFish);
    let r = resolve_challenge(fish, Some("wrong"), "AbC12");
    assert!(matches!(r, ChallengeResult::Snapped));
    let fish = a_fish(1500, FishCategory::BaitFish);
    let r = resolve_challenge(fish, None, "AbC12");
    assert!(matches!(r, ChallengeResult::Snapped));
}

#[test]
fn applying_a_catch_credits_and_records() {
    let mut user = UserValues::new();
    let fish = a_fish(1500, FishCategory::BaitFish);
    user.apply_catch(&fish);
    assert_eq!(user.balance.get(), 425);
    assert_eq!(user.caught_fish, vec!["Bass".to_string()]);
    assert_eq!(user.total_catches, 1);
    user.apply_catch(&fish);
    assert_eq!(user.balance.get(), 850);
    // A repeated species is not recorded twice.
    assert_eq!(user.caught_fish.len(), 1);
    assert_eq!(user.total_catches, 2);
}

#[test]
fn catch_time_follows_the_weight_formula() {
    let mut reg = SessionRegistry::new();
    let loadout = RodLoadout::default();
    let pond = minnow_pond();
    let cfg = Config::default();
    let s = begin_cast(&mut reg, 3, &loadout, &pond, &cfg).unwrap();
    // Base wait: 20 s divided by the combined speed 0.56, floored at 3 s.
    let speed = loadout.reel.speed_multiplier * loadout.rod.efficiency_multiplier / 100;
    let base = (cfg.fishing.base_cast_wait * 100 / speed).max(cfg.fishing.min_cast_wait);
    let expected = match &s.fish {
        Some(f) => {
            if f.weight >= f.average_weight {
                base + (f.weight - f.average_weight) * cfg.fishing.fish_weight_time_multiplier
                    / 100
            } else {
                base.saturating_sub(
                    (f.average_weight - f.weight) * cfg.fishing.fish_weight_time_multiplier / 100,
                )
            }
        }
        None => base,
    };
    assert_eq!(s.catch_time_x100, expected);
}

#[test]
fn sinker_reaches_the_bands_its_range_overlaps() {
    let loadout = RodLoadout::default();
    // The starter sinker reaches 0..15 ft: only the shallow band.
    let bands = loadout.sinker.get_effective_depth_categories();
    assert_eq!(bands, vec![angler::depth::Depth::Shallow]);
    for _ in 0..50 {
        let d = loadout.sinker.generate_depth().unwrap();
        assert!(d <= 1500);
    }
}
