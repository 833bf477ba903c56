//! The cast lifecycle: beginning a cast, canceling it, and resolving the
//! catch.
//!
//! A session moves from casting to exactly one of: canceled, nothing,
//! missed, caught, or the overload challenge — whose reply then decides
//! between caught and snapped. The hosting application owns the waiting
//! (the resolution delay, the cancel window, the challenge timeout) and
//! calls back in here for every decision.

use vstd::prelude::*;
use vstd::string::StringSliceAdditionalSpecFns;

use crate::config::{Config, Fishing};
use crate::depth::band_of_spec;
use crate::error::ReelError;
use crate::fish::{common_catch_available_spec, depth_eligible_spec, fight_multiplier_spec,
    generated_catch_spec, Fish, FishCategory, Pond, MAX_POND_SPECIES};
use crate::gear::{base_catch_time_spec, total_strength_spec, RodLoadout};
use crate::registry::{end_spec, SessionRegistry};
use crate::rng::random_in_range;
use crate::text::{code_matches, code_matches_spec, is_alnum_char_spec, random_code};

verus! {

/// Why a cast could not start.
#[derive(Clone, Copy, Debug, PartialEq, Eq, Structural)]
pub enum CastError {
    /// The player already has an unresolved cast.
    AlreadyFishing,
    /// The sinker's depth range failed to produce a depth.
    SinkerFailure(ReelError),
    /// The pond failed to produce a catch.
    FishFailure(ReelError),
}

/// One in-flight cast: created when a cast begins, destroyed when the
/// resolution completes or the player cancels. Never persisted.
#[derive(Debug)]
pub struct CastSession {
    /// The casting player.
    pub player: u64,
    /// The generated catch; `None` is a valid "nothing bit" outcome.
    pub fish: Option<Fish>,
    /// Set by a cancellation; the resolver checks it first and does
    /// nothing when it is set.
    pub canceled: bool,
    /// The resolution delay, in hundredths of a second.
    pub catch_time_x100: u64,
}

/// The resolution delay of a cast: the loadout's base wait, plus extra
/// time proportional to how far the fish's weight is above its species
/// average (heavier fish take longer; lighter fish resolve sooner, never
/// below zero). Deterministic given the generated fish and loadout.
pub open spec fn catch_time_spec(l: RodLoadout, fish: Option<Fish>, cfg: Fishing) -> int {
    match fish {
        Some(f) => if f.weight >= f.average_weight {
            base_catch_time_spec(l, cfg) + (f.weight - f.average_weight)
                * cfg.fish_weight_time_multiplier / 100
        } else {
            if base_catch_time_spec(l, cfg) >= (f.average_weight - f.weight)
                * cfg.fish_weight_time_multiplier / 100 {
                base_catch_time_spec(l, cfg) - (f.average_weight - f.weight)
                    * cfg.fish_weight_time_multiplier / 100
            } else {
                0
            }
        },
        None => base_catch_time_spec(l, cfg),
    }
}

/// The total load on the line, in hundredths of a pound: the fish plus
/// the sinker.
pub open spec fn load_spec(f: Fish, l: RodLoadout) -> int {
    f.weight + l.sinker.weight
}

/// The hook probability in hundredths of a percent: base chance plus the
/// rod's sensitivity, divided by the category's fight multiplier. Values
/// of 10,000 or more mean a guaranteed hook.
pub open spec fn hook_chance_spec(cfg: Fishing, l: RodLoadout, c: FishCategory) -> int {
    (cfg.base_catch_chance + l.rod.sensitivity) * 10000 / fight_multiplier_spec(c)
}

/// The overload-challenge time limit, in hundredths of a second: the base
/// challenge time divided by the overload ratio `load / strength`, floored
/// at the configured minimum.
pub open spec fn qte_time_spec(cfg: Fishing, load: int, strength: int) -> int
    recommends
        load > 0,
{
    if cfg.base_qte_time * strength / load >= cfg.min_qte_time {
        cfg.base_qte_time * strength / load
    } else {
        cfg.min_qte_time as int
    }
}

/// Starts a cast for a player: registers the session, samples a depth
/// from the sinker, generates the catch, and computes the deterministic
/// resolution delay.
///
/// Rejects with "already fishing" exactly when the player has an
/// unresolved cast; a generation failure is reported without creating a
/// session or (net) mutating the registry.
pub fn begin_cast(
    registry: &mut SessionRegistry,
    player: u64,
    loadout: &RodLoadout,
    pond: &Pond,
    cfg: &Config,
) -> (r: Result<CastSession, CastError>)
    requires
        loadout.wf(),
        cfg.wf(),
        pond.fish_types@.len() <= MAX_POND_SPECIES,
    ensures
        r matches Err(e) ==> (e == CastError::AlreadyFishing <==> old(registry).is_active(player)),
        r is Err ==> forall|q: u64| final(registry).is_active(q) == old(registry).is_active(q),
        r matches Ok(s) ==> {
            &&& !old(registry).is_active(player)
            &&& final(registry).is_active(player)
            &&& (forall|q: u64|
                q != player ==> final(registry).is_active(q) == old(registry).is_active(q))
            &&& s.player == player
            &&& !s.canceled
            &&& s.catch_time_x100 == catch_time_spec(*loadout, s.fish, cfg.fishing)
            &&& (s.fish matches Some(f) ==> {
                &&& loadout.sinker.depth_range.min <= f.depth <= loadout.sinker.depth_range.max
                &&& generated_catch_spec(*pond, f, cfg.fishing.fish_value_calculation)
            })
        },
        !old(registry).is_active(player) && loadout.sinker.depth_range.wf() && pond.generable()
            && cfg.bait.low_bait_weight >= 100 && cfg.bait.medium_bait_weight >= 100
            && cfg.bait.high_bait_weight >= 100 ==> r is Ok,
        !old(registry).is_active(player) && loadout.sinker.depth_range.wf() && pond.generable()
            && cfg.bait.low_bait_weight >= 100 && cfg.bait.medium_bait_weight >= 100
            && cfg.bait.high_bait_weight >= 100 && common_catch_available_spec(
            *pond,
            loadout.sinker.depth_range.min as int,
            loadout.sinker.depth_range.max as int,
        ) ==> (r matches Ok(s) && s.fish is Some),
{
    match registry.try_begin(player) {
        Err(_) => {
            return Err(CastError::AlreadyFishing);
        },
        Ok(()) => {},
    }
    let depth = match loadout.sinker.generate_depth() {
        Ok(d) => d,
        Err(e) => {
            registry.end(player);
            return Err(CastError::SinkerFailure(e));
        },
    };
    let fish = match pond.generate_fish(depth, loadout.bait.as_ref(), cfg) {
        Ok(o) => o,
        Err(e) => {
            registry.end(player);
            return Err(CastError::FishFailure(e));
        },
    };
    proof {
        // A Common species that passes the depth test over the whole
        // sinker range passes it at the drawn depth, so the generator's
        // own guarantee forces a catch.
        if common_catch_available_spec(
            *pond,
            loadout.sinker.depth_range.min as int,
            loadout.sinker.depth_range.max as int,
        ) {
            let w = choose|i: int|
                0 <= i < pond.fish_types@.len() && (#[trigger] pond.fish_types@[i].rarity)
                    is Common && (forall|d: int|
                    loadout.sinker.depth_range.min <= d <= loadout.sinker.depth_range.max
                        ==> depth_eligible_spec(pond.fish_types@[i], #[trigger] band_of_spec(d)));
            assert(depth_eligible_spec(pond.fish_types@[w], band_of_spec(depth as int)));
        }
    }
    let base = loadout.generate_catch_time(&cfg.fishing);
    let catch_time_x100: u64 = match &fish {
        Some(f) => {
            proof {
                assert(f.weight <= 1_000_000_000 && f.average_weight <= 1_000_000_000);
            }
            if f.weight >= f.average_weight {
                let diff = f.weight - f.average_weight;
                proof {
                    assert((diff as int) * (cfg.fishing.fish_weight_time_multiplier as int)
                        <= 1_000_000_000int * 10_000int) by (nonlinear_arith)
                        requires
                            0 <= diff as int <= 1_000_000_000int,
                            0 <= cfg.fishing.fish_weight_time_multiplier as int <= 10_000int,
                    {}
                }
                base + diff * cfg.fishing.fish_weight_time_multiplier / 100
            } else {
                let diff = f.average_weight - f.weight;
                proof {
                    assert((diff as int) * (cfg.fishing.fish_weight_time_multiplier as int)
                        <= 1_000_000_000int * 10_000int) by (nonlinear_arith)
                        requires
                            0 <= diff as int <= 1_000_000_000int,
                            0 <= cfg.fishing.fish_weight_time_multiplier as int <= 10_000int,
                    {}
                }
                let cut = diff * cfg.fishing.fish_weight_time_multiplier / 100;
                if base >= cut {
                    base - cut
                } else {
                    0
                }
            }
        },
        None => base,
    };
    Ok(CastSession { player, fish, canceled: false, catch_time_x100 })
}

/// Cancels an in-flight cast: sets the session's cancellation flag and
/// removes the player from the registry. The deferred resolver, when it
/// later wakes, observes the flag and performs no further action.
pub fn cancel_cast(registry: &mut SessionRegistry, session: &mut CastSession)
    ensures
        end_spec(*old(registry), *final(registry), old(session).player),
        final(session).canceled,
        final(session).player == old(session).player,
        final(session).fish == old(session).fish,
        final(session).catch_time_x100 == old(session).catch_time_x100,
{
    session.canceled = true;
    registry.end(session.player);
}

/// The terminal outcome of a resolution step.
#[derive(Debug)]
pub enum ResolveOutcome {
    /// The cast was canceled before the resolver woke: no registry change,
    /// no wallet credit, no message.
    Suppressed,
    /// Nothing was on the line.
    Nothing,
    /// The hook check failed; the fish got away.
    Missed,
    /// The fish is caught: credit its value and record it.
    Caught { fish: Fish },
    /// The load exceeds the line: the player must type the code within the
    /// time limit (in hundredths of a second) to save the catch.
    Challenge { fish: Fish, code: String, time_limit_x100: u64 },
}

/// What one resolution step decided.
#[derive(Debug)]
pub struct Resolution {
    pub outcome: ResolveOutcome,
    /// Whether the active bait is consumed now (single-use bait only;
    /// consumed before the odds are computed, never before generation).
    pub consume_bait: bool,
}

/// Resolves a cast once its delay has elapsed.
///
/// A canceled session is suppressed: the registry is untouched and no
/// outcome is produced. Otherwise the player is unregistered (the single
/// authoritative removal point for the non-canceled path), single-use
/// bait is consumed, and the outcome is decided: nothing on the line, a
/// failed hook check, a clean catch when the load fits the line, or the
/// overload challenge. A hook chance of 100% or more never misses.
pub fn resolve_catch(
    registry: &mut SessionRegistry,
    session: CastSession,
    loadout: &RodLoadout,
    cfg: &Config,
) -> (r: Resolution)
    requires
        loadout.wf(),
        cfg.wf(),
        session.fish matches Some(f) ==> f.weight <= 1_000_000_000,
    ensures
        session.canceled ==> r.outcome is Suppressed && *final(registry) == *old(registry)
            && !r.consume_bait,
        !session.canceled ==> end_spec(*old(registry), *final(registry), session.player)
            && r.consume_bait == (match loadout.bait {
            Some(b) => !b.reusable,
            None => false,
        }),
        !session.canceled ==> match session.fish {
            None => true,
            Some(f) => hook_chance_spec(cfg.fishing, *loadout, f.category) == 0 ==> r.outcome
                is Missed,
        },
        !session.canceled ==> match session.fish {
            None => r.outcome is Nothing,
            Some(f) => match r.outcome {
                ResolveOutcome::Missed => hook_chance_spec(cfg.fishing, *loadout, f.category)
                    < 10000,
                ResolveOutcome::Caught { fish } => fish == f && load_spec(f, *loadout)
                    <= total_strength_spec(*loadout),
                ResolveOutcome::Challenge { fish, code, time_limit_x100 } => {
                    &&& fish == f
                    &&& load_spec(f, *loadout) > total_strength_spec(*loadout)
                    &&& time_limit_x100 == qte_time_spec(
                        cfg.fishing,
                        load_spec(f, *loadout),
                        total_strength_spec(*loadout),
                    )
                    &&& code@.len() == 5
                    &&& (forall|i: int| 0 <= i < code@.len() ==> is_alnum_char_spec(code@[i]))
                },
                _ => false,
            },
        },
{
    if session.canceled {
        return Resolution { outcome: ResolveOutcome::Suppressed, consume_bait: false };
    }
    // Single-use bait is used up now, before the odds — never before
    // generation, which already happened when the cast began.
    let consume_bait = match &loadout.bait {
        Some(b) => !b.reusable,
        None => false,
    };
    registry.end(session.player);
    let fish = match session.fish {
        None => {
            return Resolution { outcome: ResolveOutcome::Nothing, consume_bait };
        },
        Some(f) => f,
    };
    // Hook check: (base chance + sensitivity) / fight multiplier.
    let fight = fish.category.fight_multiplier();
    let chance: u64 = (cfg.fishing.base_catch_chance + loadout.rod.sensitivity) * 10000 / fight;
    let roll = random_in_range(0, 9999);
    if roll >= chance {
        return Resolution { outcome: ResolveOutcome::Missed, consume_bait };
    }
    // Weight check: fish plus sinker against the line's capacity.
    let load = fish.weight + loadout.sinker.weight;
    let max_strength = loadout.total_strength();
    if load <= max_strength {
        return Resolution { outcome: ResolveOutcome::Caught { fish }, consume_bait };
    }
    // Overload: a timed code-entry challenge.
    let code = random_code();
    proof {
        assert((cfg.fishing.base_qte_time as int) * (max_strength as int)
            <= 100_000_000int * 10_000_000_000int) by (nonlinear_arith)
            requires
                0 <= cfg.fishing.base_qte_time as int <= 100_000_000int,
                0 <= max_strength as int <= 10_000_000_000int,
        {}
    }
    let scaled = cfg.fishing.base_qte_time * max_strength / load;
    let time_limit_x100: u64 = if scaled >= cfg.fishing.min_qte_time {
        scaled
    } else {
        cfg.fishing.min_qte_time
    };
    Resolution { outcome: ResolveOutcome::Challenge { fish, code, time_limit_x100 }, consume_bait }
}

/// How the overload challenge ended.
#[derive(Debug)]
pub enum ChallengeResult {
    /// The reply matched the code in time: the catch proceeds as caught.
    Saved { fish: Fish },
    /// A wrong reply, or none within the time limit: the line snaps, the
    /// catch is lost, and the active bait is forcibly cleared.
    Snapped,
}

/// Decides the overload challenge: the catch is saved exactly when a
/// reply arrived and matches the code, ignoring ASCII case and spaces.
pub fn resolve_challenge(fish: Fish, reply: Option<&str>, code: &str) -> (r: ChallengeResult)
    ensures
        r is Saved <==> (match reply {
            Some(s) => code_matches_spec(s.spec_bytes(), code.spec_bytes()),
            None => false,
        }),
        r matches ChallengeResult::Saved { fish: g } ==> g == fish,
{
    match reply {
        Some(s) => {
            if code_matches(s, code) {
                ChallengeResult::Saved { fish }
            } else {
                ChallengeResult::Snapped
            }
        },
        None => ChallengeResult::Snapped,
    }
}

} // verus!
