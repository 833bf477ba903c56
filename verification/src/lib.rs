//! A chat-driven fishing game engine.
//!
//! The library owns the cast lifecycle: a session registry that allows at
//! most one in-flight cast per player, a procedural generation pipeline that
//! turns equipment and bait into a concrete catch, and the resolution state
//! machine that decides whether the catch is kept, lost, or contested in a
//! timed challenge.
//!
//! All quantities are fixed-point integers: measures (inches, pounds, feet,
//! seconds) are held in hundredths of a unit, multipliers and probabilities
//! in hundredths as well, and money in cents.

pub mod attribute;
pub mod bait;
pub mod cast;
pub mod config;
pub mod depth;
pub mod fish;
pub mod gear;
pub mod inventory;
pub mod rarity;
pub mod error;
pub mod math;
pub mod money;
pub mod registry;
pub mod rng;
pub mod seqs;
pub mod shop;
pub mod text;
pub mod user;
pub mod weighted;

use vstd::prelude::*;

verus! {

} // verus!
