//! Rules of EutherCivet, a satirical civet-coffee plantation sim.
//!
//! The library keeps the discrete side of the game: money, reputation,
//! counters, flags, the event log, the seeded random source, and every
//! decision the rules make. The continuous stocks and meters (coffee fruit,
//! civet feed, beans, roasted coffee, suspicion, civet happiness) live with the
//! host; the rules read them through small `Reading` records and hand back
//! `Effect`s that say how they move.

pub mod journal;
pub mod rng;
pub mod text;
pub mod effect;
pub mod action;
pub mod ledger;
pub mod localization;
pub mod estate;
pub mod events;
pub mod orders;
pub mod day;
pub mod chores;
pub mod work;
pub mod care;
pub mod play;
pub mod panel;
pub mod scene;
pub mod laws;
