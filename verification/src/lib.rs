//! A turn-based fleet-combat resolver.
//!
//! Two fleets of units exchange fire in rounds until one side is wiped out or
//! the round limit is reached. Every random decision is taken from a
//! [`dice::Dice`], which records what it handed out, so that each outcome is
//! stated as a function of the starting fleets and of the draws that were made.
//!
//! The rules in short:
//!
//! - A shot that is stronger than the shield it meets counts in full; a
//!   weaker one counts in whole percents of the full shield. What the shield
//!   does not take goes to the hull. Neither falls below zero.
//! - A unit carries a survival chance in parts per billion. A hit that
//!   leaves the hull under seven tenths multiplies the chance by the share
//!   of the hull that is left; a hit that leaves no hull leaves no chance. At the end of a round the units whose chance
//!   is at or below the explosion threshold of the battle leave their fleet;
//!   the others get their shield and their chance back.
//! - After a shot a unit fires again unless a roll below its rapid-fire
//!   factor against the target comes up zero. The shots of a turn are
//!   counted in a `u64`; the end of that counter is a limit of the machine
//!   that no turn reaches.
//! - Nothing is computed in floating point: a mean is handed out as a sum
//!   and the number of trials.

pub mod battle;
pub mod dice;
pub mod examples;
pub mod factory;
pub mod kinds;
pub mod laws;
pub mod tally;
pub mod units;
