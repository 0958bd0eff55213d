//! Game rules of Airport Chaos, a ramp-management game: a fuel truck
//! services aircraft that land on up to four runways, and the player must
//! fuel every parked plane before the next one arrives on its stand.
//!
//! This crate holds the discrete rules of the game: progression, payouts,
//! truck upgrades, routes, aircraft and truck state machines, spawning and
//! fueling decisions. Rendering, input and continuous motion live in the
//! program that drives it.

pub mod rules;
pub mod routes;
pub mod aircraft;
pub mod timers;
pub mod truck;
pub mod state;
pub mod fleet;
pub mod fueling;
