//! Logic of a corner-anchored overlay widget that hides off-screen and
//! "peeks" out while a modifier key is held with the cursor near the corner.
//!
//! The crate holds the verified core: the visibility state machine, the
//! geometry of the hidden and peek positions, the polling monitor's
//! bookkeeping (single-instance guard, lock override, change detection),
//! and a small user registry. Platform probes, window moves and event
//! emission are collaborators supplied by the surrounding application.

pub mod collections;
pub mod geometry;
pub mod monitor;
pub mod probe;
pub mod state;
pub mod text;
pub mod users;
pub mod utils;
