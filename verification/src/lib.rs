//! The per-tick protocol between a character controller and a planar physics
//! engine: what is sensed, what is recorded, and what is commanded.
//!
//! The engine is asked and driven by the caller. This library holds the
//! decisions in between, each with a contract.

pub mod cast;
pub mod layers;
pub mod motor;
pub mod radar;
pub mod recorded;
pub mod scalar;
pub mod sensor;
pub mod tick;
pub mod toggle;
pub mod tracker;
