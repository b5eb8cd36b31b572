//! Simulation engine of a terminal idle game: processors run jobs over elapsed
//! time, an economy layer pays for them, and a daemon assigns work automatically.
//!
//! Fractional quantities (speed, reliability, heat, wear, power draw) are held as
//! fixed-point integers in millionths of a unit; see `fixed::UNIT`.
pub mod app;
pub mod daemon;
pub mod data_storage;
pub mod economy;
pub mod engine;
pub mod fixed;
pub mod game;
pub mod jobs;
pub mod messages;
pub mod processors;
pub mod purchase;
pub mod random;
pub mod store;
