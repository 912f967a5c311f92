//! Arbitration of one current-limited supply between a phone's main battery
//! and the battery of its detachable keyboard.
//!
//! The library holds the policy only: the ladders of admissible input-current
//! limits of the supported phones, the assembly of a telemetry snapshot from
//! raw register readings, the decision that maps a snapshot to an action, and
//! the executor that turns an action into an ordered list of register writes.
//! Reading and writing the registers, the clock and the polling loop belong
//! to the caller.
pub mod model;
pub mod device;
pub mod telemetry;
pub mod engine;
pub mod executor;
pub mod text;
pub mod readings;
pub mod payload;
