//! Clock-aligned polling core for a price-logging daemon.
//!
//! The library contains the verified logic of the daemon: the boundary
//! scheduler that decides when the next poll happens, the validation and
//! classification of one poll cycle, the reference model of the time-series
//! store, and the configuration decisions made at startup.  The surrounding
//! process (HTTP client, SQL store, the async loop itself) drives this logic
//! and performs the I/O.

pub mod config;
pub mod cycle;
pub mod daemon;
pub mod digits;
pub mod price;
pub mod schedule;
pub mod store;
