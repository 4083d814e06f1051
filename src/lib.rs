//! Control logic of an N-body gravity server.
//!
//! The server steps a population of point masses and streams snapshots to
//! connected viewers. This library holds its verified decision logic: the
//! engine's pause, reset and frame bookkeeping (`engine`), the per-connection
//! schedule of heartbeats, physics ticks, the render gate and request dispatch
//! (`session`), the stall detector of the stepping loop (`watchdog`), the
//! split of the force pass over a worker pool (`partition`), the index-seeded
//! jitter of the initial galaxies (`galaxy`) and the server configuration
//! (`config`). The floating-point physics runs beside it.
pub mod config;
pub mod engine;
pub mod galaxy;
pub mod partition;
pub mod session;
pub mod watchdog;
