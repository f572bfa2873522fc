//! Bridge between a bus simulator's telemetry and a KOMSI instrument cluster.
//!
//! The library samples nothing and writes nothing itself. It holds what the
//! bridge decides: the command codec (`komsi`), the vehicle state model
//! (`vehicle`), the differ that turns two snapshots into the smallest command
//! stream (`vehiclediff`), the state machine of the serial link that carries
//! the stream (`transport`), the step of the sampling loop (`bridge`), the
//! mapping of the simulator's readings (`api`, `api2vehicle`), the settings
//! (`settings`, `opts`) and the text lines for diagnostics (`report`,
//! `serial`).

pub mod api;
pub mod api2vehicle;
pub mod bridge;
pub mod komsi;
pub mod opts;
pub mod report;
pub mod serial;
pub mod settings;
pub mod transport;
pub mod vehicle;
pub mod vehiclediff;
