//! A host-metrics sampling library: network rates from cumulative byte
//! counters, the heaviest process of a snapshot, the fields of a GPU query
//! report, and the line-protocol record of one sample.
pub mod gpu;
pub mod process;
pub mod record;
pub mod text;
pub mod traffic;
