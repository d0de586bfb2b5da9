//! Bounded-memory performance telemetry and chaos-simulation core.
//!
//! The crate provides streaming statistics engines that track frame rate,
//! input-latency percentiles and synthetic fault events under continuous
//! high-frequency updates, together with a heuristic that recommends a
//! rendering strategy from observed load. All measured quantities are carried
//! as fixed-point integers (thousandths of the natural unit), so every
//! aggregate is exact and every contract is provable; the host converts
//! floating-point readings at the boundary and supplies every clock reading
//! as a plain integer (thousandths of a millisecond for the engines here,
//! milliseconds for the page-load report).

pub mod advisor;
pub mod bounded;
pub mod chaos;
pub mod fps;
pub mod latency;
pub mod loadreport;
pub mod numfmt;
pub mod stats;

pub use advisor::MapConfig;
pub use advisor::ModeAdvisor;
pub use advisor::RenderMode;
pub use bounded::BoundedSeries;
pub use chaos::ChaosEngine;
pub use chaos::ChaosEvent;
pub use fps::FpsAggregator;
pub use fps::FpsSnapshot;
pub use latency::InputLatencyMeasurer;
pub use latency::LatencyStats;
pub use loadreport::LoadMetrics;
