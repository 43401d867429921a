//! Assembles a fan-out logging pipeline from a declarative configuration:
//! a console sink, zero or more file sinks and caller-supplied stages, each
//! with its own module filter and formatter settings.
pub mod config;
pub mod error;
pub mod filter;
pub mod level;
pub mod logger;

pub use config::{FileLogger, GlobalLogger, LogConfig, LogFormat, LogOptions, StreamLogger};
pub use error::DynLogAPIErr;
pub use filter::FilterPlan;
pub use level::{Level, LevelFilter};
pub use logger::{CatchAllFilter, Destination, DynamicLogger, DynamicLogging, Loaded, SinkPlan, Stage};
