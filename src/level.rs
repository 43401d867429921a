use vstd::prelude::*;

verus! {

/// Severity of a record, from the most verbose to the most severe.
#[derive(Clone, Copy, Debug, PartialEq, Eq, Structural)]
pub enum Level {
    Trace,
    Debug,
    Info,
    Warn,
    Error,
}

/// The most verbose severity a filter lets through, or `Off` for none.
#[derive(Clone, Copy, Debug, PartialEq, Eq, Structural)]
pub enum LevelFilter {
    Off,
    Error,
    Warn,
    Info,
    Debug,
    Trace,
}

/// The filter that lets through exactly the records at `l` or above.
pub open spec fn spec_filter_of(l: Level) -> LevelFilter {
    match l {
        Level::Trace => LevelFilter::Trace,
        Level::Debug => LevelFilter::Debug,
        Level::Info => LevelFilter::Info,
        Level::Warn => LevelFilter::Warn,
        Level::Error => LevelFilter::Error,
    }
}

impl LevelFilter {
    pub fn from_level(l: Level) -> (r: LevelFilter)
        ensures
            r == spec_filter_of(l),
    {
        match l {
            Level::Trace => LevelFilter::Trace,
            Level::Debug => LevelFilter::Debug,
            Level::Info => LevelFilter::Info,
            Level::Warn => LevelFilter::Warn,
            Level::Error => LevelFilter::Error,
        }
    }
}

} // verus!
