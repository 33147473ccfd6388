//! How much the probe prints, and the log level that goes with it.
use vstd::prelude::*;

use crate::text::{dec_str, push_decimal};

verus! {

/// The output-suppression policy of a run.
#[derive(Copy, Clone, Debug, PartialEq, Eq, Structural, PartialOrd, Ord, Hash)]
pub enum Verbosity {
    Silent,
    Quiet,
    Normal,
    Verbose(u8),
}

/// The level below which log records are dropped, from `Off` (everything
/// dropped) to `Trace` (nothing dropped).
#[derive(Copy, Clone, Debug, PartialEq, Eq, Structural, PartialOrd, Ord, Hash)]
pub enum LevelFilter {
    Off,
    Error,
    Warn,
    Info,
    Debug,
    Trace,
}

impl Default for Verbosity {
    fn default() -> (r: Verbosity)
        ensures
            r == Verbosity::Normal,
    {
        Verbosity::Normal
    }
}

/// The name of a verbosity.
pub open spec fn verbosity_name(v: Verbosity) -> Seq<char> {
    match v {
        Verbosity::Normal => "normal"@,
        Verbosity::Quiet => "quiet"@,
        Verbosity::Silent => "silent"@,
        Verbosity::Verbose(level) => "verbose "@ + dec_str(level as nat),
    }
}

/// The log level of a verbosity: errors only by default, nothing when quiet
/// or silent, and one more level for each verbose step up to trace.
pub open spec fn filter_level(v: Verbosity) -> LevelFilter {
    match v {
        Verbosity::Normal => LevelFilter::Error,
        Verbosity::Quiet => LevelFilter::Off,
        Verbosity::Silent => LevelFilter::Off,
        Verbosity::Verbose(level) => if level == 0 {
            LevelFilter::Error
        } else if level == 1 {
            LevelFilter::Warn
        } else if level == 2 {
            LevelFilter::Info
        } else if level == 3 {
            LevelFilter::Debug
        } else {
            LevelFilter::Trace
        },
    }
}

impl Verbosity {
    pub fn as_str(&self) -> (r: String)
        ensures
            r@ == verbosity_name(*self),
    {
        match self {
            Verbosity::Normal => String::from_str("normal"),
            Verbosity::Quiet => String::from_str("quiet"),
            Verbosity::Silent => String::from_str("silent"),
            Verbosity::Verbose(level) => {
                let mut s = String::from_str("verbose ");
                push_decimal(&mut s, *level as u64);
                s
            },
        }
    }

    pub fn to_filter_level(&self) -> (r: LevelFilter)
        ensures
            r == filter_level(*self),
    {
        match self {
            Verbosity::Normal => LevelFilter::Error,
            Verbosity::Quiet => LevelFilter::Off,
            Verbosity::Silent => LevelFilter::Off,
            Verbosity::Verbose(level) => match level {
                0 => LevelFilter::Error,
                1 => LevelFilter::Warn,
                2 => LevelFilter::Info,
                3 => LevelFilter::Debug,
                _ => LevelFilter::Trace,
            },
        }
    }
}

} // verus!
