//! Severity levels and the facade's threshold filter.
//!
//! The five levels are ordered from most severe (`Error`) to least severe
//! (`Trace`); a filter is a level or the pseudo-value `Off`, and admits
//! exactly the records whose level is at or above it.

use vstd::prelude::*;

verus! {

/// A record's severity, from most severe (`Error`) to least severe (`Trace`).
#[derive(Clone, Copy, Debug, PartialEq, Eq, Structural)]
pub enum Level {
    Error,
    Warn,
    Info,
    Debug,
    Trace,
}

/// The facade's global severity threshold: one of the five levels, or `Off`,
/// which admits nothing.
#[derive(Clone, Copy, Debug, PartialEq, Eq, Structural)]
pub enum LevelFilter {
    Off,
    Error,
    Warn,
    Info,
    Debug,
    Trace,
}

impl Level {
    /// How verbose the level is: 1 for `Error`, the most severe, up to 5 for
    /// `Trace`, the least. A lower number means a more severe level.
    pub open spec fn verbosity(self) -> int {
        match self {
            Level::Error => 1,
            Level::Warn => 2,
            Level::Info => 3,
            Level::Debug => 4,
            Level::Trace => 5,
        }
    }

    /// The filter that admits exactly this level and the more severe ones.
    pub open spec fn to_filter_spec(self) -> LevelFilter {
        match self {
            Level::Error => LevelFilter::Error,
            Level::Warn => LevelFilter::Warn,
            Level::Info => LevelFilter::Info,
            Level::Debug => LevelFilter::Debug,
            Level::Trace => LevelFilter::Trace,
        }
    }

    /// The verbosity rank as a machine integer.
    pub fn verbosity_index(self) -> (n: u8)
        ensures
            n as int == self.verbosity(),
    {
        match self {
            Level::Error => 1,
            Level::Warn => 2,
            Level::Info => 3,
            Level::Debug => 4,
            Level::Trace => 5,
        }
    }

    /// True iff `self` is at least as severe as `other`.
    pub fn at_most(self, other: Level) -> (r: bool)
        ensures
            r == (self.verbosity() <= other.verbosity()),
    {
        self.verbosity_index() <= other.verbosity_index()
    }

    /// Converts the level to the equivalent filter threshold.
    pub fn to_level_filter(self) -> (f: LevelFilter)
        ensures
            f == self.to_filter_spec(),
    {
        match self {
            Level::Error => LevelFilter::Error,
            Level::Warn => LevelFilter::Warn,
            Level::Info => LevelFilter::Info,
            Level::Debug => LevelFilter::Debug,
            Level::Trace => LevelFilter::Trace,
        }
    }
}

impl LevelFilter {
    /// How verbose a record the filter still admits: 0 for `Off`, which admits
    /// nothing, up to 5 for `Trace`, which admits everything.
    pub open spec fn verbosity(self) -> int {
        match self {
            LevelFilter::Off => 0,
            LevelFilter::Error => 1,
            LevelFilter::Warn => 2,
            LevelFilter::Info => 3,
            LevelFilter::Debug => 4,
            LevelFilter::Trace => 5,
        }
    }

    /// Whether a record at `level` passes this threshold.
    pub open spec fn admits_spec(self, level: Level) -> bool {
        level.verbosity() <= self.verbosity()
    }

    /// The verbosity rank as a machine integer.
    pub fn verbosity_index(self) -> (n: u8)
        ensures
            n as int == self.verbosity(),
    {
        match self {
            LevelFilter::Off => 0,
            LevelFilter::Error => 1,
            LevelFilter::Warn => 2,
            LevelFilter::Info => 3,
            LevelFilter::Debug => 4,
            LevelFilter::Trace => 5,
        }
    }

    /// True iff a record at `level` passes this threshold: the facade delivers
    /// a record to its sink iff the record's level is at or above the
    /// installed filter.
    pub fn admits(self, level: Level) -> (r: bool)
        ensures
            r == self.admits_spec(level),
    {
        level.verbosity_index() <= self.verbosity_index()
    }
}

} // verus!
