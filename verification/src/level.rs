use vstd::prelude::*;

verus! {

/// Severity of a single log record, from most severe (`Error`) to most
/// verbose (`Trace`).
#[derive(Clone, Copy, Debug, PartialEq, Eq, Structural)]
pub enum Level {
    Error,
    Warn,
    Info,
    Debug,
    Trace,
}

/// A severity threshold: `Off` admits nothing, `Trace` admits
/// everything. A record passes the filter iff its severity is at least
/// as severe as the threshold.
#[derive(Clone, Copy, Debug, PartialEq, Eq, Structural)]
pub enum LevelFilter {
    Off,
    Error,
    Warn,
    Info,
    Debug,
    Trace,
}

impl Level {
    /// The verbosity number of this severity: `Error` is 1, `Trace` is 5.
    pub open spec fn as_int(self) -> int {
        match self {
            Level::Error => 1,
            Level::Warn => 2,
            Level::Info => 3,
            Level::Debug => 4,
            Level::Trace => 5,
        }
    }

    /// The verbosity number of this severity as a machine integer.
    pub fn to_int(self) -> (r: u8)
        ensures
            r == self.as_int(),
    {
        match self {
            Level::Error => 1,
            Level::Warn => 2,
            Level::Info => 3,
            Level::Debug => 4,
            Level::Trace => 5,
        }
    }

    /// The upper-case display name of this severity.
    pub open spec fn name(self) -> Seq<char> {
        match self {
            Level::Error => "ERROR"@,
            Level::Warn => "WARN"@,
            Level::Info => "INFO"@,
            Level::Debug => "DEBUG"@,
            Level::Trace => "TRACE"@,
        }
    }

    /// The upper-case display name of this severity.
    pub fn as_str(self) -> (r: &'static str)
        ensures
            r@ == self.name(),
    {
        match self {
            Level::Error => "ERROR",
            Level::Warn => "WARN",
            Level::Info => "INFO",
            Level::Debug => "DEBUG",
            Level::Trace => "TRACE",
        }
    }
}

/// Does a record of severity `level` pass the threshold `filter`?
/// `Off` (0) admits nothing; `Trace` (5) admits everything.
pub open spec fn level_enabled(level: Level, filter: LevelFilter) -> bool {
    level.as_int() <= filter.as_int()
}

/// The threshold that a verbosity number selects: 0 is `Off`, 1 is
/// `Error`, 2 is `Warn`, 3 is `Info`, 4 is `Debug`, and anything from 5
/// up (or, for the saturating arithmetic below, anything below 0) is
/// clamped to `Trace` (respectively `Off`).
pub open spec fn filter_from_verbosity(v: int) -> LevelFilter {
    if v <= 0 {
        LevelFilter::Off
    } else if v == 1 {
        LevelFilter::Error
    } else if v == 2 {
        LevelFilter::Warn
    } else if v == 3 {
        LevelFilter::Info
    } else if v == 4 {
        LevelFilter::Debug
    } else {
        LevelFilter::Trace
    }
}

impl LevelFilter {
    /// The verbosity number of this threshold: `Off` is 0, `Trace` is 5.
    pub open spec fn as_int(self) -> int {
        match self {
            LevelFilter::Off => 0,
            LevelFilter::Error => 1,
            LevelFilter::Warn => 2,
            LevelFilter::Info => 3,
            LevelFilter::Debug => 4,
            LevelFilter::Trace => 5,
        }
    }

    /// The threshold selected by a verbosity number; values of 5 and
    /// above all select `Trace`.
    pub fn from_int(val: u8) -> (r: Self)
        ensures
            r == filter_from_verbosity(val as int),
    {
        match val {
            0 => LevelFilter::Off,
            1 => LevelFilter::Error,
            2 => LevelFilter::Warn,
            3 => LevelFilter::Info,
            4 => LevelFilter::Debug,
            _ => LevelFilter::Trace,
        }
    }

    /// The verbosity number of this threshold as a machine integer.
    pub fn to_int(self) -> (r: u8)
        ensures
            r == self.as_int(),
    {
        match self {
            LevelFilter::Off => 0,
            LevelFilter::Error => 1,
            LevelFilter::Warn => 2,
            LevelFilter::Info => 3,
            LevelFilter::Debug => 4,
            LevelFilter::Trace => 5,
        }
    }

    /// Raise the threshold by `change` verbosity steps, saturating at
    /// `Trace`.
    pub fn add(self, change: u8) -> (r: Self)
        ensures
            r == filter_from_verbosity(self.as_int() + change as int),
    {
        Self::from_int(self.to_int().saturating_add(change))
    }

    /// Lower the threshold by `change` verbosity steps, saturating at
    /// `Off`.
    pub fn sub(self, change: u8) -> (r: Self)
        ensures
            r == filter_from_verbosity(self.as_int() - change as int),
    {
        Self::from_int(self.to_int().saturating_sub(change))
    }

    /// Does a record of severity `level` pass this threshold?
    pub fn enabled(self, level: Level) -> (r: bool)
        ensures
            r == level_enabled(level, self),
    {
        level.to_int() <= self.to_int()
    }
}

/// The verbosity number of every threshold lies between 0 (`Off`) and 5
/// (`Trace`): however a threshold was reached, raising or lowering it
/// further can never move past those two ends.
pub proof fn lemma_filter_int_bounds(f: LevelFilter)
    ensures
        0 <= f.as_int() <= 5,
{
}

/// The verbosity mapping and the verbosity number are mutually inverse
/// on the thresholds themselves.
pub proof fn lemma_filter_verbosity_inverse(f: LevelFilter)
    ensures
        filter_from_verbosity(f.as_int()) == f,
{
}

/// Every verbosity number of 5 or more selects the same threshold as 5,
/// namely `Trace`.
pub proof fn lemma_verbosity_saturates(v: int)
    requires
        v >= 5,
    ensures
        filter_from_verbosity(v) == filter_from_verbosity(5),
{
}

/// Raising a `Trace` threshold leaves it at `Trace`, and lowering an
/// `Off` threshold leaves it at `Off`: repeated adjustments never move
/// past the ends of the scale.
pub proof fn lemma_adjust_saturates(d: int)
    requires
        d >= 0,
    ensures
        filter_from_verbosity(LevelFilter::Trace.as_int() + d) == LevelFilter::Trace,
        filter_from_verbosity(LevelFilter::Off.as_int() - d) == LevelFilter::Off,
{
}

/// Raising the threshold by `d` steps and then lowering it by the same
/// `d` restores the original threshold, provided the raise did not
/// saturate at `Trace`.
pub proof fn lemma_verbosity_round_trip(f: LevelFilter, d: int)
    requires
        0 <= d,
        f.as_int() + d <= 5,
    ensures
        filter_from_verbosity(filter_from_verbosity(f.as_int() + d).as_int() - d) == f,
{
}

/// When the raise does saturate at `Trace`, the round trip is not
/// invertible: lowering by the same amount lands strictly below the
/// original threshold (as long as the lowering itself stays on the
/// scale, that is `d` is at most 5).
pub proof fn lemma_round_trip_lossy_at_clamp(f: LevelFilter, d: int)
    requires
        0 <= d <= 5,
        f.as_int() + d > 5,
    ensures
        filter_from_verbosity(filter_from_verbosity(f.as_int() + d).as_int() - d) != f,
        filter_from_verbosity(filter_from_verbosity(f.as_int() + d).as_int() - d).as_int() < f.as_int(),
{
}

} // verus!
