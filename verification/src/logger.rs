use vstd::prelude::*;
use vstd::string::StringExecFns;

use crate::color::ColorMode;
use crate::color::LogColors;
use crate::format::LogRecord;
use crate::format::render;
use crate::format::rendered_line;
use crate::level::Level;
use crate::level::LevelFilter;
use crate::level::filter_from_verbosity;
use crate::level::level_enabled;

verus! {

/// The logger configuration: a severity threshold, the per-severity
/// style table, the file-name display mode, and the requested color
/// mode.
///
/// A logger is built and adjusted with the consuming builder methods
/// below, and is then handed to the surrounding binary, which owns the
/// error-stream handle, registers the logger as the process-wide record
/// sink, and from then on treats this configuration as read-only: every
/// decision about a submitted record (whether it clears the threshold,
/// the exact text of its line, the style it is written with, and the
/// exact fallback text when a write fails) is made here.
#[derive(Clone, Copy, Debug, PartialEq, Eq, Structural)]
pub struct Logger {
    /// The current severity threshold.
    pub level: LevelFilter,
    /// The per-severity style table.
    pub colors: LogColors,
    /// When set, debug and trace locations show the file name
    /// unshortened.
    pub use_full_filename: bool,
    /// The requested color mode, resolved against the error stream's
    /// capabilities when the stream is configured.
    pub color_mode: ColorMode,
}

/// Is `logger` in the state every constructor establishes, apart from
/// its threshold: default styles, shortened file names, automatic
/// color?
pub open spec fn fresh_with_level(logger: Logger, level: LevelFilter) -> bool {
    &&& logger.level == level
    &&& logger.colors.is_default()
    &&& !logger.use_full_filename
    &&& logger.color_mode == ColorMode::Auto
}

impl Logger {
    /// Create a Logger with the default `Info` threshold.
    pub fn new() -> (r: Logger)
        ensures
            fresh_with_level(r, LevelFilter::Info),
    {
        Self::with_level(LevelFilter::Info)
    }

    /// Create a Logger with the given threshold.
    pub fn with_level(level: LevelFilter) -> (r: Logger)
        ensures
            fresh_with_level(r, level),
    {
        Self {
            level,
            colors: LogColors::new(),
            use_full_filename: false,
            color_mode: ColorMode::Auto,
        }
    }

    /// Create a Logger with the given "verbosity" number. Useful for
    /// translating a count of `-v` flags in command-line arguments.
    ///
    /// 0 = Off, 1 = Error, 2 = Warn, 3 = Info, 4 = Debug, 5+ = Trace
    pub fn with_verbosity(level: u8) -> (r: Logger)
        ensures
            fresh_with_level(r, filter_from_verbosity(level as int)),
    {
        Self::with_level(LevelFilter::from_int(level))
    }

    /// Increase the verbosity by the amount given, saturating at
    /// `Trace`.
    pub fn verbose(self, change: u8) -> (r: Logger)
        ensures
            r == (Logger { level: filter_from_verbosity(self.level.as_int() + change as int), ..self }),
    {
        let level = self.level.add(change);
        Logger { level, ..self }
    }

    /// Decrease the verbosity by the amount given, saturating at `Off`.
    pub fn quiet(self, change: u8) -> (r: Logger)
        ensures
            r == (Logger { level: filter_from_verbosity(self.level.as_int() - change as int), ..self }),
    {
        let level = self.level.sub(change);
        Logger { level, ..self }
    }

    /// Set the color mode, see [`ColorMode`] for details.
    pub fn color(self, c: ColorMode) -> (r: Logger)
        ensures
            r == (Logger { color_mode: c, ..self }),
    {
        Logger { color_mode: c, ..self }
    }

    /// By default the file name shown in debug and trace locations is
    /// shortened by removing a `"src/"` prefix and `".rs"` suffix, if
    /// present. Pass `true` to show the full unchanged file name.
    pub fn full_filename(self, full: bool) -> (r: Logger)
        ensures
            r == (Logger { use_full_filename: full, ..self }),
    {
        Logger { use_full_filename: full, ..self }
    }

    /// Does a record of severity `level` pass this logger's threshold?
    /// `Off` admits nothing and `Trace` admits everything; an `Error`
    /// record passes an `Info` threshold, a `Trace` record does not.
    pub fn enabled(&self, level: Level) -> (r: bool)
        ensures
            r == level_enabled(level, self.level),
    {
        self.level.enabled(level)
    }

    /// Render a record into the exact text of its log line, styling
    /// aside, under this logger's file-name display mode.
    pub fn render_record(&self, r: &LogRecord) -> (out: String)
        ensures
            out@ == rendered_line(r.level, r.message@, r.file_view(), r.line, self.use_full_filename),
    {
        render(r, self.use_full_filename)
    }

    /// The record-intake decision: the rendered line of `r` if its
    /// severity passes the threshold, and nothing otherwise.
    pub fn log_line(&self, r: &LogRecord) -> (out: Option<String>)
        ensures
            out.is_some() == level_enabled(r.level, self.level),
            match out {
                Some(line) => line@ == rendered_line(
                    r.level,
                    r.message@,
                    r.file_view(),
                    r.line,
                    self.use_full_filename,
                ),
                None => true,
            },
    {
        if self.enabled(r.level) {
            Some(self.render_record(r))
        } else {
            None
        }
    }
}

impl Default for Logger {
    /// Create a Logger with the default `Info` threshold.
    fn default() -> (r: Self)
        ensures
            fresh_with_level(r, LevelFilter::Info),
    {
        Self::new()
    }
}

/// The diagnostic line written, uncolored, when writing a styled log
/// line fails: it reports the failure `err` as the stream described it.
pub open spec fn fallback_error_text(err: Seq<char>) -> Seq<char> {
    "LOGGING ERROR: failed to write log message because of '"@ + err + "'"@
}

/// The uncolored best-effort line that repeats a record after a failed
/// write: the severity name and the original message.
pub open spec fn fallback_message_text(level: Level, message: Seq<char>) -> Seq<char> {
    "Original message: "@ + level.name() + ": "@ + message
}

/// The diagnostic line that reports a failed write of a styled log
/// line.
pub fn fallback_error_line(err: &str) -> (out: String)
    ensures
        out@ == fallback_error_text(err@),
{
    let mut out = String::from_str("LOGGING ERROR: failed to write log message because of '");
    out.append(err);
    out.append("'");
    proof {
        assert(out@ =~= fallback_error_text(err@));
    }
    out
}

/// The uncolored line that repeats the severity and message of a
/// record whose styled write failed.
pub fn fallback_message_line(level: Level, message: &str) -> (out: String)
    ensures
        out@ == fallback_message_text(level, message@),
{
    let mut out = String::from_str("Original message: ");
    out.append(level.as_str());
    out.append(": ");
    out.append(message);
    proof {
        assert(out@ =~= fallback_message_text(level, message@));
    }
    out
}

} // verus!
