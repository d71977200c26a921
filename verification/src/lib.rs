//! A small logging backend for interactive console programs.
//!
//! Log records carry a severity, a message, and an optional source
//! location. A [`Logger`] holds a severity threshold, a color
//! configuration and a per-severity style table; it decides which
//! records pass the threshold and renders each passing record into the
//! exact line of text to be written to the error stream. Everything
//! that decides or formats lives here; the surrounding binary owns the
//! stream handle and performs the actual writes.

mod color;
mod format;
mod level;
mod logger;

pub use color::ColorChoice;
pub use color::ColorMode;
pub use color::EffectiveColorChoice;
pub use color::LevelStyle;
pub use color::LogColor;
pub use color::LogColors;
pub use color::resolve;
pub use format::LogRecord;
pub use format::render;
pub use format::shorten_filename;
pub use level::Level;
pub use level::LevelFilter;
pub use logger::Logger;
pub use logger::fallback_error_line;
pub use logger::fallback_message_line;
