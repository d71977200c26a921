use vstd::prelude::*;

use crate::level::Level;

verus! {

/// Whether to enable colored output, the usual suspects.
#[derive(Clone, Copy, Debug, PartialEq, Eq, Structural)]
pub enum ColorMode {
    /// Enable color automatically if the error stream is a terminal and
    /// the environment does not suppress color.
    Auto,
    /// Always enable colored output.
    Always,
    /// Never enable colored output.
    Never,
}

/// What the output stream is asked to do about color: decide from the
/// environment (`Auto`), or force it on or off. The stream's own
/// `Auto` check covers only environment signals; whether the stream is
/// a terminal has already been decided by then (see
/// [`ColorMode::to_color_choice`]).
#[derive(Clone, Copy, Debug, PartialEq, Eq, Structural)]
pub enum ColorChoice {
    Auto,
    Always,
    Never,
}

/// The resolved color decision for rendered output.
#[derive(Clone, Copy, Debug, PartialEq, Eq, Structural)]
pub enum EffectiveColorChoice {
    Enabled,
    Disabled,
}

impl Default for ColorMode {
    /// The default ColorMode is `Auto`.
    fn default() -> (r: Self)
        ensures
            r == ColorMode::Auto,
    {
        Self::Auto
    }
}

impl ColorMode {
    /// The stream request that this mode makes, given whether the error
    /// stream is a terminal: `Auto` asks a terminal stream to decide
    /// from the environment and turns color off entirely on a
    /// non-terminal stream; `Always` and `Never` pass through.
    pub open spec fn choice_for(self, stderr_is_terminal: bool) -> ColorChoice {
        match self {
            ColorMode::Auto => if stderr_is_terminal {
                ColorChoice::Auto
            } else {
                ColorChoice::Never
            },
            ColorMode::Always => ColorChoice::Always,
            ColorMode::Never => ColorChoice::Never,
        }
    }

    /// Map this mode to the choice handed to the output stream, closing
    /// over the terminal capability of the error stream.
    pub fn to_color_choice(&self, stderr_is_terminal: bool) -> (r: ColorChoice)
        ensures
            r == self.choice_for(stderr_is_terminal),
    {
        match self {
            ColorMode::Auto => {
                if stderr_is_terminal {
                    ColorChoice::Auto
                } else {
                    ColorChoice::Never
                }
            },
            ColorMode::Always => ColorChoice::Always,
            ColorMode::Never => ColorChoice::Never,
        }
    }
}

/// Is color enabled under `mode`, when the error stream is a terminal
/// iff `is_terminal` and the environment (an explicit disable, or a
/// terminal type without styling support) suppresses color iff
/// `env_suppresses_color`?
pub open spec fn resolved(mode: ColorMode, is_terminal: bool, env_suppresses_color: bool) -> EffectiveColorChoice {
    match mode {
        ColorMode::Always => EffectiveColorChoice::Enabled,
        ColorMode::Never => EffectiveColorChoice::Disabled,
        ColorMode::Auto => if is_terminal && !env_suppresses_color {
            EffectiveColorChoice::Enabled
        } else {
            EffectiveColorChoice::Disabled
        },
    }
}

/// Resolve a requested color mode against the capabilities of the
/// output stream: `Always` enables unconditionally, `Never` disables
/// unconditionally, and `Auto` enables exactly when the stream is a
/// terminal and the environment does not suppress color.
pub fn resolve(mode: ColorMode, is_terminal: bool, env_suppresses_color: bool) -> (r: EffectiveColorChoice)
    ensures
        r == resolved(mode, is_terminal, env_suppresses_color),
        r == EffectiveColorChoice::Enabled <==> (mode == ColorMode::Always || (mode
            == ColorMode::Auto && is_terminal && !env_suppresses_color)),
{
    match mode {
        ColorMode::Always => EffectiveColorChoice::Enabled,
        ColorMode::Never => EffectiveColorChoice::Disabled,
        ColorMode::Auto => {
            if is_terminal && !env_suppresses_color {
                EffectiveColorChoice::Enabled
            } else {
                EffectiveColorChoice::Disabled
            }
        },
    }
}

/// The stream request and the resolved decision agree: color ends up
/// enabled exactly when the request is `Always`, or is `Auto` and the
/// environment does not suppress color. (A request of `Auto` is made
/// only for a terminal stream.)
pub proof fn lemma_choice_matches_resolution(mode: ColorMode, is_terminal: bool, env_suppresses_color: bool)
    ensures
        resolved(mode, is_terminal, env_suppresses_color) == EffectiveColorChoice::Enabled <==> (
        mode.choice_for(is_terminal) == ColorChoice::Always || (mode.choice_for(is_terminal)
            == ColorChoice::Auto && !env_suppresses_color)),
{
}

/// A terminal foreground color used by the per-severity styles. Only
/// the basic colors that the styles need are listed.
#[derive(Clone, Copy, Debug, PartialEq, Eq, Structural)]
pub enum LogColor {
    Red,
    Yellow,
    Cyan,
    Blue,
}

/// The style a severity is rendered with: an optional foreground color
/// and a bold flag. A style of `None` foreground and `bold == false`
/// is plain text.
#[derive(Clone, Copy, Debug, PartialEq, Eq, Structural)]
pub struct LevelStyle {
    pub fg: Option<LogColor>,
    pub bold: bool,
}

/// The per-severity style table: bold red for `Error`, bold yellow for
/// `Warn`, plain for `Info`, cyan for `Debug`, blue for `Trace`.
#[derive(Clone, Copy, Debug, PartialEq, Eq, Structural)]
pub struct LogColors {
    pub error: LevelStyle,
    pub warn: LevelStyle,
    pub info: LevelStyle,
    pub debug: LevelStyle,
    pub trace: LevelStyle,
}

impl LogColors {
    /// The style this table assigns to `l`.
    pub open spec fn style_for(self, l: Level) -> LevelStyle {
        match l {
            Level::Error => self.error,
            Level::Warn => self.warn,
            Level::Info => self.info,
            Level::Debug => self.debug,
            Level::Trace => self.trace,
        }
    }

    /// Is this the default style table?
    pub open spec fn is_default(self) -> bool {
        &&& self.error == (LevelStyle { fg: Some(LogColor::Red), bold: true })
        &&& self.warn == (LevelStyle { fg: Some(LogColor::Yellow), bold: true })
        &&& self.info == (LevelStyle { fg: None::<LogColor>, bold: false })
        &&& self.debug == (LevelStyle { fg: Some(LogColor::Cyan), bold: false })
        &&& self.trace == (LevelStyle { fg: Some(LogColor::Blue), bold: false })
    }

    /// The default table: errors bold red, warnings bold yellow, info
    /// plain, debug cyan, trace blue.
    pub fn new() -> (r: Self)
        ensures
            r.is_default(),
    {
        let error = LevelStyle { fg: Some(LogColor::Red), bold: true };
        let warn = LevelStyle { fg: Some(LogColor::Yellow), bold: true };
        let info = LevelStyle { fg: None, bold: false };
        let debug = LevelStyle { fg: Some(LogColor::Cyan), bold: false };
        let trace = LevelStyle { fg: Some(LogColor::Blue), bold: false };
        Self { error, warn, info, debug, trace }
    }

    /// The style to render a record of severity `l` with.
    pub fn get(&self, l: Level) -> (r: &LevelStyle)
        ensures
            *r == self.style_for(l),
    {
        match l {
            Level::Error => &self.error,
            Level::Warn => &self.warn,
            Level::Info => &self.info,
            Level::Debug => &self.debug,
            Level::Trace => &self.trace,
        }
    }
}

} // verus!
