use yall::{
    fallback_error_line, fallback_message_line, resolve, ColorChoice, ColorMode,
    EffectiveColorChoice, Level, LevelFilter, LevelStyle, LogColor, LogColors, LogRecord, Logger,
};

fn record(level: Level, message: &str, file: Option<&str>, line: Option<u32>) -> LogRecord {
    LogRecord {
        level,
        message: message.to_string(),
        file: file.map(|f| f.to_string()),
        line,
    }
}

const ALL_LEVELS: [Level; 5] = [
    Level::Error,
    Level::Warn,
    Level::Info,
    Level::Debug,
    Level::Trace,
];

const ALL_FILTERS: [LevelFilter; 6] = [
    LevelFilter::Off,
    LevelFilter::Error,
    LevelFilter::Warn,
    LevelFilter::Info,
    LevelFilter::Debug,
    LevelFilter::Trace,
];

fn level_number(l: Level) -> u8 {
    match l {
        Level::Error => 1,
        Level::Warn => 2,
        Level::Info => 3,
        Level::Debug => 4,
        Level::Trace => 5,
    }
}

fn filter_number(f: LevelFilter) -> u8 {
    match f {
        LevelFilter::Off => 0,
        LevelFilter::Error => 1,
        LevelFilter::Warn => 2,
        LevelFilter::Info => 3,
        LevelFilter::Debug => 4,
        LevelFilter::Trace => 5,
    }
}

#[test]
fn enabled_matches_severity_order_for_all_pairs() {
    for &threshold in ALL_FILTERS.iter() {
        let logger = Logger::with_level(threshold);
        for &severity in ALL_LEVELS.iter() {
            let expected = level_number(severity) <= filter_number(threshold);
            assert_eq!(logger.enabled(severity), expected);
        }
    }
}

#[test]
fn off_admits_nothing_and_trace_admits_everything() {
    let off = Logger::with_level(LevelFilter::Off);
    let trace = Logger::with_level(LevelFilter::Trace);
    for &severity in ALL_LEVELS.iter() {
        assert!(!off.enabled(severity));
        assert!(trace.enabled(severity));
    }
}

#[test]
fn error_passes_info_threshold_but_trace_does_not() {
    let logger = Logger::with_level(LevelFilter::Info);
    assert!(logger.enabled(Level::Error));
    assert!(logger.enabled(Level::Info));
    assert!(!logger.enabled(Level::Debug));
    assert!(!logger.enabled(Level::Trace));
}

#[test]
fn verbosity_numbers_map_to_thresholds() {
    assert_eq!(Logger::with_verbosity(0).level, LevelFilter::Off);
    assert_eq!(Logger::with_verbosity(1).level, LevelFilter::Error);
    assert_eq!(Logger::with_verbosity(2).level, LevelFilter::Warn);
    assert_eq!(Logger::with_verbosity(3).level, LevelFilter::Info);
    assert_eq!(Logger::with_verbosity(4).level, LevelFilter::Debug);
    assert_eq!(Logger::with_verbosity(5).level, LevelFilter::Trace);
}

#[test]
fn verbosity_saturates_above_five() {
    for n in 5u8..=255 {
        if n == 5 || n == 6 || n == 7 || n == 100 || n == 255 {
            assert_eq!(Logger::with_verbosity(n).level, Logger::with_verbosity(5).level);
        }
    }
}

#[test]
fn verbose_and_quiet_saturate_at_the_ends() {
    let top = Logger::with_level(LevelFilter::Trace).verbose(200);
    assert_eq!(top.level, LevelFilter::Trace);
    let bottom = Logger::with_level(LevelFilter::Off).quiet(200);
    assert_eq!(bottom.level, LevelFilter::Off);
    let up = Logger::with_verbosity(3).verbose(250).verbose(250);
    assert_eq!(up.level, LevelFilter::Trace);
    let down = Logger::with_verbosity(3).quiet(250).quiet(250);
    assert_eq!(down.level, LevelFilter::Off);
}

#[test]
fn verbose_then_quiet_round_trips_without_saturation() {
    let logger = Logger::with_level(LevelFilter::Warn).verbose(2).quiet(2);
    assert_eq!(logger.level, LevelFilter::Warn);
    let logger = Logger::with_level(LevelFilter::Off).verbose(5).quiet(5);
    assert_eq!(logger.level, LevelFilter::Off);
}

#[test]
fn verbose_then_quiet_is_lossy_across_the_clamp() {
    let logger = Logger::with_level(LevelFilter::Debug).verbose(3).quiet(3);
    assert_ne!(logger.level, LevelFilter::Debug);
    assert_eq!(logger.level, LevelFilter::Warn);
}

#[test]
fn resolve_follows_the_color_policy() {
    assert_eq!(resolve(ColorMode::Never, true, false), EffectiveColorChoice::Disabled);
    assert_eq!(resolve(ColorMode::Always, false, true), EffectiveColorChoice::Enabled);
    assert_eq!(resolve(ColorMode::Auto, false, false), EffectiveColorChoice::Disabled);
    assert_eq!(resolve(ColorMode::Auto, true, false), EffectiveColorChoice::Enabled);
    assert_eq!(resolve(ColorMode::Auto, true, true), EffectiveColorChoice::Disabled);
}

#[test]
fn color_choice_tracks_the_terminal_capability() {
    assert_eq!(ColorMode::Auto.to_color_choice(true), ColorChoice::Auto);
    assert_eq!(ColorMode::Auto.to_color_choice(false), ColorChoice::Never);
    assert_eq!(ColorMode::Always.to_color_choice(false), ColorChoice::Always);
    assert_eq!(ColorMode::Never.to_color_choice(true), ColorChoice::Never);
}

#[test]
fn filenames_are_shortened_in_debug_locations() {
    let logger = Logger::with_level(LevelFilter::Trace);
    let line = logger.render_record(&record(Level::Debug, "m", Some("src/app.rs"), Some(7)));
    assert_eq!(line, "[DEBUG][app:7] m");
}

#[test]
fn full_filename_disables_shortening() {
    let logger = Logger::with_level(LevelFilter::Trace).full_filename(true);
    let line = logger.render_record(&record(Level::Debug, "m", Some("src/app.rs"), Some(7)));
    assert_eq!(line, "[DEBUG][src/app.rs:7] m");
}

#[test]
fn suffix_is_stripped_without_a_prefix() {
    let line = yall::shorten_filename("lib.rs");
    assert_eq!(line, "lib");
    assert_eq!(yall::shorten_filename("src/app.rs"), "app");
    assert_eq!(yall::shorten_filename("src/app.rs.bak"), "app.rs.bak");
    assert_eq!(yall::shorten_filename("other/dir/mod.rs"), "other/dir/mod");
    assert_eq!(yall::shorten_filename("?"), "?");
}

#[test]
fn info_passes_through_verbatim() {
    let logger = Logger::new();
    let line = logger.render_record(&record(Level::Info, "hello", Some("src/app.rs"), Some(3)));
    assert_eq!(line, "hello");
}

#[test]
fn error_gets_its_prefix_and_bold_red_style() {
    let logger = Logger::new();
    let line = logger.render_record(&record(Level::Error, "boom", None, None));
    assert_eq!(line, "[ERROR] boom");
    let style = *logger.colors.get(Level::Error);
    assert_eq!(style, LevelStyle { fg: Some(LogColor::Red), bold: true });
}

#[test]
fn warn_gets_its_prefix_and_bold_yellow_style() {
    let logger = Logger::new();
    let line = logger.render_record(&record(Level::Warn, "watch out", None, None));
    assert_eq!(line, "[WARN] watch out");
    let style = *logger.colors.get(Level::Warn);
    assert_eq!(style, LevelStyle { fg: Some(LogColor::Yellow), bold: true });
}

#[test]
fn info_style_is_plain() {
    let colors = LogColors::new();
    assert_eq!(*colors.get(Level::Info), LevelStyle { fg: None, bold: false });
    assert_eq!(*colors.get(Level::Debug), LevelStyle { fg: Some(LogColor::Cyan), bold: false });
    assert_eq!(*colors.get(Level::Trace), LevelStyle { fg: Some(LogColor::Blue), bold: false });
}

#[test]
fn missing_location_renders_as_question_mark_and_zero() {
    let logger = Logger::new();
    let line = logger.render_record(&record(Level::Trace, "deep", None, None));
    assert_eq!(line, "[TRACE][?:0] deep");
}

#[test]
fn line_numbers_render_in_decimal() {
    let logger = Logger::new();
    let line = logger.render_record(&record(Level::Debug, "x", Some("src/main.rs"), Some(1207)));
    assert_eq!(line, "[DEBUG][main:1207] x");
    let line = logger.render_record(&record(Level::Debug, "x", Some("a.rs"), Some(0)));
    assert_eq!(line, "[DEBUG][a:0] x");
    let line = logger.render_record(&record(Level::Debug, "x", Some("a.rs"), Some(u32::MAX)));
    assert_eq!(line, "[DEBUG][a:4294967295] x");
}

#[test]
fn log_line_filters_by_threshold() {
    let logger = Logger::with_level(LevelFilter::Info);
    let allowed = logger.log_line(&record(Level::Warn, "w", None, None));
    assert_eq!(allowed.as_deref(), Some("[WARN] w"));
    let blocked = logger.log_line(&record(Level::Debug, "d", Some("src/app.rs"), Some(1)));
    assert!(blocked.is_none());
}

#[test]
fn builders_start_from_the_documented_defaults() {
    let logger = Logger::new();
    assert_eq!(logger.level, LevelFilter::Info);
    assert_eq!(logger.color_mode, ColorMode::Auto);
    assert!(!logger.use_full_filename);
    let logger = Logger::default();
    assert_eq!(logger.level, LevelFilter::Info);
    assert_eq!(ColorMode::default(), ColorMode::Auto);
}

#[test]
fn builder_chaining_keeps_unrelated_settings() {
    let logger = Logger::with_verbosity(4)
        .color(ColorMode::Never)
        .full_filename(true)
        .verbose(1)
        .quiet(2);
    assert_eq!(logger.level, LevelFilter::Info);
    assert_eq!(logger.color_mode, ColorMode::Never);
    assert!(logger.use_full_filename);
}

#[test]
fn level_filter_integer_mapping_round_trips() {
    for &f in ALL_FILTERS.iter() {
        assert_eq!(LevelFilter::from_int(f.to_int()), f);
    }
    assert_eq!(LevelFilter::from_int(9), LevelFilter::Trace);
}

#[test]
fn fallback_lines_report_the_failure_and_the_original_message() {
    let diag = fallback_error_line("broken pipe");
    assert_eq!(
        diag,
        "LOGGING ERROR: failed to write log message because of 'broken pipe'"
    );
    let msg = fallback_message_line(Level::Error, "boom");
    assert_eq!(msg, "Original message: ERROR: boom");
    let msg = fallback_message_line(Level::Debug, "details");
    assert_eq!(msg, "Original message: DEBUG: details");
}

#[test]
fn level_names_are_upper_case() {
    assert_eq!(Level::Error.as_str(), "ERROR");
    assert_eq!(Level::Warn.as_str(), "WARN");
    assert_eq!(Level::Info.as_str(), "INFO");
    assert_eq!(Level::Debug.as_str(), "DEBUG");
    assert_eq!(Level::Trace.as_str(), "TRACE");
}
