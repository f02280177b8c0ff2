//! How the engine's logger is set up, and how a message level is shown.
use vstd::prelude::*;

verus! {

/// Severity of a log message.
#[derive(Clone, Copy, Debug, PartialEq, Eq, Structural)]
pub enum LogLevel {
    Error,
    Warn,
    Info,
    Debug,
    Trace,
}

/// The least severe level that a log sink still shows; `Off` shows nothing.
#[derive(Clone, Copy, Debug, PartialEq, Eq, Structural)]
pub enum LevelFilter {
    Off,
    Error,
    Warn,
    Info,
    Debug,
    Trace,
}

/// Terminal color of a level's tag.
#[derive(Clone, Copy, Debug, PartialEq, Eq, Structural)]
pub enum TermColor {
    White,
    Green,
    Cyan,
    Yellow,
    Red,
}

/// Icon of a popup dialog.
#[derive(Clone, Copy, Debug, PartialEq, Eq, Structural)]
pub enum PopupIcon {
    Error,
    Warning,
    Info,
}

/// What the logger shows.
#[derive(Clone, Copy, Debug, PartialEq, Eq, Structural)]
pub struct LogSettings {
    /// Least severe level that is logged at all.
    pub level: LevelFilter,
    /// Lines of this level and of every less severe level name the thread.
    pub thread_level: LevelFilter,
    /// Lines of this level and of every less severe level name the source
    /// location.
    pub location_level: LevelFilter,
}

impl LogSettings {
    /// In debug mode everything is logged, and every line names its source
    /// location; otherwise only warnings and errors are logged, and only
    /// debug and trace lines (which are then not logged) would name their
    /// location.  Every line names its thread.
    pub fn for_mode(debug: bool) -> (s: LogSettings)
        ensures
            s == (LogSettings {
                level: if debug { LevelFilter::Trace } else { LevelFilter::Warn },
                thread_level: LevelFilter::Error,
                location_level: if debug { LevelFilter::Error } else { LevelFilter::Debug },
            }),
    {
        LogSettings {
            level: if debug { LevelFilter::Trace } else { LevelFilter::Warn },
            thread_level: LevelFilter::Error,
            location_level: if debug { LevelFilter::Error } else { LevelFilter::Debug },
        }
    }
}

pub open spec fn spec_level_color(level: LogLevel) -> TermColor {
    match level {
        LogLevel::Trace => TermColor::White,
        LogLevel::Debug => TermColor::Green,
        LogLevel::Info => TermColor::Cyan,
        LogLevel::Warn => TermColor::Yellow,
        LogLevel::Error => TermColor::Red,
    }
}

/// The color of a level's tag in the terminal.
pub fn level_color(level: LogLevel) -> (c: TermColor)
    ensures
        c == spec_level_color(level),
{
    match level {
        LogLevel::Trace => TermColor::White,
        LogLevel::Debug => TermColor::Green,
        LogLevel::Info => TermColor::Cyan,
        LogLevel::Warn => TermColor::Yellow,
        LogLevel::Error => TermColor::Red,
    }
}

pub open spec fn spec_popup_icon(level: LogLevel) -> PopupIcon {
    match level {
        LogLevel::Error => PopupIcon::Error,
        LogLevel::Warn => PopupIcon::Warning,
        LogLevel::Info | LogLevel::Debug | LogLevel::Trace => PopupIcon::Info,
    }
}

/// The icon of the popup that shows a message of the given level.
pub fn popup_icon(level: LogLevel) -> (icon: PopupIcon)
    ensures
        icon == spec_popup_icon(level),
{
    match level {
        LogLevel::Error => PopupIcon::Error,
        LogLevel::Warn => PopupIcon::Warning,
        LogLevel::Info => PopupIcon::Info,
        LogLevel::Debug => PopupIcon::Info,
        LogLevel::Trace => PopupIcon::Info,
    }
}

} // verus!
