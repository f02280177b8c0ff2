use nova_ge::logging::{level_color, popup_icon, LevelFilter, LogLevel, LogSettings, PopupIcon, TermColor};

#[test]
fn debug_mode_logs_everything() {
    let s = LogSettings::for_mode(true);
    assert_eq!(s.level, LevelFilter::Trace);
    assert_eq!(s.location_level, LevelFilter::Error);
    assert_eq!(s.thread_level, LevelFilter::Error);
}

#[test]
fn release_mode_logs_warnings() {
    let s = LogSettings::for_mode(false);
    assert_eq!(s.level, LevelFilter::Warn);
    assert_eq!(s.location_level, LevelFilter::Debug);
    assert_eq!(s.thread_level, LevelFilter::Error);
}

#[test]
fn level_colors() {
    assert_eq!(level_color(LogLevel::Trace), TermColor::White);
    assert_eq!(level_color(LogLevel::Debug), TermColor::Green);
    assert_eq!(level_color(LogLevel::Info), TermColor::Cyan);
    assert_eq!(level_color(LogLevel::Warn), TermColor::Yellow);
    assert_eq!(level_color(LogLevel::Error), TermColor::Red);
}

#[test]
fn popup_icons() {
    assert_eq!(popup_icon(LogLevel::Error), PopupIcon::Error);
    assert_eq!(popup_icon(LogLevel::Warn), PopupIcon::Warning);
    assert_eq!(popup_icon(LogLevel::Info), PopupIcon::Info);
    assert_eq!(popup_icon(LogLevel::Debug), PopupIcon::Info);
    assert_eq!(popup_icon(LogLevel::Trace), PopupIcon::Info);
}
