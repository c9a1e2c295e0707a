use maestro::logging::{log_line, route, use_notifications, LogLevel, LogMode, LogRoute};

#[test]
fn routes_by_mode() {
    let mut mode = LogMode::Dialog;
    assert_eq!(route(mode, LogLevel::Info), LogRoute::LogOnly);
    assert_eq!(route(mode, LogLevel::Warning), LogRoute::Dialog);
    assert_eq!(route(mode, LogLevel::Error), LogRoute::Dialog);
    use_notifications(&mut mode);
    assert_eq!(mode, LogMode::Notify);
    assert_eq!(route(mode, LogLevel::Info), LogRoute::LogOnly);
    assert_eq!(route(mode, LogLevel::Warning), LogRoute::LogOnly);
    assert_eq!(route(mode, LogLevel::Error), LogRoute::Notification);
}

#[test]
fn log_lines() {
    assert_eq!(log_line(1700000000, LogLevel::Warning, "disk full"), "[maestrod 1700000000 Warning] disk full");
    assert_eq!(log_line(0, LogLevel::Info, ""), "[maestrod 0 Info] ");
}
