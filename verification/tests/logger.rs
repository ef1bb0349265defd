use powerpack::logger::{enabled, log_line, Builder, Level, LevelFilter, TIME_FORMAT};
use powerpack::{Icon, Key, Kind};

#[test]
fn information_and_graver_is_logged() {
    assert!(enabled(Level::Error));
    assert!(enabled(Level::Warn));
    assert!(enabled(Level::Info));
    assert!(!enabled(Level::Debug));
    assert!(!enabled(Level::Trace));
}

#[test]
fn a_log_line() {
    assert_eq!(
        log_line("2024-05-01T12:30:00", Level::Info, "fetched /cache/weather/data.json and updated cache"),
        "[2024-05-01T12:30:00] [INFO] fetched /cache/weather/data.json and updated cache"
    );
    assert_eq!(log_line("", Level::Error, ""), "[] [ERROR] ");
    assert_eq!(Level::Warn.name(), "WARN");
    assert_eq!(Level::Debug.name(), "DEBUG");
    assert_eq!(Level::Trace.name(), "TRACE");
    assert_eq!(TIME_FORMAT, "%Y-%m-%dT%H:%M:%S");
}

#[test]
fn a_logger_lets_information_through_unless_told_otherwise() {
    let mut builder = Builder::new();
    assert_eq!(builder.level_filter, LevelFilter::Info);
    builder.filter_level(LevelFilter::Trace).filter_level(LevelFilter::Warn);
    assert_eq!(builder.level_filter, LevelFilter::Warn);
}

#[test]
fn the_names_of_the_script_filter_format() {
    assert_eq!(Key::Command.name(), "cmd");
    assert_eq!(Key::Option.name(), "alt");
    assert_eq!(Key::Control.name(), "ctrl");
    assert_eq!(Key::Shift.name(), "shift");
    assert_eq!(Key::Function.name(), "fn");
    assert_eq!(Kind::Default.name(), "default");
    assert_eq!(Kind::File.name(), "file");
    assert_eq!(Kind::FileSkipCheck.name(), "file:skipcheck");
    let image = Icon::with_image("./icon.png");
    assert_eq!((image.source_name(), image.path()), (None, "./icon.png"));
    let file = Icon::with_file_icon("/Applications/Safari.app");
    assert_eq!((file.source_name(), file.path()), (Some("fileicon"), "/Applications/Safari.app"));
    let uti = Icon::with_type("public.jpeg");
    assert_eq!((uti.source_name(), uti.path()), (Some("filetype"), "public.jpeg"));
}
