use ybuild::error::YbuildError;
use ybuild::logger::{enabled, log_line, Level};
use ybuild::select::{select_option, Selection};
use ybuild::text::has_extension;

#[test]
fn select_option_asks_only_between_several() {
    assert_eq!(select_option("Pick", vec![]), Selection::Nothing);
    assert_eq!(select_option("Pick", vec!["a".to_string()]), Selection::Only("a".to_string()));
    assert_eq!(
        select_option("Pick", vec!["a".to_string(), "b".to_string()]),
        Selection::Ask { prompt: "Pick".to_string(), options: vec!["a".to_string(), "b".to_string()] }
    );
}

#[test]
fn log_lines_are_coloured_by_level() {
    assert_eq!(log_line(Level::Error, "boom"), Some("\x1b[1;31m[ERROR]\x1b[0m boom".to_string()));
    assert_eq!(log_line(Level::Warn, "hm"), Some("\x1b[1;33m[WARN]\x1b[0m hm".to_string()));
    assert_eq!(log_line(Level::Info, "hi"), Some("\x1b[1;36m[INFO]\x1b[0m hi".to_string()));
    assert_eq!(log_line(Level::Debug, "x"), None);
    assert!(enabled(Level::Info));
    assert!(!enabled(Level::Trace));
}

#[test]
fn error_messages() {
    assert_eq!(YbuildError::Config("Could not find home directory".to_string()).message(), "Config error: Could not find home directory");
    assert_eq!(YbuildError::Json("bad".to_string()).message(), "JSON error: bad");
    assert_eq!(YbuildError::SelectionCanceled.message(), "Selection canceled by user");
    assert_eq!(YbuildError::Other("plain".to_string()).message(), "plain");
}

#[test]
fn extensions_follow_path_rules() {
    assert!(has_extension("a.csproj", "csproj"));
    assert!(!has_extension(".csproj", "csproj"));
    assert!(has_extension("x.tar.gz", "gz"));
    assert!(!has_extension("..", ""));
    assert!(has_extension("a.", ""));
}
