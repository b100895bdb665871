use multi_logger::Level;
use multi_logger::LevelFilter;

#[test]
fn level_to_filter_is_exact() {
    assert_eq!(Level::Error.to_level_filter(), LevelFilter::Error);
    assert_eq!(Level::Warn.to_level_filter(), LevelFilter::Warn);
    assert_eq!(Level::Info.to_level_filter(), LevelFilter::Info);
    assert_eq!(Level::Debug.to_level_filter(), LevelFilter::Debug);
    assert_eq!(Level::Trace.to_level_filter(), LevelFilter::Trace);
}

#[test]
fn filter_admits_at_or_above_threshold() {
    assert!(LevelFilter::Warn.admits(Level::Error));
    assert!(LevelFilter::Warn.admits(Level::Warn));
    assert!(!LevelFilter::Warn.admits(Level::Info));
    assert!(!LevelFilter::Warn.admits(Level::Trace));
    assert!(LevelFilter::Trace.admits(Level::Trace));
    assert!(LevelFilter::Trace.admits(Level::Error));
}

#[test]
fn off_admits_nothing() {
    assert!(!LevelFilter::Off.admits(Level::Error));
    assert!(!LevelFilter::Off.admits(Level::Warn));
    assert!(!LevelFilter::Off.admits(Level::Info));
    assert!(!LevelFilter::Off.admits(Level::Debug));
    assert!(!LevelFilter::Off.admits(Level::Trace));
}

#[test]
fn severity_order() {
    assert!(Level::Error.at_most(Level::Trace));
    assert!(Level::Error.at_most(Level::Error));
    assert!(Level::Info.at_most(Level::Info));
    assert!(!Level::Trace.at_most(Level::Error));
    assert!(!Level::Debug.at_most(Level::Info));
}
