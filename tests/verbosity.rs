use pt::{LevelFilter, Verbosity};
use std::collections::HashMap;

fn get_m_string() -> HashMap<Verbosity, String> {
    [
        (Verbosity::Normal, "normal".to_string()),
        (Verbosity::Quiet, "quiet".to_string()),
        (Verbosity::Silent, "silent".to_string()),
        (Verbosity::Verbose(0), "verbose 0".to_string()),
        (Verbosity::Verbose(1), "verbose 1".to_string()),
        (Verbosity::Verbose(2), "verbose 2".to_string()),
        (Verbosity::Verbose(3), "verbose 3".to_string()),
        (Verbosity::Verbose(4), "verbose 4".to_string()),
        (Verbosity::Verbose(8), "verbose 8".to_string()),
    ]
    .iter()
    .cloned()
    .collect()
}

fn get_m_filter() -> HashMap<Verbosity, LevelFilter> {
    [
        (Verbosity::Normal, LevelFilter::Error),
        (Verbosity::Quiet, LevelFilter::Off),
        (Verbosity::Silent, LevelFilter::Off),
        (Verbosity::Verbose(0), LevelFilter::Error),
        (Verbosity::Verbose(1), LevelFilter::Warn),
        (Verbosity::Verbose(2), LevelFilter::Info),
        (Verbosity::Verbose(3), LevelFilter::Debug),
        (Verbosity::Verbose(4), LevelFilter::Trace),
        (Verbosity::Verbose(8), LevelFilter::Trace),
    ]
    .iter()
    .cloned()
    .collect()
}

fn get_m_u8() -> HashMap<Verbosity, u8> {
    [
        (Verbosity::Verbose(0), 0),
        (Verbosity::Verbose(1), 1),
        (Verbosity::Verbose(2), 2),
        (Verbosity::Verbose(3), 3),
        (Verbosity::Verbose(4), 4),
        (Verbosity::Verbose(8), 8),
    ]
    .iter()
    .cloned()
    .collect()
}

#[test]
fn test_default() {
    assert_eq!(Verbosity::default(), Verbosity::Normal);
}

#[test]
fn test_values() {
    for (k, v) in &get_m_u8() {
        match k {
            Verbosity::Normal => {}
            Verbosity::Quiet => {}
            Verbosity::Silent => {}
            Verbosity::Verbose(u) => assert_eq!(u, v),
        }
    }
}

#[test]
fn test_as_str() {
    for (k, v) in &get_m_string() {
        assert_eq!(&k.as_str(), v);
    }
}

#[test]
fn test_to_filter_level() {
    for (k, v) in &get_m_filter() {
        assert_eq!(&k.to_filter_level(), v);
    }
}

#[test]
fn verbose_level_names_use_all_digits() {
    assert_eq!(Verbosity::Verbose(10).as_str(), "verbose 10");
    assert_eq!(Verbosity::Verbose(255).as_str(), "verbose 255");
    assert_eq!(Verbosity::Verbose(255).to_filter_level(), LevelFilter::Trace);
}
