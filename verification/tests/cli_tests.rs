use config_watcher::cli::{Cli, CliError};
use config_watcher::watcher::MAX_INTERVAL_SECS;
use std::path::PathBuf;

fn with_interval(interval: u64) -> Cli {
    Cli { config_file: PathBuf::from("config.json"), interval, verbose: false }
}

#[test]
fn intervals_from_one_second_to_an_hour_are_accepted() {
    assert_eq!(with_interval(1).validate(), Ok(()));
    assert_eq!(with_interval(2).validate(), Ok(()));
    assert_eq!(with_interval(3599).validate(), Ok(()));
    assert_eq!(with_interval(3600).validate(), Ok(()));
    assert_eq!(MAX_INTERVAL_SECS, 3600);
}

#[test]
fn zero_interval_is_refused() {
    assert_eq!(with_interval(0).validate(), Err(CliError::IntervalZero));
}

#[test]
fn interval_over_an_hour_is_refused() {
    assert_eq!(with_interval(3601).validate(), Err(CliError::IntervalTooLong));
    assert_eq!(with_interval(u64::MAX).validate(), Err(CliError::IntervalTooLong));
}

#[test]
fn refusals_in_words() {
    assert_eq!(CliError::IntervalZero.message(), "Interval must be greater than 0 seconds");
    assert_eq!(
        CliError::IntervalTooLong.message(),
        "Interval cannot exceed 3600 seconds (1 hour)"
    );
}

#[test]
fn validation_does_not_depend_on_the_other_arguments() {
    let cli = Cli { config_file: PathBuf::new(), interval: 5, verbose: true };
    assert_eq!(cli.validate(), Ok(()));
}
