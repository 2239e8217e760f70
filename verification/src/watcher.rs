//! The watcher: what it remembers of the file, and what it decides on each
//! thing that it is told.
//!
//! The watcher does no input or output itself. It says what it waits for
//! ([`ConfigWatcher::next_action`]), the caller does that and tells the
//! watcher what came of it ([`ConfigWatcher::watch`]), and so on in turn.

use crate::config::{AppConfig, ConfigSummary};
use crate::error::ConfigError;
use crate::timestamp::{changed_since, Timestamp};
use std::path::PathBuf;
use vstd::prelude::*;

verus! {

/// The longest check interval that a watcher can be made with, in seconds:
/// one hour.
pub const MAX_INTERVAL_SECS: u64 = 3600;

/// Whether a watcher can be made with a check interval of `seconds`: above
/// zero and no longer than an hour.
pub open spec fn interval_in_range(seconds: u64) -> bool {
    0 < seconds <= MAX_INTERVAL_SECS
}

/// What came of reading the configuration file.
#[derive(Debug)]
pub enum FileRead {
    /// There is no such file.
    Missing,
    /// The file is there, but its content could not be read.
    Unreadable(std::io::Error),
    /// The content was read, but is not JSON of the expected shape.
    Malformed(serde_json::Error),
    /// The content was read and has the expected shape.
    Parsed(AppConfig),
}

impl FileRead {
    /// The configuration that this read loads: the parsed one, where it
    /// keeps the business rules.
    pub open spec fn loaded(self) -> Option<AppConfig> {
        match self {
            FileRead::Parsed(config) => if config@.is_valid() {
                Some(config)
            } else {
                None
            },
            _ => None,
        }
    }

    /// Whether `error` is what this read of the file at `path` fails with:
    /// each stage that can fail has an error of its own.
    pub open spec fn fails_with(self, path: PathBuf, error: ConfigError) -> bool {
        match self {
            FileRead::Missing => error == (ConfigError::FileNotFound { path }),
            FileRead::Unreadable(source) => error == (ConfigError::ReadError { path, source }),
            FileRead::Malformed(source) => error == (ConfigError::InvalidJson { source }),
            FileRead::Parsed(config) => config@.rejection() matches Some(reason)
                && error.is_validation_failure(reason),
        }
    }
}

/// What the watcher is told.
#[derive(Debug)]
pub enum WatchEvent {
    /// The check interval has passed.
    Tick,
    /// The file's modification time was queried, with this result.
    Modified(Result<Timestamp, std::io::Error>),
    /// The file was read, with this result.
    Read(FileRead),
}

/// What the watcher waits for.
#[derive(Debug, Clone, Copy, PartialEq, Eq, Structural)]
pub enum Action {
    /// Read the file; answer with [`WatchEvent::Read`].
    ReadConfig,
    /// Query the file's modification time; answer with
    /// [`WatchEvent::Modified`].
    QueryModified,
    /// Wait for the check interval to pass; answer with
    /// [`WatchEvent::Tick`].
    AwaitTick,
}

/// How far the watcher has come.
#[derive(Debug)]
pub enum Stage {
    /// The first read of the file is awaited.
    InitialRead,
    /// The first read gave `config`; the file's modification time is
    /// awaited.
    InitialStamp { config: AppConfig },
    /// The next tick is awaited.
    Idle,
    /// A tick has come; the file's modification time is awaited.
    Checking,
    /// The file was found changed at `stamp`; its content is awaited.
    Reloading { stamp: Timestamp },
}

/// What the watcher reports.
#[derive(Debug)]
pub enum Observation {
    /// The first load gave a valid configuration.
    Loaded(ConfigSummary),
    /// The first load failed. The watcher goes on without a configuration.
    InitialLoadFailed(ConfigError),
    /// The file's modification time could not be queried on a tick.
    CheckFailed(ConfigError),
    /// A tick found the file changed. The watcher goes on to read it.
    ChangeDetected,
    /// The file was modified, but holds the same configuration as before.
    ContentUnchanged,
    /// The file holds a new valid configuration.
    Updated(ConfigSummary),
    /// The file was modified, but no valid configuration could be loaded
    /// from it. The last valid configuration stays.
    ReloadFailed(ConfigError),
}

impl Observation {
    /// Whether this reports a new configuration.
    pub open spec fn is_update(self) -> bool {
        self is Updated
    }
}

/// What a load that succeeded has given: a configuration, and the file's
/// modification time that goes with it.
#[derive(Debug)]
pub struct Snapshot {
    pub config: AppConfig,
    pub modified: Timestamp,
}

/// All that a watcher holds.
#[derive(Debug)]
pub struct WatchState {
    /// The file that is watched.
    pub file_path: PathBuf,
    /// How often the file is checked, in seconds.
    pub check_interval_secs: u64,
    /// What the last load that succeeded has given. It is replaced as a
    /// whole, and only by a load that succeeds.
    pub last_valid: Option<Snapshot>,
    /// How far the watcher has come.
    pub stage: Stage,
}

impl WatchState {
    /// The file's modification time at the last load that succeeded.
    pub open spec fn last_modified(self) -> Option<Timestamp> {
        match self.last_valid {
            Some(snapshot) => Some(snapshot.modified),
            None => None,
        }
    }

    /// The configuration of the last load that succeeded: the current one.
    pub open spec fn last_valid_config(self) -> Option<AppConfig> {
        match self.last_valid {
            Some(snapshot) => Some(snapshot.config),
            None => None,
        }
    }

    /// What holds of every watcher's state: the interval is in range; a
    /// configuration that is held is valid; nothing is held before the
    /// first load is over; and a reload is under way only for a
    /// modification time that counts as a change.
    pub open spec fn wf(self) -> bool {
        &&& interval_in_range(self.check_interval_secs)
        &&& self.last_valid matches Some(snapshot) ==> snapshot.config@.is_valid()
        &&& match self.stage {
            Stage::InitialRead => self.last_valid is None,
            Stage::InitialStamp { config } => config@.is_valid() && self.last_valid is None,
            Stage::Reloading { stamp } => changed_since(self.last_modified(), stamp),
            _ => true,
        }
    }

    /// The state of a watcher that has just been made.
    pub open spec fn initial(file_path: PathBuf, check_interval_secs: u64) -> WatchState {
        WatchState { file_path, check_interval_secs, last_valid: None, stage: Stage::InitialRead }
    }

    /// What the watcher waits for in this state.
    pub open spec fn awaits(self) -> Action {
        match self.stage {
            Stage::InitialRead => Action::ReadConfig,
            Stage::InitialStamp { .. } => Action::QueryModified,
            Stage::Idle => Action::AwaitTick,
            Stage::Checking => Action::QueryModified,
            Stage::Reloading { .. } => Action::ReadConfig,
        }
    }

    /// Whether `event` answers what the watcher waits for.
    pub open spec fn expects(self, event: WatchEvent) -> bool {
        match event {
            WatchEvent::Tick => self.awaits() == Action::AwaitTick,
            WatchEvent::Modified(_) => self.awaits() == Action::QueryModified,
            WatchEvent::Read(_) => self.awaits() == Action::ReadConfig,
        }
    }

    /// The error for a modification time that could not be queried.
    pub open spec fn metadata_error(self, source: std::io::Error) -> ConfigError {
        ConfigError::MetadataError { path: self.file_path, source }
    }

    /// This state with another stage.
    pub open spec fn at(self, stage: Stage) -> WatchState {
        WatchState { stage, ..self }
    }

    /// This state once `config`, found at `stamp`, has been taken over.
    pub open spec fn holding(self, config: AppConfig, stamp: Timestamp) -> WatchState {
        WatchState {
            last_valid: Some(Snapshot { config, modified: stamp }),
            stage: Stage::Idle,
            ..self
        }
    }

    /// The state that follows this one on `event`.
    ///
    /// The first load reads the file and then queries its modification
    /// time; only when both succeed are the configuration and the time
    /// taken over. A tick queries the modification time; the file is read
    /// only if that time counts as a change, and configuration and time are
    /// taken over only if the read gives a valid configuration. Every
    /// failure leads back to waiting for the next tick with nothing else
    /// changed. An event that does not answer what the watcher waits for
    /// changes nothing.
    pub open spec fn after(self, event: WatchEvent) -> WatchState {
        match (self.stage, event) {
            (Stage::InitialRead, WatchEvent::Read(read)) => match read.loaded() {
                Some(config) => self.at(Stage::InitialStamp { config }),
                None => self.at(Stage::Idle),
            },
            (Stage::InitialStamp { config }, WatchEvent::Modified(queried)) => match queried {
                Ok(stamp) => self.holding(config, stamp),
                Err(_) => self.at(Stage::Idle),
            },
            (Stage::Idle, WatchEvent::Tick) => self.at(Stage::Checking),
            (Stage::Checking, WatchEvent::Modified(queried)) => match queried {
                Ok(stamp) => if changed_since(self.last_modified(), stamp) {
                    self.at(Stage::Reloading { stamp })
                } else {
                    self.at(Stage::Idle)
                },
                Err(_) => self.at(Stage::Idle),
            },
            (Stage::Reloading { stamp }, WatchEvent::Read(read)) => match read.loaded() {
                Some(config) => self.holding(config, stamp),
                None => self.at(Stage::Idle),
            },
            _ => self,
        }
    }

    /// Whether `observation` is what the watcher reports on `event` in this
    /// state.
    ///
    /// A first load that succeeds is reported with the configuration's
    /// summary once its modification time is known; one that fails, at
    /// either step, with the error. A tick whose query fails is reported
    /// with the error, one that finds the file changed as a change, and
    /// one that finds it unchanged not at all. A reload that succeeds is
    /// reported as unchanged content if the new configuration has the
    /// content of the one held, and as an update with the new summary
    /// otherwise; one that fails with the error.
    pub open spec fn emits(self, event: WatchEvent, observation: Option<Observation>) -> bool {
        match (self.stage, event) {
            (Stage::InitialRead, WatchEvent::Read(read)) => match read.loaded() {
                Some(_) => observation is None,
                None => observation matches Some(Observation::InitialLoadFailed(error))
                    && read.fails_with(self.file_path, error),
            },
            (Stage::InitialStamp { config }, WatchEvent::Modified(queried)) => match queried {
                Ok(_) => observation matches Some(Observation::Loaded(summary)) && summary@
                    == config@.summary(),
                Err(source) => observation == Some(
                    Observation::InitialLoadFailed(self.metadata_error(source)),
                ),
            },
            (Stage::Checking, WatchEvent::Modified(queried)) => match queried {
                Ok(stamp) => if changed_since(self.last_modified(), stamp) {
                    observation == Some(Observation::ChangeDetected)
                } else {
                    observation is None
                },
                Err(source) => observation == Some(
                    Observation::CheckFailed(self.metadata_error(source)),
                ),
            },
            (Stage::Reloading { stamp }, WatchEvent::Read(read)) => match read.loaded() {
                Some(config) => if self.holds_content_of(config) {
                    observation == Some(Observation::ContentUnchanged)
                } else {
                    observation matches Some(Observation::Updated(summary)) && summary@
                        == config@.summary()
                },
                None => observation matches Some(Observation::ReloadFailed(error))
                    && read.fails_with(self.file_path, error),
            },
            _ => observation is None,
        }
    }

    /// Whether the configuration held has the same content as `config`.
    pub open spec fn holds_content_of(self, config: AppConfig) -> bool {
        self.last_valid_config() matches Some(held) && held@ == config@
    }

    /// The state after a run of events, taken in order.
    pub open spec fn after_all(self, events: Seq<WatchEvent>) -> WatchState
        decreases events.len(),
    {
        if events.len() == 0 {
            self
        } else {
            self.after_all(events.drop_last()).after(events.last())
        }
    }
}

/// Watches one configuration file: remembers the last valid configuration
/// that the file held and when the file was last modified, and decides what
/// to do next.
#[derive(Debug)]
pub struct ConfigWatcher {
    state: WatchState,
}

impl View for ConfigWatcher {
    type V = WatchState;

    closed spec fn view(&self) -> WatchState {
        self.state
    }
}

impl ConfigWatcher {
    #[verifier::type_invariant]
    spec fn state_is_well_formed(self) -> bool {
        self.state.wf()
    }

    /// Makes a watcher for the file at `file_path`, to be checked every
    /// `check_interval_secs` seconds. It holds nothing yet and waits for
    /// the first read of the file.
    pub fn new(file_path: PathBuf, check_interval_secs: u64) -> (watcher: ConfigWatcher)
        requires
            interval_in_range(check_interval_secs),
        ensures
            watcher@ == WatchState::initial(file_path, check_interval_secs),
            watcher@.wf(),
    {
        ConfigWatcher {
            state: WatchState {
                file_path,
                check_interval_secs,
                last_valid: None,
                stage: Stage::InitialRead,
            },
        }
    }

    /// Turns what came of reading the file into a configuration or the
    /// error of the stage that failed: no file, no content, no JSON of the
    /// expected shape, or a business rule broken.
    pub fn read_config(&self, read: FileRead) -> (loaded: Result<AppConfig, ConfigError>)
        ensures
            match read.loaded() {
                Some(config) => loaded == Ok::<AppConfig, ConfigError>(config),
                None => loaded matches Err(error) && read.fails_with(self@.file_path, error),
            },
    {
        match read {
            FileRead::Missing => Err(
                ConfigError::FileNotFound { path: self.state.file_path.clone() },
            ),
            FileRead::Unreadable(source) => Err(
                ConfigError::ReadError { path: self.state.file_path.clone(), source },
            ),
            FileRead::Malformed(source) => Err(ConfigError::from(source)),
            FileRead::Parsed(config) => match config.validate() {
                Ok(()) => Ok(config),
                Err(error) => Err(error),
            },
        }
    }

    /// Turns what came of querying the file's modification time into the
    /// time or a metadata error for the watched file.
    pub fn get_modified_time(&self, queried: Result<Timestamp, std::io::Error>) -> (modified:
        Result<Timestamp, ConfigError>)
        ensures
            modified == match queried {
                Ok(stamp) => Ok::<Timestamp, ConfigError>(stamp),
                Err(source) => Err(self@.metadata_error(source)),
            },
    {
        match queried {
            Ok(stamp) => Ok(stamp),
            Err(source) => Err(
                ConfigError::MetadataError { path: self.state.file_path.clone(), source },
            ),
        }
    }

    /// Whether a file last modified at `current` has changed since the last
    /// load that succeeded: always if there was none, and otherwise only
    /// if `current` is strictly later than the time then recorded.
    pub fn has_changed(&self, current: Timestamp) -> (changed: bool)
        ensures
            changed == changed_since(self@.last_modified(), current),
    {
        match &self.state.last_valid {
            Some(snapshot) => current.nanos > snapshot.modified.nanos,
            None => true,
        }
    }

    /// Takes one step of the watch: tells the watcher what came of the
    /// action it waited for, and returns what there is to report.
    pub fn watch(&mut self, event: WatchEvent) -> (observation: Option<Observation>)
        ensures
            old(self)@.wf(),
            final(self)@.wf(),
            final(self)@ == old(self)@.after(event),
            old(self)@.emits(event, observation),
    {
        proof {
            use_type_invariant(&*self);
        }
        let mut stage = Stage::Idle;
        std::mem::swap(&mut self.state.stage, &mut stage);
        match (stage, event) {
            (Stage::InitialRead, WatchEvent::Read(read)) => match self.read_config(read) {
                Ok(config) => {
                    self.state.stage = Stage::InitialStamp { config };
                    None
                },
                Err(error) => Some(Observation::InitialLoadFailed(error)),
            },
            (Stage::InitialStamp { config }, WatchEvent::Modified(queried)) => {
                match self.get_modified_time(queried) {
                    Ok(stamp) => {
                        let summary = config.summary();
                        self.state.last_valid = Some(Snapshot { config, modified: stamp });
                        Some(Observation::Loaded(summary))
                    },
                    Err(error) => Some(Observation::InitialLoadFailed(error)),
                }
            },
            (Stage::Idle, WatchEvent::Tick) => {
                self.state.stage = Stage::Checking;
                None
            },
            (Stage::Checking, WatchEvent::Modified(queried)) => {
                match self.get_modified_time(queried) {
                    Ok(stamp) => {
                        if self.has_changed(stamp) {
                            self.state.stage = Stage::Reloading { stamp };
                            Some(Observation::ChangeDetected)
                        } else {
                            None
                        }
                    },
                    Err(error) => Some(Observation::CheckFailed(error)),
                }
            },
            (Stage::Reloading { stamp }, WatchEvent::Read(read)) => match self.read_config(read) {
                Ok(config) => {
                    let same_content = match &self.state.last_valid {
                        Some(snapshot) => snapshot.config == config,
                        None => false,
                    };
                    let observation = if same_content {
                        Observation::ContentUnchanged
                    } else {
                        Observation::Updated(config.summary())
                    };
                    self.state.last_valid = Some(Snapshot { config, modified: stamp });
                    Some(observation)
                },
                Err(error) => Some(Observation::ReloadFailed(error)),
            },
            (stage, _) => {
                self.state.stage = stage;
                None
            },
        }
    }

    /// What the watcher waits for: the caller does it and hands the result
    /// to [`ConfigWatcher::watch`].
    pub fn next_action(&self) -> (action: Action)
        ensures
            action == self@.awaits(),
    {
        match &self.state.stage {
            Stage::InitialRead => Action::ReadConfig,
            Stage::InitialStamp { .. } => Action::QueryModified,
            Stage::Idle => Action::AwaitTick,
            Stage::Checking => Action::QueryModified,
            Stage::Reloading { .. } => Action::ReadConfig,
        }
    }

    /// The file that is watched.
    pub fn file_path(&self) -> (path: &PathBuf)
        ensures
            *path == self@.file_path,
    {
        &self.state.file_path
    }

    /// How often the file is checked, in seconds.
    pub fn check_interval_secs(&self) -> (seconds: u64)
        ensures
            seconds == self@.check_interval_secs,
            interval_in_range(seconds),
    {
        proof {
            use_type_invariant(self);
        }
        self.state.check_interval_secs
    }

    /// The file's modification time at the last load that succeeded.
    pub fn last_modified(&self) -> (stamp: Option<Timestamp>)
        ensures
            stamp == self@.last_modified(),
    {
        match &self.state.last_valid {
            Some(snapshot) => Some(snapshot.modified),
            None => None,
        }
    }

    /// The current configuration: that of the last load that succeeded. It
    /// is valid.
    pub fn current_config(&self) -> (config: Option<&AppConfig>)
        ensures
            config == match self@.last_valid_config() {
                Some(held) => Some(&held),
                None => None,
            },
            config matches Some(held) ==> held@.is_valid(),
    {
        proof {
            use_type_invariant(self);
        }
        match &self.state.last_valid {
            Some(snapshot) => Some(&snapshot.config),
            None => None,
        }
    }
}

} // verus!
