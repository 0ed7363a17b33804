//! The settings of the log: how much is written, where to, and for how
//! long the files are kept.
//!
//! Reading the environment, opening files and removing old ones is the
//! caller's business.

use vstd::prelude::*;
use vstd::string::StringExecFns;
use crate::text::{ends_with, has_prefix, has_suffix, joined, same_text, starts_with};

verus! {

/// The days for which log files are kept by default.
pub const DEFAULT_RETENTION_DAYS: u32 = 7;

/// How much is written to the log, from the least to the most.
#[derive(Debug, Clone, Copy, PartialEq, Eq, Structural)]
pub enum LogLevel {
    Error,
    Warn,
    Info,
    Debug,
    Trace,
}

/// Where the log is written to.
#[derive(Debug, Clone, Copy, PartialEq, Eq, Structural)]
pub enum LogTarget {
    /// The console only.
    Console,
    /// The log file only.
    File,
    /// The console and the log file.
    Both,
}

impl LogTarget {
    /// The target that a name in lower case stands for.
    pub open spec fn named(s: Seq<char>) -> Option<LogTarget> {
        if s == "console"@ {
            Some(LogTarget::Console)
        } else if s == "file"@ {
            Some(LogTarget::File)
        } else if s == "both"@ {
            Some(LogTarget::Both)
        } else {
            None
        }
    }

    /// Reads a target from its name in lower case.
    pub fn parse(s: &str) -> (parsed: Option<Self>)
        ensures
            parsed == Self::named(s@),
    {
        if same_text(s, "console") {
            Some(LogTarget::Console)
        } else if same_text(s, "file") {
            Some(LogTarget::File)
        } else if same_text(s, "both") {
            Some(LogTarget::Both)
        } else {
            None
        }
    }

    /// Whether the log goes to the console.
    pub fn to_console(&self) -> (yes: bool)
        ensures
            yes == (*self == LogTarget::Console || *self == LogTarget::Both),
    {
        match self {
            LogTarget::Console | LogTarget::Both => true,
            LogTarget::File => false,
        }
    }

    /// Whether the log goes to a file.
    pub fn to_file(&self) -> (yes: bool)
        ensures
            yes == (*self == LogTarget::File || *self == LogTarget::Both),
    {
        match self {
            LogTarget::File | LogTarget::Both => true,
            LogTarget::Console => false,
        }
    }
}

/// The level that is logged where none is set: `Debug` during development,
/// `Info` in production.
pub open spec fn default_level(is_dev: bool) -> LogLevel {
    if is_dev {
        LogLevel::Debug
    } else {
        LogLevel::Info
    }
}

/// The target that is logged to where none is set: console and file during
/// development, the file alone in production.
pub open spec fn default_target(is_dev: bool) -> LogTarget {
    if is_dev {
        LogTarget::Both
    } else {
        LogTarget::File
    }
}

/// The settings of the log.
#[derive(Debug, Clone)]
pub struct LogConfig {
    pub level: LogLevel,
    pub target: LogTarget,
    pub log_dir: String,
    pub file_prefix: String,
    pub retention_days: u32,
}

impl LogConfig {
    /// The settings for log files that start with `prefix`, from what the
    /// environment sets: each value that is set is taken, and each that is
    /// not gets its default.
    pub fn from_settings(
        prefix: &str,
        level: Option<LogLevel>,
        target: Option<LogTarget>,
        log_dir: Option<String>,
        base_dir: &str,
        retention_days: Option<u32>,
        is_dev: bool,
    ) -> (config: Self)
        ensures
            config.level == match level {
                Some(l) => l,
                None => default_level(is_dev),
            },
            config.target == match target {
                Some(t) => t,
                None => default_target(is_dev),
            },
            config.log_dir@ == match log_dir {
                Some(d) => d@,
                None => base_dir@ + "/logs"@,
            },
            config.file_prefix@ == prefix@,
            config.retention_days == match retention_days {
                Some(d) => d,
                None => DEFAULT_RETENTION_DAYS,
            },
    {
        LogConfig {
            level: match level {
                Some(l) => l,
                None => if is_dev {
                    LogLevel::Debug
                } else {
                    LogLevel::Info
                },
            },
            target: match target {
                Some(t) => t,
                None => if is_dev {
                    LogTarget::Both
                } else {
                    LogTarget::File
                },
            },
            log_dir: match log_dir {
                Some(d) => d,
                None => joined(base_dir, "/logs"),
            },
            file_prefix: prefix.to_owned(),
            retention_days: match retention_days {
                Some(d) => d,
                None => DEFAULT_RETENTION_DAYS,
            },
        }
    }

    /// The log file of the day `date`, which the caller writes as
    /// year, month and day.
    pub fn get_log_file_path(&self, date: &str) -> (path: String)
        ensures
            path@ == self.log_dir@ + "/"@ + self.file_prefix@ + "-"@ + date@ + ".log"@,
    {
        let mut path = joined(self.log_dir.as_str(), "/");
        path.append(self.file_prefix.as_str());
        path.append("-");
        path.append(date);
        path.append(".log");
        path
    }
}

/// The prefix of the log files of a component.
pub open spec fn prefix_of_component(component: Seq<char>) -> Seq<char> {
    if component == "node"@ {
        "open-node"@
    } else if component == "web"@ {
        "open-web"@
    } else {
        "open-app"@
    }
}

/// The prefix of the log files of the component `component`: `node` and
/// `web` have their own, and every other name logs with the application.
pub fn component_prefix(component: &str) -> (prefix: &'static str)
    ensures
        prefix@ == prefix_of_component(component@),
{
    if same_text(component, "node") {
        "open-node"
    } else if same_text(component, "web") {
        "open-web"
    } else {
        "open-app"
    }
}

/// Which log files are kept: those of one prefix in one directory, for a
/// number of days.
#[derive(Debug)]
pub struct FileRotator {
    log_dir: String,
    file_prefix: String,
    retention_days: u32,
}

impl FileRotator {
    /// The directory, the prefix and the days that the rotator holds.
    pub closed spec fn settings(&self) -> (String, String, u32) {
        (self.log_dir, self.file_prefix, self.retention_days)
    }

    /// A rotator for the log files in `log_dir` that start with
    /// `file_prefix`, kept for `retention_days` days.
    pub fn new(log_dir: String, file_prefix: String, retention_days: u32) -> (rotator: Self)
        ensures
            rotator.settings() == (log_dir, file_prefix, retention_days),
    {
        FileRotator { log_dir, file_prefix, retention_days }
    }

    /// The directory of the log files.
    pub fn log_dir(&self) -> (dir: &str)
        ensures
            dir@ == self.settings().0@,
    {
        self.log_dir.as_str()
    }

    /// What the names of the log files start with.
    pub fn file_prefix(&self) -> (prefix: &str)
        ensures
            prefix@ == self.settings().1@,
    {
        self.file_prefix.as_str()
    }

    /// The days for which log files are kept.
    pub fn retention_days(&self) -> (days: u32)
        ensures
            days == self.settings().2,
    {
        self.retention_days
    }

    /// Whether the file name `name` is that of one of the rotator's log
    /// files: it starts with the prefix and ends with `.log`.
    pub fn covers(&self, name: &str) -> (yes: bool)
        ensures
            yes == (has_prefix(name@, self.settings().1@) && has_suffix(name@, ".log"@)),
    {
        starts_with(name, self.file_prefix.as_str()) && ends_with(name, ".log")
    }

    /// Whether the rotator removes the file `name`, last written at
    /// `modified_ms`, at time `now_ms`: it is one of its log files and
    /// outdated.
    pub fn removes(&self, name: &str, modified_ms: i64, now_ms: i64) -> (yes: bool)
        ensures
            yes == (has_prefix(name@, self.settings().1@) && has_suffix(name@, ".log"@)
                && modified_ms < now_ms - self.settings().2 * 86400000),
    {
        self.covers(name) && self.is_outdated(modified_ms, now_ms)
    }

    /// Whether a file last written at `modified_ms` is older, at `now_ms`,
    /// than the days for which files are kept. Both times are milliseconds
    /// since the Unix epoch.
    pub fn is_outdated(&self, modified_ms: i64, now_ms: i64) -> (yes: bool)
        ensures
            yes == (modified_ms < now_ms - self.settings().2 * 86400000),
    {
        (modified_ms as i128) < (now_ms as i128) - (self.retention_days as i128) * 86400000
    }
}

} // verus!
