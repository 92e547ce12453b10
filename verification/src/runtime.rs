//! The local worker runtime: its log levels and its exit code.
use std::sync::atomic::AtomicI32;
use std::sync::atomic::Ordering;
use std::sync::Arc;
use vstd::prelude::*;

verus! {

/// The log levels of the `log` facade, as the runtime reads them.
#[derive(Debug, Clone, Copy, PartialEq, Eq, Structural)]
pub enum LogLevel {
    Error,
    Warn,
    Info,
    Debug,
    Trace,
}

/// The log level to use when printing diagnostic log messages, warnings,
/// or errors in the worker.
#[derive(Debug, Clone, Copy, PartialEq, Eq, Structural)]
pub enum WorkerLogLevel {
    Error,
    Warn,
    Info,
    Debug,
}

impl WorkerLogLevel {
    /// The number the JavaScript side uses for the level (1 to 4).
    pub fn value(&self) -> (r: u8)
        ensures
            *self == WorkerLogLevel::Error ==> r == 1,
            *self == WorkerLogLevel::Warn ==> r == 2,
            *self == WorkerLogLevel::Info ==> r == 3,
            *self == WorkerLogLevel::Debug ==> r == 4,
    {
        match self {
            WorkerLogLevel::Error => 1,
            WorkerLogLevel::Warn => 2,
            WorkerLogLevel::Info => 3,
            WorkerLogLevel::Debug => 4,
        }
    }

    /// The worker level of a `log` level: the same level, with `Trace`
    /// shown as `Debug`.
    pub fn from_log_level(level: LogLevel) -> (r: WorkerLogLevel)
        ensures
            level == LogLevel::Error ==> r == WorkerLogLevel::Error,
            level == LogLevel::Warn ==> r == WorkerLogLevel::Warn,
            level == LogLevel::Info ==> r == WorkerLogLevel::Info,
            level == LogLevel::Debug ==> r == WorkerLogLevel::Debug,
            level == LogLevel::Trace ==> r == WorkerLogLevel::Debug,
    {
        match level {
            LogLevel::Error => WorkerLogLevel::Error,
            LogLevel::Warn => WorkerLogLevel::Warn,
            LogLevel::Info => WorkerLogLevel::Info,
            LogLevel::Debug => WorkerLogLevel::Debug,
            LogLevel::Trace => WorkerLogLevel::Debug,
        }
    }
}

impl Default for WorkerLogLevel {
    /// `Info` by default.
    fn default() -> (r: WorkerLogLevel)
        ensures
            r == WorkerLogLevel::Info,
    {
        WorkerLogLevel::Info
    }
}

/// `Clone::clone` of `reqwest::Url` (`url::Url`); nothing is claimed of the copy.
pub assume_specification[ <reqwest::Url as Clone>::clone ](u: &reqwest::Url) -> reqwest::Url;

/// Common bootstrap options of the workers.
#[derive(Clone)]
pub struct BootstrapOptions {
    pub cpu_count: usize,
    pub log_level: WorkerLogLevel,
    pub locale: String,
    pub location: Option<reqwest::Url>,
    pub user_agent: String,
}

impl BootstrapOptions {
    /// The default options of a runtime of version `runtime_version`: one
    /// CPU, the default log level, locale `en`, no location and the user
    /// agent `Swarmd/Local-<version>`.
    pub fn for_version(runtime_version: &str) -> (r: BootstrapOptions)
        ensures
            r.cpu_count == 1,
            r.log_level == WorkerLogLevel::Info,
            r.locale@ == "en"@,
            r.location is None,
            r.user_agent@ == "Swarmd/Local-"@ + runtime_version@,
    {
        let mut user_agent = "Swarmd/Local-".to_owned();
        user_agent.append(runtime_version);
        BootstrapOptions {
            user_agent,
            cpu_count: 1,
            log_level: WorkerLogLevel::default(),
            locale: "en".to_owned(),
            location: None,
        }
    }
}

/// The exit code set by the executed code, shared by all clones.
#[derive(Clone)]
pub struct ExitCode(Arc<AtomicI32>);

impl ExitCode {
    /// A fresh exit code, `0`.
    pub fn new() -> ExitCode {
        ExitCode(Arc::new(AtomicI32::new(0)))
    }

    /// The exit code last stored by this handle or any clone of it.
    pub fn get(&self) -> i32 {
        self.0.load(Ordering::Relaxed)
    }

    /// Stores `code`, for this handle and all its clones.
    pub fn set(&mut self, code: i32) {
        self.0.store(code, Ordering::Relaxed);
    }
}

} // verus!
