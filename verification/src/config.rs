//! Configuration of the installer: the detected machine and the preferred
//! log level.

pub mod interactive;
pub mod machine;

use crate::logger::LogLevel;
use vstd::prelude::*;

verus! {

/// What the installer keeps between runs.
#[derive(Debug, Clone, Copy, PartialEq, Eq, Structural)]
pub struct Config {
    /// The machine that was detected
    pub machine: machine::Machine,
    /// The lowest level of log messages that are shown
    pub log_level: LogLevel,
}

/// The log level used where none was chosen.
pub fn default_log_level() -> (level: LogLevel)
    ensures
        level == LogLevel::Info,
{
    LogLevel::Info
}

impl Config {
    /// The configuration of a freshly detected machine, with the default
    /// log level.
    pub fn for_machine(machine: machine::Machine) -> (config: Self)
        ensures
            config.machine == machine,
            config.log_level == LogLevel::Info,
    {
        Config { machine, log_level: default_log_level() }
    }

    /// The same configuration with another log level.
    pub fn with_log_level(self, level: LogLevel) -> (config: Self)
        ensures
            config.machine == self.machine,
            config.log_level == level,
    {
        Config { machine: self.machine, log_level: level }
    }
}

} // verus!
