//! Where the proxy's log goes.

use vstd::prelude::*;
use crate::proxy::config::Config;
use crate::proxy::config::LogTarget;
use crate::text::concat2;

verus! {

/// The size in bytes at which the log file is rolled over.
pub const LOG_ROLL_BYTES: u64 = 10 * 1024;

/// The number of rolled log files that are kept.
pub const LOG_ROLL_COUNT: u32 = 5;

/// The layout of a line of the log file.
pub const LOG_PATTERN: &'static str = "{d} - {m}{n}";

/// The log file and how it is rolled over.
#[derive(Debug, Clone, PartialEq, Eq)]
pub struct FileLog {
    /// The file that is written to.
    pub path: String,
    /// The names of the rolled files. The braces stand for the number.
    pub roll_pattern: String,
}

/// How the log is set up.
#[derive(Debug, Clone, PartialEq, Eq)]
pub enum LogSetup {
    /// Everything goes to the system log.
    Syslog,
    /// The log goes to the console, to a file, or to both.
    Appenders { console: bool, file: Option<FileLog> },
}

/// How the log is set up for `config`.
pub fn init(config: &Config) -> (r: LogSetup)
    ensures
        match config.log_target {
            LogTarget::Syslog => r is Syslog,
            LogTarget::Console => r matches LogSetup::Appenders { console, file } && console
                && file is None,
            LogTarget::File => r matches LogSetup::Appenders { console, file: Some(f) }
                && !console && f.path@ == config.data_dir@ + "/proxy.log"@ && f.roll_pattern@
                == config.data_dir@ + "/proxy.{}.log"@,
            LogTarget::ConsoleFile => r matches LogSetup::Appenders { console, file: Some(f) }
                && console && f.path@ == config.data_dir@ + "/proxy.log"@ && f.roll_pattern@
                == config.data_dir@ + "/proxy.{}.log"@,
        },
{
    match config.log_target {
        LogTarget::Syslog => LogSetup::Syslog,
        LogTarget::Console => LogSetup::Appenders { console: true, file: None },
        LogTarget::File => LogSetup::Appenders {
            console: false,
            file: Some(
                FileLog {
                    path: concat2(config.data_dir.as_str(), "/proxy.log"),
                    roll_pattern: concat2(config.data_dir.as_str(), "/proxy.{}.log"),
                },
            ),
        },
        LogTarget::ConsoleFile => LogSetup::Appenders {
            console: true,
            file: Some(
                FileLog {
                    path: concat2(config.data_dir.as_str(), "/proxy.log"),
                    roll_pattern: concat2(config.data_dir.as_str(), "/proxy.{}.log"),
                },
            ),
        },
    }
}

} // verus!
