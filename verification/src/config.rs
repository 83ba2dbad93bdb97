//! Logger configuration: logical name, threshold, environment tag, and the
//! optional file-sink descriptor that selects structured output.

use vstd::prelude::*;
use crate::level::LogLevel;
use crate::level::parse_level;
use crate::level::spec_parse_level;
use crate::text::get_file_name;
use crate::text::spec_basename;

verus! {

/// Errors of configuration changes.
#[derive(Clone, Copy, PartialEq, Eq, Structural, Debug)]
pub enum ConfigError {
    /// A textual level that is none of the five severity names.
    InvalidLevel,
}

/// Destination of a file sink: the path the structured lines are appended to.
#[derive(Clone, Debug)]
pub struct FileSinkDescriptor {
    pub path: String,
}

/// Logger configuration. Constructed once per logger; only the threshold is
/// meant to change afterwards, through `log_level` or the logger's reload.
/// A present `file_sink` selects structured file rendering, under which
/// color hints are ignored (colorized output is console-only).
#[derive(Clone, Debug)]
pub struct LogConfig {
    /// Logical source identifier surfaced in every structured record.
    pub name: Option<String>,
    /// The active threshold.
    pub level: LogLevel,
    /// Environment tag surfaced in structured output.
    pub app_env: Option<String>,
    /// Present exactly when lines go to a file, one structured record each.
    pub file_sink: Option<FileSinkDescriptor>,
}

impl LogConfig {
    /// Build a configuration, filling every omitted field with its default:
    /// level `Info`, everything else unset. Never fails.
    pub fn new(
        name: Option<String>,
        level: Option<LogLevel>,
        app_env: Option<String>,
        file_sink: Option<FileSinkDescriptor>,
    ) -> (c: LogConfig)
        ensures
            c.name == name,
            c.level == (match level {
                Some(l) => l,
                None => LogLevel::Info,
            }),
            c.app_env == app_env,
            c.file_sink == file_sink,
    {
        LogConfig {
            name,
            level: match level {
                Some(l) => l,
                None => LogLevel::Info,
            },
            app_env,
            file_sink,
        }
    }

    /// Set the threshold from a textual level. One of the five canonical
    /// names updates `level` in place and leaves every other field alone; any
    /// other text fails with `ConfigError::InvalidLevel` and changes nothing.
    pub fn log_level(&mut self, level: &str) -> (r: Result<(), ConfigError>)
        ensures
            match spec_parse_level(level@) {
                Some(l) => r == Ok::<(), ConfigError>(()) && *final(self) == (LogConfig {
                    level: l,
                    ..*old(self)
                }),
                None => r == Err::<(), ConfigError>(ConfigError::InvalidLevel) && *final(self)
                    == *old(self),
            },
    {
        match parse_level(level) {
            Some(l) => {
                self.level = l;
                Ok(())
            },
            None => Err(ConfigError::InvalidLevel),
        }
    }

    /// The name the logger will carry, by fixed precedence: a name already
    /// set on the config wins; else an explicit constructor argument; else a
    /// name derived from a path-like string (its part after the last `/`);
    /// else none.
    pub fn resolve_name(
        &self,
        explicit_name: Option<String>,
        derived_from_path: Option<&str>,
    ) -> (r: Option<String>)
        ensures
            match self.name {
                Some(ref n) => r matches Some(m) && m@ == n@,
                None => match explicit_name {
                    Some(ref e) => r matches Some(m) && m@ == e@,
                    None => match derived_from_path {
                        Some(p) => r matches Some(m) && m@ == spec_basename(p@),
                        None => r is None,
                    },
                },
            },
    {
        match &self.name {
            Some(n) => Some(n.clone()),
            None => match explicit_name {
                Some(e) => Some(e),
                None => match derived_from_path {
                    Some(p) => Some(get_file_name(p)),
                    None => None,
                },
            },
        }
    }
}

} // verus!
