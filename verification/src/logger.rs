//! The logger engine: owns one configuration and its resolved sink kind,
//! keeps the live threshold, and runs the filter-then-format pipeline. The
//! result of a logging call is the finished line for its sink (`None` when
//! the record was filtered out); the thin adapter around the library
//! performs the actual console or file write.

use vstd::prelude::*;
use crate::config::ConfigError;
use crate::config::LogConfig;
use crate::json::opt_view;
use crate::json::push_json_opt_string;
use crate::json::push_json_string;
use crate::json::record_json;
use crate::json::spec_config_json;
use crate::json::spec_json_opt_string;
use crate::json::spec_json_string;
use crate::json::spec_record_json;
use crate::level::LogLevel;
use crate::level::parse_level;
use crate::level::spec_level_name;
use crate::level::spec_parse_level;
use crate::level::spec_passes;
use crate::level::passes;
use crate::level::level_name;
use crate::render::FormatError;
use crate::render::RenderHints;
use crate::render::SinkKind;
use crate::render::hint_view;
use crate::render::opt_arg_views;
use crate::render::render;
use crate::render::spec_render;
use crate::text::spec_basename;

verus! {

/// The sink kind a configuration selects: a file sink exactly when a
/// file-sink descriptor is present, the console otherwise.
pub open spec fn spec_sink_kind(c: LogConfig) -> SinkKind {
    match c.file_sink {
        Some(_) => SinkKind::File,
        None => SinkKind::Console,
    }
}

/// A logger: one configuration, fixed for the logger's lifetime but for the
/// threshold, and the live threshold the records are filtered against.
pub struct LoggerCore {
    /// The configuration the logger was built from; its `level` field tracks
    /// the live threshold.
    pub config: LogConfig,
    /// The live threshold.
    pub level: LogLevel,
}

impl LoggerCore {
    /// The finished line a call at severity `level` produces: `None` below
    /// the threshold; otherwise the rendered message for a console sink, or
    /// one structured JSON record wrapping it for a file sink. Rendering
    /// failures pass through.
    pub open spec fn spec_log(
        self,
        level: LogLevel,
        t: Seq<char>,
        args: Seq<Seq<char>>,
        hint: Option<Option<Seq<char>>>,
    ) -> Result<Option<Seq<char>>, FormatError> {
        if !spec_passes(level, self.level) {
            Ok(None)
        } else {
            match spec_render(t, args, hint, spec_sink_kind(self.config)) {
                Ok(body) => Ok(
                    Some(
                        match spec_sink_kind(self.config) {
                            SinkKind::File => spec_record_json(self.config, level, body),
                            SinkKind::Console => body,
                        },
                    ),
                ),
                Err(e) => Err(e),
            }
        }
    }

    /// Build a logger that owns `config`, with the live threshold taken from
    /// the configuration.
    pub fn new(config: LogConfig) -> (l: LoggerCore)
        ensures
            l.config == config,
            l.level == config.level,
    {
        let level = config.level;
        LoggerCore { config, level }
    }

    /// Build a logger from an optional configuration (defaults fill in for a
    /// missing one) and an optional constructor name. A name already present
    /// in the configuration wins; otherwise the name is derived from the
    /// constructor argument, taken as a path-like string whose part after
    /// the last `/` is the logical name.
    pub fn get_logger(name: Option<String>, config: Option<LogConfig>) -> (l: LoggerCore)
        ensures
            ({
                let c = match config {
                    Some(c0) => c0,
                    None => LogConfig {
                        name: None,
                        level: LogLevel::Info,
                        app_env: None,
                        file_sink: None,
                    },
                };
                &&& l.level == c.level
                &&& l.config.level == c.level
                &&& l.config.app_env == c.app_env
                &&& l.config.file_sink == c.file_sink
                &&& opt_view(l.config.name) == (match opt_view(c.name) {
                    Some(n) => Some(n),
                    None => match name {
                        Some(p) => Some(spec_basename(p@)),
                        None => None::<Seq<char>>,
                    },
                })
            }),
    {
        let cfg = match config {
            Some(c0) => c0,
            None => LogConfig::new(None, None, None, None),
        };
        let resolved = cfg.resolve_name(
            None,
            match &name {
                Some(p) => Some(p.as_str()),
                None => None,
            },
        );
        let level = cfg.level;
        LoggerCore {
            config: LogConfig { name: resolved, ..cfg },
            level,
        }
    }

    /// The sink kind this logger renders for.
    pub fn sink_kind(&self) -> (k: SinkKind)
        ensures
            k == spec_sink_kind(self.config),
    {
        match &self.config.file_sink {
            Some(_) => SinkKind::File,
            None => SinkKind::Console,
        }
    }

    /// Atomically replace the live threshold; everything else is untouched.
    pub fn reload_level(&mut self, level: LogLevel)
        ensures
            final(self).level == level,
            final(self).config == (LogConfig { level, ..old(self).config }),
    {
        self.level = level;
        self.config.level = level;
    }

    /// Set the threshold from a textual level. One of the five canonical
    /// names becomes the live threshold; any other text fails with
    /// `ConfigError::InvalidLevel` and leaves the logger unchanged.
    pub fn set_level(&mut self, level: String) -> (r: Result<(), ConfigError>)
        ensures
            match spec_parse_level(level@) {
                Some(l) => r == Ok::<(), ConfigError>(()) && final(self).level == l
                    && final(self).config == (LogConfig { level: l, ..old(self).config }),
                None => r == Err::<(), ConfigError>(ConfigError::InvalidLevel) && *final(self)
                    == *old(self),
            },
    {
        match parse_level(level.as_str()) {
            Some(l) => {
                self.reload_level(l);
                Ok(())
            },
            None => Err(ConfigError::InvalidLevel),
        }
    }

    /// Run the pipeline for one record at severity `level`: filter against
    /// the live threshold (a record below it produces no line and no other
    /// effect), render, and wrap in a structured record for a file sink.
    pub fn log_at(
        &self,
        level: LogLevel,
        message: &str,
        args: Option<&Vec<String>>,
        hints: Option<&RenderHints>,
    ) -> (r: Result<Option<String>, FormatError>)
        ensures
            !spec_passes(level, self.level) ==> r == Ok::<Option<String>, FormatError>(None),
            match r {
                Ok(None) => self.spec_log(level, message@, opt_arg_views(args), hint_view(hints))
                    == Ok::<Option<Seq<char>>, FormatError>(None),
                Ok(Some(line)) => self.spec_log(
                    level,
                    message@,
                    opt_arg_views(args),
                    hint_view(hints),
                ) == Ok::<Option<Seq<char>>, FormatError>(Some(line@)),
                Err(e) => self.spec_log(level, message@, opt_arg_views(args), hint_view(hints))
                    == Err::<Option<Seq<char>>, FormatError>(e),
            },
    {
        if !passes(level, self.level) {
            return Ok(None);
        }
        match render(message, args, hints, self.sink_kind()) {
            Ok(body) => match &self.config.file_sink {
                Some(_) => Ok(Some(record_json(&self.config, level, body.as_str()))),
                None => Ok(Some(body)),
            },
            Err(e) => Err(e),
        }
    }

    /// Log at TRACE severity.
    pub fn trace(
        &self,
        message: &str,
        args: Option<&Vec<String>>,
        hints: Option<&RenderHints>,
    ) -> (r: Result<Option<String>, FormatError>)
        ensures
            !spec_passes(LogLevel::Trace, self.level) ==> r == Ok::<
                Option<String>,
                FormatError,
            >(None),
            log_result_matches(
                r,
                self.spec_log(LogLevel::Trace, message@, opt_arg_views(args), hint_view(hints)),
            ),
    {
        self.log_at(LogLevel::Trace, message, args, hints)
    }

    /// Log at DEBUG severity.
    pub fn debug(
        &self,
        message: &str,
        args: Option<&Vec<String>>,
        hints: Option<&RenderHints>,
    ) -> (r: Result<Option<String>, FormatError>)
        ensures
            !spec_passes(LogLevel::Debug, self.level) ==> r == Ok::<
                Option<String>,
                FormatError,
            >(None),
            log_result_matches(
                r,
                self.spec_log(LogLevel::Debug, message@, opt_arg_views(args), hint_view(hints)),
            ),
    {
        self.log_at(LogLevel::Debug, message, args, hints)
    }

    /// Log at INFO severity.
    pub fn info(
        &self,
        message: &str,
        args: Option<&Vec<String>>,
        hints: Option<&RenderHints>,
    ) -> (r: Result<Option<String>, FormatError>)
        ensures
            !spec_passes(LogLevel::Info, self.level) ==> r == Ok::<
                Option<String>,
                FormatError,
            >(None),
            log_result_matches(
                r,
                self.spec_log(LogLevel::Info, message@, opt_arg_views(args), hint_view(hints)),
            ),
    {
        self.log_at(LogLevel::Info, message, args, hints)
    }

    /// Log at WARN severity.
    pub fn warning(
        &self,
        message: &str,
        args: Option<&Vec<String>>,
        hints: Option<&RenderHints>,
    ) -> (r: Result<Option<String>, FormatError>)
        ensures
            !spec_passes(LogLevel::Warn, self.level) ==> r == Ok::<
                Option<String>,
                FormatError,
            >(None),
            log_result_matches(
                r,
                self.spec_log(LogLevel::Warn, message@, opt_arg_views(args), hint_view(hints)),
            ),
    {
        self.log_at(LogLevel::Warn, message, args, hints)
    }

    /// Log at ERROR severity.
    pub fn error(
        &self,
        message: &str,
        args: Option<&Vec<String>>,
        hints: Option<&RenderHints>,
    ) -> (r: Result<Option<String>, FormatError>)
        ensures
            !spec_passes(LogLevel::Error, self.level) ==> r == Ok::<
                Option<String>,
                FormatError,
            >(None),
            log_result_matches(
                r,
                self.spec_log(LogLevel::Error, message@, opt_arg_views(args), hint_view(hints)),
            ),
    {
        self.log_at(LogLevel::Error, message, args, hints)
    }

    /// The diagnostic snapshot this logger reports: one JSON object holding
    /// the logical name, the live threshold, the environment tag, and the
    /// configuration snapshot.
    pub open spec fn spec_diagnostic(self) -> Seq<char> {
        "{\"type\":\"Logger\",\"name\":"@ + spec_json_opt_string(opt_view(self.config.name))
            + ",\"level\":"@ + spec_json_string(spec_level_name(self.level)) + ",\"app_env\":"@
            + spec_json_opt_string(opt_view(self.config.app_env)) + ",\"config\":"@
            + spec_config_json(self.config) + "}"@
    }

    /// A structured snapshot of the logger for introspection; always
    /// succeeds, whatever is or is not set in the configuration.
    pub fn to_diagnostic_string(&self) -> (r: String)
        ensures
            r@ == self.spec_diagnostic(),
    {
        let mut out = String::new();
        out.append("{\"type\":\"Logger\",\"name\":");
        push_json_opt_string(&mut out, &self.config.name);
        out.append(",\"level\":");
        push_json_string(&mut out, level_name(self.level));
        out.append(",\"app_env\":");
        push_json_opt_string(&mut out, &self.config.app_env);
        out.append(",\"config\":");
        let cfg = crate::json::config_json(&self.config);
        out.append(cfg.as_str());
        out.append("}");
        out
    }
}

/// An exec logging result agrees with its specification outcome.
pub open spec fn log_result_matches(
    r: Result<Option<String>, FormatError>,
    s: Result<Option<Seq<char>>, FormatError>,
) -> bool {
    match r {
        Ok(None) => s == Ok::<Option<Seq<char>>, FormatError>(None),
        Ok(Some(line)) => s == Ok::<Option<Seq<char>>, FormatError>(Some(line@)),
        Err(e) => s == Err::<Option<Seq<char>>, FormatError>(e),
    }
}

/// Positional values for one record, as the severity methods take them:
/// an empty list of values means no arguments at all.
pub fn parse_args(args: Vec<String>) -> (r: Option<Vec<String>>)
    ensures
        args@.len() == 0 ==> r is None,
        args@.len() > 0 ==> r == Some(args),
{
    if args.len() == 0 {
        None
    } else {
        Some(args)
    }
}

} // verus!
