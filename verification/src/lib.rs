//! A structured logging core: log records carry one of five severities, are
//! filtered against a runtime-adjustable threshold, rendered (positional
//! substitution plus optional console coloring), and handed to a sink as a
//! finished line (plain text for the console, one JSON object per line for a
//! file).

pub mod config;
pub mod json;
pub mod laws;
pub mod level;
pub mod logger;
pub mod render;
pub mod text;
