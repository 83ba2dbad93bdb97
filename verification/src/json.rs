//! A small JSON emitter for the structured outputs: escaping, string and
//! null atoms, the per-record line of the file sink, and the diagnostic
//! snapshot. The field layout is fixed, so both are stable within a process.

use vstd::prelude::*;
use crate::config::LogConfig;
use crate::level::LogLevel;
use crate::level::level_name;
use crate::level::spec_level_name;

verus! {

/// How one character appears inside a JSON string: quote, backslash,
/// newline, carriage return and tab are escaped; everything else is kept.
pub open spec fn esc_char(c: char) -> Seq<char> {
    if c == '"' {
        "\\\""@
    } else if c == '\\' {
        "\\\\"@
    } else if c == '\n' {
        "\\n"@
    } else if c == '\r' {
        "\\r"@
    } else if c == '\t' {
        "\\t"@
    } else {
        seq![c]
    }
}

/// The body of a JSON string holding the text `s`.
pub open spec fn spec_escape(s: Seq<char>) -> Seq<char>
    decreases s.len(),
{
    if s.len() == 0 {
        Seq::<char>::empty()
    } else {
        esc_char(s[0]) + spec_escape(s.skip(1))
    }
}

/// A JSON string literal holding the text `s`.
pub open spec fn spec_json_string(s: Seq<char>) -> Seq<char> {
    "\""@ + spec_escape(s) + "\""@
}

/// An optional text as a JSON value: a string literal, or `null` when unset.
pub open spec fn spec_json_opt_string(s: Option<Seq<char>>) -> Seq<char> {
    match s {
        Some(t) => spec_json_string(t),
        None => "null"@,
    }
}

/// Escape `s` for use inside a JSON string.
pub fn escape_json(s: &str) -> (r: String)
    ensures
        r@ == spec_escape(s@),
{
    let n = s.unicode_len();
    let mut out = String::new();
    let mut i: usize = 0;
    proof {
        assert(s@.skip(0) =~= s@);
        assert(Seq::<char>::empty() + spec_escape(s@) =~= spec_escape(s@));
    }
    while i < n
        invariant
            n == s@.len(),
            i <= n,
            out@ + spec_escape(s@.skip(i as int)) == spec_escape(s@),
        decreases n - i,
    {
        let ghost rest = s@.skip(i as int);
        proof {
            assert(rest[0] == s@[i as int]);
            assert(spec_escape(rest) == esc_char(rest[0]) + spec_escape(rest.skip(1)));
            assert(rest.skip(1) =~= s@.skip(i as int + 1));
        }
        let c = s.get_char(i);
        if c == '"' {
            out.append("\\\"");
        } else if c == '\\' {
            out.append("\\\\");
        } else if c == '\n' {
            out.append("\\n");
        } else if c == '\r' {
            out.append("\\r");
        } else if c == '\t' {
            out.append("\\t");
        } else {
            let piece = s.substring_char(i, i + 1);
            out.append(piece);
            proof {
                assert(piece@ =~= seq![s@[i as int]]);
            }
        }
        i = i + 1;
    }
    proof {
        assert(s@.skip(n as int) =~= Seq::<char>::empty());
        assert(out@ + Seq::<char>::empty() =~= out@);
    }
    out
}

/// Append the JSON string literal holding `s` to `out`.
pub fn push_json_string(out: &mut String, s: &str)
    ensures
        final(out)@ == old(out)@ + spec_json_string(s@),
{
    out.append("\"");
    let esc = escape_json(s);
    out.append(esc.as_str());
    out.append("\"");
}

/// Append the JSON value for an optional text to `out`.
pub fn push_json_opt_string(out: &mut String, s: &Option<String>)
    ensures
        final(out)@ == old(out)@ + spec_json_opt_string(match s {
            Some(t) => Some(t@),
            None => None,
        }),
{
    match s {
        Some(t) => push_json_string(out, t.as_str()),
        None => out.append("null"),
    }
}

/// The view of a configuration's optional name field.
pub open spec fn opt_view(s: Option<String>) -> Option<Seq<char>> {
    match s {
        Some(t) => Some(t@),
        None => None,
    }
}

/// The view of a configuration's file-sink path, when one is set.
pub open spec fn sink_path_view(c: LogConfig) -> Option<Seq<char>> {
    match c.file_sink {
        Some(d) => Some(d.path@),
        None => None,
    }
}

/// The configuration snapshot as one JSON object: name, level, environment
/// tag, and the file-sink path (or `null` for a console sink).
pub open spec fn spec_config_json(c: LogConfig) -> Seq<char> {
    "{\"name\":"@ + spec_json_opt_string(opt_view(c.name)) + ",\"level\":"@ + spec_json_string(
        spec_level_name(c.level),
    ) + ",\"app_env\":"@ + spec_json_opt_string(opt_view(c.app_env)) + ",\"file_sink\":"@
        + spec_json_opt_string(sink_path_view(c)) + "}"@
}

/// The configuration snapshot, one JSON object.
pub fn config_json(c: &LogConfig) -> (r: String)
    ensures
        r@ == spec_config_json(*c),
{
    let mut out = String::new();
    out.append("{\"name\":");
    push_json_opt_string(&mut out, &c.name);
    out.append(",\"level\":");
    push_json_string(&mut out, level_name(c.level));
    out.append(",\"app_env\":");
    push_json_opt_string(&mut out, &c.app_env);
    out.append(",\"file_sink\":");
    match &c.file_sink {
        Some(d) => push_json_string(&mut out, d.path.as_str()),
        None => out.append("null"),
    }
    out.append("}");
    out
}

/// One structured record as written by the file sink: logical name,
/// severity, environment tag, rendered message, and the configuration
/// snapshot, as one self-contained JSON object.
pub open spec fn spec_record_json(c: LogConfig, level: LogLevel, message: Seq<char>) -> Seq<char> {
    "{\"name\":"@ + spec_json_opt_string(opt_view(c.name)) + ",\"level\":"@ + spec_json_string(
        spec_level_name(level),
    ) + ",\"app_env\":"@ + spec_json_opt_string(opt_view(c.app_env)) + ",\"message\":"@
        + spec_json_string(message) + ",\"config\":"@ + spec_config_json(c) + "}"@
}

/// One structured record for the file sink.
pub fn record_json(c: &LogConfig, level: LogLevel, message: &str) -> (r: String)
    ensures
        r@ == spec_record_json(*c, level, message@),
{
    let mut out = String::new();
    out.append("{\"name\":");
    push_json_opt_string(&mut out, &c.name);
    out.append(",\"level\":");
    push_json_string(&mut out, level_name(level));
    out.append(",\"app_env\":");
    push_json_opt_string(&mut out, &c.app_env);
    out.append(",\"message\":");
    push_json_string(&mut out, message);
    out.append(",\"config\":");
    let cfg = config_json(c);
    out.append(cfg.as_str());
    out.append("}");
    out
}

} // verus!
