//! Properties of the rendering and filtering pipeline that relate several
//! operations, stated and proved once for all inputs.

use vstd::prelude::*;
use crate::level::LogLevel;
use crate::level::spec_passes;
use crate::logger::LoggerCore;
use crate::logger::spec_sink_kind;
use crate::render::ColorName;
use crate::render::FormatError;
use crate::render::SinkKind;
use crate::render::lemma_subst_no_args;
use crate::render::spec_color_of;
use crate::render::spec_render;

verus! {

/// Rendering with no arguments and no hints returns the template unchanged,
/// for any sink kind.
pub proof fn lemma_render_round_trip(t: Seq<char>, kind: SinkKind)
    ensures
        spec_render(t, Seq::<Seq<char>>::empty(), None, kind) == Ok::<Seq<char>, FormatError>(t),
{
    lemma_subst_no_args(t);
}

/// For a file sink the hints are ignored entirely: rendering with any hint
/// gives exactly the output of rendering with no hint at all.
pub proof fn lemma_file_sink_suppresses_hints(
    t: Seq<char>,
    args: Seq<Seq<char>>,
    hint: Option<Option<Seq<char>>>,
)
    ensures
        spec_render(t, args, hint, SinkKind::File) == spec_render(t, args, None, SinkKind::File),
{
}

/// The unrecognized hint name `neon` falls back to black: on a console sink
/// it renders exactly as the hint `black` does, and does not fail.
pub proof fn lemma_unrecognized_color_falls_back(t: Seq<char>, args: Seq<Seq<char>>)
    ensures
        spec_render(t, args, Some(Some("neon"@)), SinkKind::Console) == spec_render(
            t,
            args,
            Some(Some("black"@)),
            SinkKind::Console,
        ),
        spec_render(t, args, Some(Some("neon"@)), SinkKind::Console) is Ok,
{
    reveal_strlit("neon");
    reveal_strlit("red");
    reveal_strlit("green");
    reveal_strlit("yellow");
    reveal_strlit("blue");
    reveal_strlit("magenta");
    reveal_strlit("cyan");
    reveal_strlit("white");
    reveal_strlit("black");
    assert("neon"@.len() != "red"@.len());
    assert("neon"@.len() != "green"@.len());
    assert("neon"@.len() != "yellow"@.len());
    assert("neon"@[0] != "blue"@[0]);
    assert("neon"@.len() != "magenta"@.len());
    assert("neon"@[0] != "cyan"@[0]);
    assert("neon"@.len() != "white"@.len());
    assert(spec_color_of("neon"@) == ColorName::Black);
    assert("black"@.len() != "red"@.len());
    assert("black"@[0] != "green"@[0]);
    assert("black"@.len() != "yellow"@.len());
    assert("black"@.len() != "blue"@.len());
    assert("black"@.len() != "magenta"@.len());
    assert("black"@.len() != "cyan"@.len());
    assert("black"@[0] != "white"@[0]);
    assert(spec_color_of("black"@) == ColorName::Black);
}

/// After the threshold is reloaded to `Error`, an `info` record produces no
/// line at all, while an `error` record still produces one whenever its
/// rendering succeeds.
pub proof fn lemma_reload_to_error_filters_info(
    l: LoggerCore,
    t: Seq<char>,
    args: Seq<Seq<char>>,
    hint: Option<Option<Seq<char>>>,
)
    requires
        l.level == LogLevel::Error,
    ensures
        l.spec_log(LogLevel::Info, t, args, hint) == Ok::<Option<Seq<char>>, FormatError>(None),
        spec_render(t, args, hint, spec_sink_kind(l.config)) is Ok ==> (l.spec_log(
            LogLevel::Error,
            t,
            args,
            hint,
        ) matches Ok(line) && line is Some),
{
}

/// A record strictly below the threshold never yields a line, whatever the
/// template, arguments, or hints.
pub proof fn lemma_below_threshold_is_silent(
    l: LoggerCore,
    level: LogLevel,
    t: Seq<char>,
    args: Seq<Seq<char>>,
    hint: Option<Option<Seq<char>>>,
)
    requires
        !spec_passes(level, l.level),
    ensures
        l.spec_log(level, t, args, hint) == Ok::<Option<Seq<char>>, FormatError>(None),
{
}

} // verus!
