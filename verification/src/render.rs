//! Message rendering: sequential `{}` substitution, the fixed color palette,
//! and the sink-dependent application of render hints.

use vstd::prelude::*;
use owo_colors::AnsiColors;
use owo_colors::OwoColorize;
use crate::text::str_eq;

verus! {

/// Which kind of destination the rendered line is bound for.
#[derive(Clone, Copy, PartialEq, Eq, Structural, Debug)]
pub enum SinkKind {
    Console,
    File,
}

/// The fixed console color palette.
#[derive(Clone, Copy, PartialEq, Eq, Structural, Debug)]
pub enum ColorName {
    Red,
    Green,
    Yellow,
    Blue,
    Magenta,
    Cyan,
    White,
    Black,
}

/// Optional per-call rendering directives. The only recognized directive is a
/// named color; a hint value given without one is a contract violation that
/// `render` reports as `FormatError::MissingColorKey`.
#[derive(Clone, Debug)]
pub struct RenderHints {
    pub color: Option<String>,
}

/// Failure of rendering itself (never of the substitution, which is total).
#[derive(Clone, Copy, PartialEq, Eq, Structural, Debug)]
pub enum FormatError {
    MissingColorKey,
}

/// Failure of the final write. The library itself performs no I/O: the thin
/// adapter that owns the console or file handle reports a destination it
/// could not write to with this error.
#[derive(Clone, Copy, PartialEq, Eq, Structural, Debug)]
pub enum SinkError {
    WriteFailed,
}

/// Sequential positional substitution: each `{}` in `t`, left to right, is
/// replaced by the next element of `args` while one remains; everything else,
/// including any `{}` beyond the last argument, is kept verbatim.
pub open spec fn spec_subst(t: Seq<char>, args: Seq<Seq<char>>) -> Seq<char>
    decreases t.len(),
{
    if t.len() == 0 {
        t
    } else if t.len() >= 2 && t[0] == '{' && t[1] == '}' && args.len() > 0 {
        args[0] + spec_subst(t.skip(2), args.skip(1))
    } else {
        seq![t[0]] + spec_subst(t.skip(1), args)
    }
}

/// With no arguments left, substitution keeps the template verbatim.
pub proof fn lemma_subst_no_args(t: Seq<char>)
    ensures
        spec_subst(t, Seq::<Seq<char>>::empty()) == t,
    decreases t.len(),
{
    if t.len() == 0 {
    } else {
        lemma_subst_no_args(t.skip(1));
        assert(seq![t[0]] + t.skip(1) =~= t);
    }
}

/// The views of a vector of argument strings.
pub open spec fn arg_views(args: Seq<String>) -> Seq<Seq<char>> {
    args.map_values(|s: String| s@)
}

/// `{}`-substitution over a template and argument strings.
pub fn substitute(template: &str, args: &Vec<String>) -> (r: String)
    ensures
        r@ == spec_subst(template@, arg_views(args@)),
{
    let n = template.unicode_len();
    let mut out = String::new();
    let mut i: usize = 0;
    let mut a: usize = 0;
    proof {
        assert(template@.skip(0) =~= template@);
        assert(arg_views(args@).skip(0) =~= arg_views(args@));
        assert(Seq::<char>::empty() + spec_subst(template@, arg_views(args@)) =~= spec_subst(
            template@,
            arg_views(args@),
        ));
    }
    while i < n
        invariant
            n == template@.len(),
            i <= n,
            a <= args@.len(),
            out@ + spec_subst(template@.skip(i as int), arg_views(args@).skip(a as int))
                == spec_subst(template@, arg_views(args@)),
        decreases n - i,
    {
        let ghost rest = template@.skip(i as int);
        let ghost rargs = arg_views(args@).skip(a as int);
        if i + 1 < n && template.get_char(i) == '{' && template.get_char(i + 1) == '}'
            && a < args.len() {
            out.append(args[a].as_str());
            proof {
                assert(rest[0] == template@[i as int]);
                assert(rest[1] == template@[i as int + 1]);
                assert(rargs[0] == args@[a as int]@);
                assert(spec_subst(rest, rargs) == rargs[0] + spec_subst(
                    rest.skip(2),
                    rargs.skip(1),
                ));
                assert(rest.skip(2) =~= template@.skip(i as int + 2));
                assert(rargs.skip(1) =~= arg_views(args@).skip(a as int + 1));
            }
            i = i + 2;
            a = a + 1;
        } else {
            let piece = template.substring_char(i, i + 1);
            out.append(piece);
            proof {
                assert(rest[0] == template@[i as int]);
                if rest.len() >= 2 && rest[0] == '{' && rest[1] == '}' && rargs.len() > 0 {
                    assert(false);
                }
                assert(spec_subst(rest, rargs) == seq![rest[0]] + spec_subst(
                    rest.skip(1),
                    rargs,
                ));
                assert(piece@ =~= seq![template@[i as int]]);
                assert(rest.skip(1) =~= template@.skip(i as int + 1));
            }
            i = i + 1;
        }
    }
    proof {
        assert(template@.skip(n as int) =~= Seq::<char>::empty());
        assert(spec_subst(Seq::<char>::empty(), arg_views(args@).skip(a as int))
            == Seq::<char>::empty());
        assert(out@ + Seq::<char>::empty() =~= out@);
    }
    out
}

/// The color a hint name selects: one of the eight palette names, every
/// unrecognized name falling back to black.
pub open spec fn spec_color_of(name: Seq<char>) -> ColorName {
    if name == "red"@ {
        ColorName::Red
    } else if name == "green"@ {
        ColorName::Green
    } else if name == "yellow"@ {
        ColorName::Yellow
    } else if name == "blue"@ {
        ColorName::Blue
    } else if name == "magenta"@ {
        ColorName::Magenta
    } else if name == "cyan"@ {
        ColorName::Cyan
    } else if name == "white"@ {
        ColorName::White
    } else {
        ColorName::Black
    }
}

/// Resolve a hint name against the palette, black for anything unrecognized.
pub fn color_of_name(name: &str) -> (c: ColorName)
    ensures
        c == spec_color_of(name@),
{
    if str_eq(name, "red") {
        ColorName::Red
    } else if str_eq(name, "green") {
        ColorName::Green
    } else if str_eq(name, "yellow") {
        ColorName::Yellow
    } else if str_eq(name, "blue") {
        ColorName::Blue
    } else if str_eq(name, "magenta") {
        ColorName::Magenta
    } else if str_eq(name, "cyan") {
        ColorName::Cyan
    } else if str_eq(name, "white") {
        ColorName::White
    } else {
        ColorName::Black
    }
}

/// The ANSI escape that selects `c` as the foreground color.
pub open spec fn color_prefix(c: ColorName) -> Seq<char> {
    match c {
        ColorName::Red => "\u{1b}[31m"@,
        ColorName::Green => "\u{1b}[32m"@,
        ColorName::Yellow => "\u{1b}[33m"@,
        ColorName::Blue => "\u{1b}[34m"@,
        ColorName::Magenta => "\u{1b}[35m"@,
        ColorName::Cyan => "\u{1b}[36m"@,
        ColorName::White => "\u{1b}[37m"@,
        ColorName::Black => "\u{1b}[30m"@,
    }
}

/// `message` wrapped in the foreground escape for `c` and the default
/// foreground reset.
pub open spec fn spec_colorize(c: ColorName, message: Seq<char>) -> Seq<char> {
    color_prefix(c) + message + "\u{1b}[39m"@
}

/// Relies on owo_colors::OwoColorize::color with an owo_colors::AnsiColors
/// value: its display form is the ANSI foreground escape for that color
/// (`\x1b[30m` for black through `\x1b[37m` for white), the text itself,
/// then the default-foreground reset `\x1b[39m`.
#[verifier::external_body]
fn colorize(message: &str, color: ColorName) -> (r: String)
    ensures
        r@ == spec_colorize(color, message@),
{
    let ansi = match color {
        ColorName::Red => AnsiColors::Red,
        ColorName::Green => AnsiColors::Green,
        ColorName::Yellow => AnsiColors::Yellow,
        ColorName::Blue => AnsiColors::Blue,
        ColorName::Magenta => AnsiColors::Magenta,
        ColorName::Cyan => AnsiColors::Cyan,
        ColorName::White => AnsiColors::White,
        ColorName::Black => AnsiColors::Black,
    };
    message.color(ansi).to_string()
}

/// The rendered line for a template, argument views, an optional hint (whose
/// optional field is the color name's view), and a sink kind. Hints apply
/// only to console output; a hint without a color name is a contract
/// violation on the console and ignored for a file.
pub open spec fn spec_render(
    t: Seq<char>,
    args: Seq<Seq<char>>,
    hint: Option<Option<Seq<char>>>,
    kind: SinkKind,
) -> Result<Seq<char>, FormatError> {
    let body = spec_subst(t, args);
    match kind {
        SinkKind::File => Ok(body),
        SinkKind::Console => match hint {
            None => Ok(body),
            Some(None) => Err(FormatError::MissingColorKey),
            Some(Some(name)) => Ok(spec_colorize(spec_color_of(name), body)),
        },
    }
}

/// The argument views `render` works on: the empty sequence when no argument
/// vector is given.
pub open spec fn opt_arg_views(args: Option<&Vec<String>>) -> Seq<Seq<char>> {
    match args {
        None => Seq::<Seq<char>>::empty(),
        Some(v) => arg_views(v@),
    }
}

/// The hint view `render` works on.
pub open spec fn hint_view(hints: Option<&RenderHints>) -> Option<Option<Seq<char>>> {
    match hints {
        None => None,
        Some(h) => Some(
            match h.color {
                None => None,
                Some(ref c) => Some(c@),
            },
        ),
    }
}

/// Render a message: substitute the positional arguments into the template,
/// then apply the color hint exactly when the line is bound for the console.
/// A hint with no color name fails with `FormatError::MissingColorKey` on the
/// console; for a file the hints are ignored entirely and the plain
/// substituted text is returned.
pub fn render(
    template: &str,
    args: Option<&Vec<String>>,
    hints: Option<&RenderHints>,
    kind: SinkKind,
) -> (r: Result<String, FormatError>)
    ensures
        match r {
            Ok(s) => spec_render(template@, opt_arg_views(args), hint_view(hints), kind)
                == Ok::<Seq<char>, FormatError>(s@),
            Err(e) => spec_render(template@, opt_arg_views(args), hint_view(hints), kind)
                == Err::<Seq<char>, FormatError>(e),
        },
{
    let body = match args {
        None => {
            proof {
                lemma_subst_no_args(template@);
            }
            template.to_owned()
        },
        Some(v) => substitute(template, v),
    };
    match kind {
        SinkKind::File => Ok(body),
        SinkKind::Console => match hints {
            None => Ok(body),
            Some(h) => match &h.color {
                None => Err(FormatError::MissingColorKey),
                Some(name) => Ok(colorize(body.as_str(), color_of_name(name.as_str()))),
            },
        },
    }
}

} // verus!
