use vstd::prelude::*;

use crate::severity::{name_of, Severity};

verus! {

/// The terminal colors that record levels are shown in.
#[derive(Clone, Copy, Debug, PartialEq, Eq, Structural)]
pub enum Hue {
    Red,
    Yellow,
    Green,
    White,
    BrightBlack,
}

/// The color of each record level.
pub open spec fn hue_of(level: Severity) -> Hue {
    match level {
        Severity::Error => Hue::Red,
        Severity::Warn => Hue::Yellow,
        Severity::Info => Hue::Green,
        Severity::Debug => Hue::White,
        _ => Hue::BrightBlack,
    }
}

/// The ANSI foreground code of each color.
pub open spec fn fg_code_of(h: Hue) -> Seq<char> {
    match h {
        Hue::Red => seq!['3', '1'],
        Hue::Yellow => seq!['3', '3'],
        Hue::Green => seq!['3', '2'],
        Hue::White => seq!['3', '7'],
        Hue::BrightBlack => seq!['9', '0'],
    }
}

/// The escape sequence that switches to foreground `code`.
pub open spec fn sgr(code: Seq<char>) -> Seq<char> {
    seq!['\x1B', '['] + code + seq!['m']
}

/// The escape sequence that resets all attributes.
pub open spec fn reset() -> Seq<char> {
    sgr(seq!['0'])
}

/// What `humantime::format_rfc3339_seconds` writes for a time `secs`
/// seconds after the Unix epoch.
pub uninterp spec fn rfc3339_of(secs: nat) -> Seq<char>;

/// The last second, counted from the Unix epoch, of year 9999.
pub const LAST_FORMATTABLE_SECOND: u64 = 253402300799;

/// One output line: the timestamp in blue, the level name in its color, the
/// namespace in green, each within the brackets, then the message.
pub open spec fn line_text(date: Seq<char>, level: Severity, ns: Seq<char>, message: Seq<char>) -> Seq<char> {
    let color = sgr(fg_code_of(hue_of(level)));
    seq!['['] + sgr(seq!['3', '4']) + date + reset() + seq![' '] + color + color + name_of(level) + reset()
        + reset() + seq![' '] + sgr(seq!['3', '2']) + ns + reset() + seq![']', ' '] + message
}

impl Hue {
    /// The color a record level is shown in.
    pub fn of_level(level: Severity) -> (r: Hue)
        ensures
            r == hue_of(level),
    {
        match level {
            Severity::Error => Hue::Red,
            Severity::Warn => Hue::Yellow,
            Severity::Info => Hue::Green,
            Severity::Debug => Hue::White,
            _ => Hue::BrightBlack,
        }
    }
}

/// Relies on `fern::colors::Color::to_fg_str` (colored's `Color`), which
/// gives "31" for red, "33" for yellow, "32" for green, "37" for white and
/// "90" for bright black.
#[verifier::external_body]
fn fg_code(h: Hue) -> (r: String)
    ensures
        r@ == fg_code_of(h),
{
    let c = match h {
        Hue::Red => fern::colors::Color::Red,
        Hue::Yellow => fern::colors::Color::Yellow,
        Hue::Green => fern::colors::Color::Green,
        Hue::White => fern::colors::Color::White,
        Hue::BrightBlack => fern::colors::Color::BrightBlack,
    };
    c.to_fg_str().into_owned()
}

/// Relies on `humantime::format_rfc3339_seconds`, which writes a time of
/// year 9999 or earlier as `YYYY-MM-DDTHH:MM:SSZ`, in UTC, and fails on later
/// ones.
#[verifier::external_body]
fn rfc3339_seconds(secs: u64) -> (r: String)
    requires
        secs <= LAST_FORMATTABLE_SECOND,
    ensures
        r@ == rfc3339_of(secs as nat),
{
    let t = std::time::UNIX_EPOCH + std::time::Duration::from_secs(secs);
    humantime::format_rfc3339_seconds(t).to_string()
}

fn push_sgr(s: &mut String, code: &str)
    ensures
        final(s)@ == old(s)@ + sgr(code@),
{
    s.append("\x1B[");
    s.append(code);
    s.append("m");
    proof {
        reveal_strlit("\x1B[");
        reveal_strlit("m");
    }
    assert(final(s)@ =~= old(s)@ + sgr(code@));
}

/// Lays out one record with an already formatted timestamp.
pub fn format_line(date: &str, level: Severity, ns: &str, message: &str) -> (r: String)
    ensures
        r@ == line_text(date@, level, ns@, message@),
{
    let code = fg_code(Hue::of_level(level));
    let mut r = String::from_str("[");
    push_sgr(&mut r, "34");
    r.append(date);
    push_sgr(&mut r, "0");
    r.append(" ");
    push_sgr(&mut r, code.as_str());
    push_sgr(&mut r, code.as_str());
    r.append(level.name());
    push_sgr(&mut r, "0");
    push_sgr(&mut r, "0");
    r.append(" ");
    push_sgr(&mut r, "32");
    r.append(ns);
    push_sgr(&mut r, "0");
    r.append("] ");
    r.append(message);
    proof {
        reveal_strlit("[");
        reveal_strlit("34");
        reveal_strlit("0");
        reveal_strlit(" ");
        reveal_strlit("32");
        reveal_strlit("] ");
    }
    assert(r@ =~= line_text(date@, level, ns@, message@));
    r
}

/// Lays out one record made `secs` seconds after the Unix epoch.
pub fn format_record(secs: u64, level: Severity, ns: &str, message: &str) -> (r: String)
    requires
        secs <= LAST_FORMATTABLE_SECOND,
    ensures
        r@ == line_text(rfc3339_of(secs as nat), level, ns@, message@),
{
    let date = rfc3339_seconds(secs);
    format_line(date.as_str(), level, ns, message)
}

} // verus!
