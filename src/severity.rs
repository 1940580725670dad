use vstd::prelude::*;

verus! {

/// The verbosity of a log record, or the threshold of a namespace.
/// `Off` is only ever a threshold: it lets no record through.
#[derive(Clone, Copy, Debug, PartialEq, Eq, Structural)]
pub enum Severity {
    Trace,
    Debug,
    Info,
    Warn,
    Error,
    Off,
}

/// How much a threshold lets through, or how chatty a record is:
/// `Off` is 0 and `Trace` is 5.
pub open spec fn verbosity(s: Severity) -> nat {
    match s {
        Severity::Off => 0,
        Severity::Error => 1,
        Severity::Warn => 2,
        Severity::Info => 3,
        Severity::Debug => 4,
        Severity::Trace => 5,
    }
}

/// A record at `record` passes a threshold `threshold`.
pub open spec fn lets_through(threshold: Severity, record: Severity) -> bool {
    record != Severity::Off && verbosity(record) <= verbosity(threshold)
}

/// The upper-case name of each severity.
pub open spec fn name_of(s: Severity) -> Seq<char> {
    match s {
        Severity::Off => seq!['O', 'F', 'F'],
        Severity::Error => seq!['E', 'R', 'R', 'O', 'R'],
        Severity::Warn => seq!['W', 'A', 'R', 'N'],
        Severity::Info => seq!['I', 'N', 'F', 'O'],
        Severity::Debug => seq!['D', 'E', 'B', 'U', 'G'],
        Severity::Trace => seq!['T', 'R', 'A', 'C', 'E'],
    }
}

/// `s` spells the upper-case ASCII word `name`, each letter in either case.
pub open spec fn spells_ignoring_case(s: Seq<char>, name: Seq<char>) -> bool {
    &&& s.len() == name.len()
    &&& forall|i: int|
        0 <= i < s.len() ==> (#[trigger] s[i] == name[i] || s[i] as u32 == name[i] as u32 + 32)
}

/// The severity whose name `s` spells, letter case aside; none if no name fits.
pub open spec fn severity_named(s: Seq<char>) -> Option<Severity> {
    if spells_ignoring_case(s, name_of(Severity::Off)) {
        Some(Severity::Off)
    } else if spells_ignoring_case(s, name_of(Severity::Error)) {
        Some(Severity::Error)
    } else if spells_ignoring_case(s, name_of(Severity::Warn)) {
        Some(Severity::Warn)
    } else if spells_ignoring_case(s, name_of(Severity::Info)) {
        Some(Severity::Info)
    } else if spells_ignoring_case(s, name_of(Severity::Debug)) {
        Some(Severity::Debug)
    } else if spells_ignoring_case(s, name_of(Severity::Trace)) {
        Some(Severity::Trace)
    } else {
        None
    }
}

/// The severity that a level text asks for: the one it names, else `Info`.
pub open spec fn severity_or_info(s: Seq<char>) -> Severity {
    match severity_named(s) {
        Some(l) => l,
        None => Severity::Info,
    }
}

/// What `str::to_uppercase` makes of a string.
pub uninterp spec fn upper_of(s: Seq<char>) -> Seq<char>;

/// The level in force: the explicit one if given, else the one the
/// environment's text names once upper-cased, else `Info`.
pub open spec fn resolved_level(level_override: Option<Severity>, env_text: Option<Seq<char>>) -> Severity {
    match level_override {
        Some(l) => l,
        None => match env_text {
            Some(t) => severity_or_info(upper_of(t)),
            None => Severity::Info,
        },
    }
}

impl Severity {
    /// Whether a record at `record` passes this threshold.
    pub fn lets_through(self, record: Severity) -> (r: bool)
        ensures
            r == lets_through(self, record),
    {
        record != Severity::Off && record.verbosity() <= self.verbosity()
    }

    /// The verbosity rank, `Off` being 0 and `Trace` 5.
    pub fn verbosity(self) -> (r: u8)
        ensures
            r as nat == verbosity(self),
    {
        match self {
            Severity::Off => 0,
            Severity::Error => 1,
            Severity::Warn => 2,
            Severity::Info => 3,
            Severity::Debug => 4,
            Severity::Trace => 5,
        }
    }

    /// The upper-case name, as records show it.
    pub fn name(self) -> (r: &'static str)
        ensures
            r@ == name_of(self),
    {
        let r = match self {
            Severity::Off => "OFF",
            Severity::Error => "ERROR",
            Severity::Warn => "WARN",
            Severity::Info => "INFO",
            Severity::Debug => "DEBUG",
            Severity::Trace => "TRACE",
        };
        proof {
            reveal_strlit("OFF");
            reveal_strlit("ERROR");
            reveal_strlit("WARN");
            reveal_strlit("INFO");
            reveal_strlit("DEBUG");
            reveal_strlit("TRACE");
        }
        assert(r@ =~= name_of(self));
        r
    }
}

/// Relies on `<log::LevelFilter as FromStr>::from_str`, which compares the
/// text, ASCII letter case aside, with "OFF", "ERROR", "WARN", "INFO",
/// "DEBUG" and "TRACE", and fails where none matches.
#[verifier::external_body]
fn parse_level_filter(s: &str) -> (r: Option<Severity>)
    ensures
        r == severity_named(s@),
{
    match s.parse::<log::LevelFilter>() {
        Ok(log::LevelFilter::Off) => Some(Severity::Off),
        Ok(log::LevelFilter::Error) => Some(Severity::Error),
        Ok(log::LevelFilter::Warn) => Some(Severity::Warn),
        Ok(log::LevelFilter::Info) => Some(Severity::Info),
        Ok(log::LevelFilter::Debug) => Some(Severity::Debug),
        Ok(log::LevelFilter::Trace) => Some(Severity::Trace),
        Err(_) => None,
    }
}

/// Relies on `str::to_uppercase`, whose result depends on the text alone.
#[verifier::external_body]
fn to_upper(s: &str) -> (r: String)
    ensures
        r@ == upper_of(s@),
{
    s.to_uppercase()
}

/// The severity a level text names, letter case aside; `Info` where it
/// names none.
pub fn severity_from_text(s: &str) -> (r: Severity)
    ensures
        r == severity_or_info(s@),
{
    match parse_level_filter(s) {
        Some(l) => l,
        None => Severity::Info,
    }
}

/// The level in force: `level_override` verbatim where given; else the
/// environment's level text, upper-cased, where it names a severity; else
/// `Info`.
pub fn resolve_level(level_override: Option<Severity>, env_text: Option<&str>) -> (r: Severity)
    ensures
        r == resolved_level(
            level_override,
            match env_text {
                Some(t) => Some(t@),
                None => None,
            },
        ),
        level_override.is_some() ==> r == level_override.unwrap(),
        level_override.is_none() && env_text.is_none() ==> r == Severity::Info,
{
    match level_override {
        Some(l) => l,
        None => match env_text {
            Some(t) => {
                let upper = to_upper(t);
                severity_from_text(upper.as_str())
            },
            None => Severity::Info,
        },
    }
}

} // verus!
