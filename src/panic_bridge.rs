use vstd::prelude::*;

use crate::severity::Severity;

verus! {

/// What a panic carried: a text message, or else the debug rendering of a
/// value that is not text.
pub enum PanicPayload {
    Text(String),
    Opaque(String),
}

/// The message a panic is logged with.
pub open spec fn message_of(p: PanicPayload) -> Seq<char> {
    match p {
        PanicPayload::Text(s) => s@,
        PanicPayload::Opaque(s) => s@,
    }
}

/// The character of a decimal digit.
pub open spec fn digit_char(d: nat) -> char {
    seq!['0', '1', '2', '3', '4', '5', '6', '7', '8', '9'][d as int]
}

/// `n` written in decimal, without leading zeros.
pub open spec fn decimal(n: nat) -> Seq<char>
    decreases n,
{
    if n < 10 {
        seq![digit_char(n)]
    } else {
        decimal(n / 10).push(digit_char(n % 10))
    }
}

/// The diagnostic line naming where a panic happened.
pub open spec fn location_text(file: Seq<char>, line: nat) -> Seq<char> {
    "panic occurred in file '"@ + file + seq![':'] + decimal(line) + seq!['\'']
}

/// The records a panic turns into: the place, at `Debug`, where it is
/// known; then the message, at `Error`.
pub open spec fn panic_record_view(location: Option<(Seq<char>, nat)>, p: PanicPayload) -> Seq<(Severity, Seq<char>)> {
    match location {
        Some((file, line)) => seq![
            (Severity::Debug, location_text(file, line)),
            (Severity::Error, message_of(p)),
        ],
        None => seq![(Severity::Error, message_of(p))],
    }
}

fn digit_text(d: u32) -> (r: &'static str)
    requires
        d < 10,
    ensures
        r@ == seq![digit_char(d as nat)],
{
    let r = match d {
        0 => "0",
        1 => "1",
        2 => "2",
        3 => "3",
        4 => "4",
        5 => "5",
        6 => "6",
        7 => "7",
        8 => "8",
        _ => "9",
    };
    proof {
        reveal_strlit("0");
        reveal_strlit("1");
        reveal_strlit("2");
        reveal_strlit("3");
        reveal_strlit("4");
        reveal_strlit("5");
        reveal_strlit("6");
        reveal_strlit("7");
        reveal_strlit("8");
        reveal_strlit("9");
    }
    assert(r@ =~= seq![digit_char(d as nat)]);
    r
}

/// `n` in decimal.
pub fn decimal_text(n: u32) -> (r: String)
    ensures
        r@ == decimal(n as nat),
    decreases n,
{
    if n < 10 {
        String::from_str(digit_text(n))
    } else {
        let mut s = decimal_text(n / 10);
        s.append(digit_text(n % 10));
        assert(s@ =~= decimal(n as nat));
        s
    }
}

/// The message a panic is logged with: its text, or its debug rendering.
pub fn panic_message(p: &PanicPayload) -> (r: String)
    ensures
        r@ == message_of(*p),
{
    match p {
        PanicPayload::Text(s) => s.clone(),
        PanicPayload::Opaque(s) => s.clone(),
    }
}

/// The diagnostic line naming the file and line where a panic happened.
pub fn location_message(file: &str, line: u32) -> (r: String)
    ensures
        r@ == location_text(file@, line as nat),
{
    let mut r = String::from_str("panic occurred in file '");
    r.append(file);
    r.append(":");
    let digits = decimal_text(line);
    r.append(digits.as_str());
    r.append("'");
    proof {
        reveal_strlit(":");
        reveal_strlit("'");
    }
    assert(r@ =~= location_text(file@, line as nat));
    r
}

/// The records to write for a panic, in order: where it happened, at
/// `Debug`, if that is known; then its message, at `Error`.
pub fn panic_records(location: Option<(&str, u32)>, p: &PanicPayload) -> (r: Vec<(Severity, String)>)
    ensures
        r@.map_values(|e: (Severity, String)| (e.0, e.1@)) == panic_record_view(
            match location {
                Some((file, line)) => Some((file@, line as nat)),
                None => None,
            },
            *p,
        ),
        r@.len() >= 1,
        r@.last().0 == Severity::Error,
        r@.last().1@ == message_of(*p),
{
    let mut r: Vec<(Severity, String)> = Vec::new();
    match location {
        Some((file, line)) => {
            r.push((Severity::Debug, location_message(file, line)));
        },
        None => {},
    }
    r.push((Severity::Error, panic_message(p)));
    assert(r@.map_values(|e: (Severity, String)| (e.0, e.1@)) =~= panic_record_view(
        match location {
            Some((file, line)) => Some((file@, line as nat)),
            None => None,
        },
        *p,
    ));
    r
}

} // verus!
