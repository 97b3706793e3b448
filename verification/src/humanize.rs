//! Durations in words.

use vstd::prelude::*;
use vstd::string::StringExecFns;
use crate::text::{decimal, push_decimal};

verus! {

/// A remaining time of this many seconds or more is shown as endless.
pub const INFINITY: i64 = 8640000;

/// The sign shown for an endless or unknown remaining time.
pub open spec fn infinity_symbol() -> Seq<char> {
    seq!['\u{e2}', '\u{2c6}', '\u{17e}']
}

/// What `humanize_eta` shows for `v` seconds: the two largest units that
/// apply, and the infinity sign for a negative or very long time.
pub open spec fn eta_text(v: int) -> Seq<char> {
    let minutes = v / 60;
    let hours = minutes / 60;
    let days = hours / 24;
    let years = days / 365;
    if v < 0 || v >= INFINITY {
        infinity_symbol()
    } else if v == 0 {
        seq!['0', 's']
    } else if v < 60 {
        seq!['<', ' ', '1', 'm']
    } else if minutes < 60 {
        decimal(minutes as nat).push('m')
    } else if hours < 24 {
        decimal(hours as nat) + seq!['h', ' '] + decimal((minutes - hours * 60) as nat).push('m')
    } else if days < 365 {
        decimal(days as nat) + seq!['d', ' '] + decimal((hours - days * 24) as nat).push('h')
    } else {
        decimal(years as nat) + seq!['y', ' '] + decimal((days - years * 365) as nat).push('d')
    }
}

/// A remaining time in seconds, in words.
pub fn humanize_eta(v: i64) -> (text: String)
    ensures
        text@ == eta_text(v as int),
{
    proof {
        reveal_strlit("\u{e2}\u{2c6}\u{17e}");
        reveal_strlit("0s");
        reveal_strlit("< 1m");
        reveal_strlit("m");
        reveal_strlit("h ");
        reveal_strlit("h");
        reveal_strlit("d ");
        reveal_strlit("d");
        reveal_strlit("y ");
    }
    if v < 0 || v >= INFINITY {
        let text = String::from_str("\u{e2}\u{2c6}\u{17e}");
        assert(text@ =~= eta_text(v as int));
        return text;
    }
    if v == 0 {
        let text = String::from_str("0s");
        assert(text@ =~= eta_text(v as int));
        return text;
    }
    if v < 60 {
        let text = String::from_str("< 1m");
        assert(text@ =~= eta_text(v as int));
        return text;
    }
    let seconds: u64 = v as u64;
    let minutes: u64 = seconds / 60;
    let hours: u64 = minutes / 60;
    let days: u64 = hours / 24;
    let years: u64 = days / 365;
    let mut text = String::new();
    if minutes < 60 {
        push_decimal(&mut text, minutes);
        text.append("m");
    } else if hours < 24 {
        push_decimal(&mut text, hours);
        text.append("h ");
        push_decimal(&mut text, minutes - hours * 60);
        text.append("m");
    } else if days < 365 {
        push_decimal(&mut text, days);
        text.append("d ");
        push_decimal(&mut text, hours - days * 24);
        text.append("h");
    } else {
        push_decimal(&mut text, years);
        text.append("y ");
        push_decimal(&mut text, days - years * 365);
        text.append("d");
    }
    assert(text@ =~= eta_text(v as int));
    text
}

} // verus!
