//! The lines written by the leveled and verbose operations.
use crate::complete::{escape_free, painted, red_text};
use crate::level::{filter_open, passes_filter, level_name, opt_view, LogEntryLevel};
use std::fmt::Write;
use vstd::prelude::*;

verus! {

/// The date-time pattern used when none is configured.
pub const DEFAULT_DATETIME_FORMAT: &'static str = "%Y-%m-%d %H:%M:%S%.3f";

/// The text of the experimental-code notice after its coloured head.
pub const EXPERIMENTAL_TAIL: &'static str
    = " - Results may vary, bugs will be present, and not all functionality has been implemented";

/// The date-time pattern in force: the configured one, else the default.
pub fn datetime_format(configured: Option<&str>) -> (r: String)
    ensures
        r@ == match configured {
            Some(f) => f@,
            None => DEFAULT_DATETIME_FORMAT@,
        },
{
    match configured {
        Some(f) => String::from_str(f),
        None => String::from_str(DEFAULT_DATETIME_FORMAT),
    }
}

/// Relies on chrono's `Local::now` and the `Display` of `DelayedFormat`: the
/// local time now in the pattern `format`, `None` where the pattern holds an
/// item that chrono cannot format. Formatting fails only on such an item
/// (a `DateTime` supplies date, time and offset), so the default pattern
/// always succeeds; its `%Y-%m-%d %H:%M:%S` part gives at least 19
/// characters and `%.3f` a point and three digits.
#[verifier::external_body]
fn now_formatted(format: &str) -> (r: Option<String>)
    ensures
        r is None ==> format@ != DEFAULT_DATETIME_FORMAT@,
        r is Some && format@ == DEFAULT_DATETIME_FORMAT@ ==> r->0@.len() >= 23,
{
    let mut s = String::new();
    match write!(s, "{}", chrono::Local::now().format(format)) {
        Ok(()) => Some(s),
        Err(_) => None,
    }
}

/// The stamp in use: the first one, else the fallback, else empty.
pub open spec fn chosen_stamp(first: Option<String>, fallback: Option<String>) -> Seq<char> {
    match first {
        Some(s) => s@,
        None => match fallback {
            Some(s) => s@,
            None => Seq::empty(),
        },
    }
}

/// The time stamp text: the stamp in the requested pattern, else the one in
/// the default pattern, followed by one space.
pub fn datetime_text(first: Option<String>, fallback: Option<String>) -> (r: String)
    ensures
        r@ == chosen_stamp(first, fallback) + " "@,
{
    proof {
        reveal_strlit(" ");
    }
    let stamp = match first {
        Some(s) => s,
        None => match fallback {
            Some(s) => s,
            None => String::new(),
        },
    };
    stamp.concat(" ")
}

/// The current date and time in `format`, followed by a space; a pattern
/// that cannot be formatted gives way to the default one.
pub fn format_datetime(format: &str) -> (r: String)
    ensures
        exists|first: Option<String>, fallback: Option<String>|
            r@ == chosen_stamp(first, fallback) + " "@ && (first is None
                ==> format@ != DEFAULT_DATETIME_FORMAT@),
        format@ == DEFAULT_DATETIME_FORMAT@ ==> r@.len() >= 24,
        r@.last() == ' ',
{
    let first = now_formatted(format);
    let fallback = if first.is_some() {
        None
    } else {
        now_formatted(DEFAULT_DATETIME_FORMAT)
    };
    let ghost f = first;
    let ghost b = fallback;
    let r = datetime_text(first, fallback);
    proof {
        reveal_strlit(" ");
        assert(r@ == chosen_stamp(f, b) + " "@);
        assert(r@.len() == chosen_stamp(f, b).len() + 1);
        assert(r@[r@.len() - 1] == ' ');
        if format@ == DEFAULT_DATETIME_FORMAT@ {
            assert(f is Some);
            assert(chosen_stamp(f, b) == f->0@);
        }
    }
    r
}

/// The text of a leveled line.
pub open spec fn status_text(
    datetime: Seq<char>,
    level: LogEntryLevel,
    location: Seq<char>,
    msg: Seq<char>,
) -> Seq<char> {
    datetime + " "@ + level_name(level) + " "@ + location + " "@ + msg
}

/// The text of a verbose line.
pub open spec fn verbose_text(datetime: Seq<char>, location: Seq<char>, msg: Seq<char>) -> Seq<
    char,
> {
    datetime + " "@ + location + " "@ + msg
}

/// A leveled line: time stamp, level, call site and message, apart by spaces.
pub fn status_line(datetime: &str, level: LogEntryLevel, location: &str, msg: &str) -> (r: String)
    ensures
        r@ == status_text(datetime@, level, location@, msg@),
{
    proof {
        reveal_strlit(" ");
    }
    let mut r = String::from_str(datetime);
    r.append(" ");
    r.append(level.name());
    r.append(" ");
    r.append(location);
    r.append(" ");
    r.append(msg);
    r
}

/// The line a leveled operation emits, or `None` where the level filter holds it
/// back (including where the environment value names no level).
pub fn leveled_line(
    env_value: Option<&str>,
    configured: LogEntryLevel,
    level: LogEntryLevel,
    datetime: &str,
    location: &str,
    msg: &str,
) -> (r: Option<String>)
    ensures
        r is Some <==> filter_open(opt_view(env_value), configured, level),
        r matches Some(s) ==> s@ == status_text(datetime@, level, location@, msg@),
{
    if passes_filter(env_value, configured, level) {
        Some(status_line(datetime, level, location, msg))
    } else {
        None
    }
}

/// The line a verbose operation emits, or `None` while verbose output is off.
pub fn verbose_line(verbose: bool, datetime: &str, location: &str, msg: &str) -> (r: Option<String>)
    ensures
        r is Some <==> verbose,
        r matches Some(s) ==> s@ == verbose_text(datetime@, location@, msg@),
{
    if verbose {
        proof {
            reveal_strlit(" ");
        }
        let mut r = String::from_str(datetime);
        r.append(" ");
        r.append(location);
        r.append(" ");
        r.append(msg);
        Some(r)
    } else {
        None
    }
}

/// The notice that marks code as experimental, its head shown in red.
pub fn experimental_notice() -> (r: String)
    ensures
        exists|head: Seq<char>|
            painted("Experimental Code!"@, "31"@, head) && r@ == head + EXPERIMENTAL_TAIL@,
{
    proof {
        reveal_strlit("Experimental Code!");
    }
    let head = red_text("Experimental Code!");
    head.concat(EXPERIMENTAL_TAIL)
}

} // verus!
