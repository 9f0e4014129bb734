//! The four logging levels, how their names are read, and the filter that
//! decides whether a message at a level is emitted.
use crate::text::same_text;
use vstd::prelude::*;

verus! {

/// The four logging levels, from the most severe to the most verbose.
#[derive(Debug, Copy, Clone, PartialEq, Eq, PartialOrd, Ord, Structural)]
pub enum LogEntryLevel {
    ERROR,
    WARN,
    INFO,
    DEBUG,
}

/// The one recoverable error: a level name that matches none of the four.
#[derive(Debug, Clone)]
pub enum LevelError {
    /// Carries the text that was offered as a level name.
    InvalidLevel(String),
}

/// The text an error carries.
pub open spec fn offered_text(e: LevelError) -> Seq<char> {
    match e {
        LevelError::InvalidLevel(t) => t@,
    }
}

impl LevelError {
    /// The text that was offered as a level name.
    pub fn text(&self) -> (r: &String)
        ensures
            r@ == offered_text(*self),
    {
        match self {
            LevelError::InvalidLevel(t) => t,
        }
    }

    /// A message for people: `Invalid log level: ` and the offered text.
    pub fn message(&self) -> (r: String)
        ensures
            r@ == "Invalid log level: "@ + offered_text(*self),
    {
        let head = String::from_str("Invalid log level: ");
        head.concat(self.text().as_str())
    }
}

/// Severity of a level: DEBUG is the least severe, ERROR the most.
pub open spec fn severity(l: LogEntryLevel) -> int {
    match l {
        LogEntryLevel::DEBUG => 0,
        LogEntryLevel::INFO => 1,
        LogEntryLevel::WARN => 2,
        LogEntryLevel::ERROR => 3,
    }
}

/// The upper-case name of a level.
pub open spec fn level_name(l: LogEntryLevel) -> Seq<char> {
    match l {
        LogEntryLevel::DEBUG => "DEBUG"@,
        LogEntryLevel::INFO => "INFO"@,
        LogEntryLevel::WARN => "WARN"@,
        LogEntryLevel::ERROR => "ERROR"@,
    }
}

/// The level whose upper-case name is exactly `u`, if any.
pub open spec fn level_named(u: Seq<char>) -> Option<LogEntryLevel> {
    if u == "DEBUG"@ {
        Some(LogEntryLevel::DEBUG)
    } else if u == "INFO"@ {
        Some(LogEntryLevel::INFO)
    } else if u == "WARN"@ {
        Some(LogEntryLevel::WARN)
    } else if u == "ERROR"@ {
        Some(LogEntryLevel::ERROR)
    } else {
        None
    }
}

/// `r` is what reading `original`, whose upper-case form is `upper`, gives.
pub open spec fn parse_outcome(
    r: Result<LogEntryLevel, LevelError>,
    original: Seq<char>,
    upper: Seq<char>,
) -> bool {
    match level_named(upper) {
        Some(l) => r == Ok::<LogEntryLevel, LevelError>(l),
        None => match r {
            Err(LevelError::InvalidLevel(t)) => t@ == original,
            Ok(_) => false,
        },
    }
}

/// The level filter: a message at `candidate` passes a configured `minimum`
/// when it is at least as severe.
pub open spec fn emits(candidate: LogEntryLevel, minimum: LogEntryLevel) -> bool {
    severity(candidate) >= severity(minimum)
}

/// What `str::to_uppercase` returns for a string.
pub uninterp spec fn upper_of(s: Seq<char>) -> Seq<char>;

/// A string of ASCII characters only.
pub open spec fn all_ascii(s: Seq<char>) -> bool {
    forall|i: int| 0 <= i < s.len() ==> (s[i] as int) < 128
}

/// `u` is the ASCII upper-case form of `s`, character by character.
pub open spec fn ascii_upper_of(s: Seq<char>, u: Seq<char>) -> bool {
    &&& u.len() == s.len()
    &&& forall|i: int|
        0 <= i < s.len() ==> if 'a' <= s[i] && s[i] <= 'z' {
            (u[i] as int) + 32 == (s[i] as int)
        } else {
            u[i] == s[i]
        }
}

/// Relies on `str::to_uppercase`: the result depends on the characters
/// alone, and on ASCII text it maps `a`..`z` to `A`..`Z` and keeps the rest.
#[verifier::external_body]
fn to_upper(s: &str) -> (r: String)
    ensures
        r@ == upper_of(s@),
        all_ascii(s@) ==> ascii_upper_of(s@, r@),
{
    s.to_uppercase()
}

impl LogEntryLevel {
    /// Reads a level from text already in upper case; `original` is the
    /// text as it was offered, which an error carries.
    pub fn from_upper(original: &str, upper: &str) -> (r: Result<LogEntryLevel, LevelError>)
        ensures
            parse_outcome(r, original@, upper@),
    {
        proof {
            reveal_strlit("DEBUG");
            reveal_strlit("INFO");
            reveal_strlit("WARN");
            reveal_strlit("ERROR");
        }
        if same_text(upper, "DEBUG") {
            Ok(LogEntryLevel::DEBUG)
        } else if same_text(upper, "INFO") {
            Ok(LogEntryLevel::INFO)
        } else if same_text(upper, "WARN") {
            Ok(LogEntryLevel::WARN)
        } else if same_text(upper, "ERROR") {
            Ok(LogEntryLevel::ERROR)
        } else {
            Err(LevelError::InvalidLevel(original.to_owned()))
        }
    }

    /// Reads a level name in any letter case.
    pub fn from_string(s: &str) -> (r: Result<LogEntryLevel, LevelError>)
        ensures
            parse_outcome(r, s@, upper_of(s@)),
            all_ascii(s@) ==> exists|u: Seq<char>| ascii_upper_of(s@, u) && parse_outcome(r, s@, u),
    {
        let upper = to_upper(s);
        LogEntryLevel::from_upper(s, upper.as_str())
    }

    /// The minimum level in force: the level named by the environment value
    /// when one is set, else the configured minimum. A set value that names
    /// no level is an error.
    pub fn from_env(env_value: Option<&str>, configured: LogEntryLevel) -> (r: Result<
        LogEntryLevel,
        LevelError,
    >)
        ensures
            match env_value {
                None => r == Ok::<LogEntryLevel, LevelError>(configured),
                Some(v) => parse_outcome(r, v@, upper_of(v@)),
            },
            env_value is Some && all_ascii(env_value->0@) ==> exists|u: Seq<char>|
                ascii_upper_of(env_value->0@, u) && parse_outcome(r, env_value->0@, u),
    {
        match env_value {
            None => Ok(configured),
            Some(v) => LogEntryLevel::from_string(v),
        }
    }

    /// Severity as a number: DEBUG 0, INFO 1, WARN 2, ERROR 3.
    pub fn severity(self) -> (r: u8)
        ensures
            r as int == severity(self),
    {
        match self {
            LogEntryLevel::DEBUG => 0,
            LogEntryLevel::INFO => 1,
            LogEntryLevel::WARN => 2,
            LogEntryLevel::ERROR => 3,
        }
    }

    /// The upper-case name of the level.
    pub fn name(self) -> (r: &'static str)
        ensures
            r@ == level_name(self),
    {
        match self {
            LogEntryLevel::DEBUG => "DEBUG",
            LogEntryLevel::INFO => "INFO",
            LogEntryLevel::WARN => "WARN",
            LogEntryLevel::ERROR => "ERROR",
        }
    }
}

/// Whether a message at `candidate` passes the configured `minimum`.
pub fn should_emit(candidate: LogEntryLevel, minimum: LogEntryLevel) -> (r: bool)
    ensures
        r == emits(candidate, minimum),
{
    candidate.severity() >= minimum.severity()
}

/// The view of an optional string.
pub open spec fn opt_view(o: Option<&str>) -> Option<Seq<char>> {
    match o {
        Some(v) => Some(v@),
        None => None,
    }
}

/// The minimum in force for gating, given the environment value: `None`
/// where the value names no level.
pub open spec fn filter_minimum(env: Option<Seq<char>>, configured: LogEntryLevel) -> Option<
    LogEntryLevel,
> {
    match env {
        None => Some(configured),
        Some(v) => level_named(upper_of(v)),
    }
}

/// The level filter of the leveled operations: a value that names no level lets
/// nothing through.
pub open spec fn filter_open(
    env: Option<Seq<char>>,
    configured: LogEntryLevel,
    candidate: LogEntryLevel,
) -> bool {
    match filter_minimum(env, configured) {
        Some(m) => emits(candidate, m),
        None => false,
    }
}

/// Decides whether a leveled message is emitted; a bad environment value
/// silences the message instead of failing.
pub fn passes_filter(env_value: Option<&str>, configured: LogEntryLevel, candidate: LogEntryLevel) -> (r:
    bool)
    ensures
        r == filter_open(opt_view(env_value), configured, candidate),
{
    match LogEntryLevel::from_env(env_value, configured) {
        Ok(m) => should_emit(candidate, m),
        Err(_) => false,
    }
}

/// `s` spells `name` with each letter in either case.
pub open spec fn case_variant(s: Seq<char>, name: Seq<char>) -> bool {
    &&& s.len() == name.len()
    &&& forall|i: int|
        0 <= i < s.len() ==> s[i] == name[i] || ('A' <= name[i] && name[i] <= 'Z' && (s[i] as int)
            == (name[i] as int) + 32)
}

/// Level names are read in any letter case: an ASCII string reads as a level
/// exactly when it spells that level's name, and any other ASCII string is
/// refused with an error that carries it.
pub proof fn lemma_names_in_any_case(s: Seq<char>, u: Seq<char>, r: Result<LogEntryLevel, LevelError>)
    requires
        all_ascii(s),
        ascii_upper_of(s, u),
        parse_outcome(r, s, u),
    ensures
        forall|l: LogEntryLevel| r == Ok::<LogEntryLevel, LevelError>(l) <==> case_variant(s, level_name(l)),
        (forall|l: LogEntryLevel| !case_variant(s, level_name(l))) ==> match r {
            Err(LevelError::InvalidLevel(t)) => t@ == s,
            Ok(_) => false,
        },
{
    lemma_name_letters(LogEntryLevel::DEBUG);
    lemma_name_letters(LogEntryLevel::INFO);
    lemma_name_letters(LogEntryLevel::WARN);
    lemma_name_letters(LogEntryLevel::ERROR);
    assert forall|l: LogEntryLevel| case_variant(s, level_name(l)) <==> u == level_name(l) by {
        let n = level_name(l);
        lemma_name_letters(l);
        if case_variant(s, n) {
            assert forall|i: int| 0 <= i < n.len() implies u[i] == n[i] by {
                assert('A' <= n[i] && n[i] <= 'Z');
                if s[i] == n[i] {
                    assert(u[i] == s[i]);
                } else {
                    assert((u[i] as int) == (n[i] as int));
                }
            }
            assert(u =~= n);
        }
        if u == n {
            assert forall|i: int| 0 <= i < s.len() implies s[i] == n[i] || ('A' <= n[i] && n[i] <= 'Z'
                && (s[i] as int) == (n[i] as int) + 32) by {
                assert(u[i] == n[i]);
                assert('A' <= n[i] && n[i] <= 'Z');
            }
        }
    }
}

/// Each level's name is made of upper-case letters, and reads back as that level.
proof fn lemma_name_letters(l: LogEntryLevel)
    ensures
        forall|i: int|
            0 <= i < level_name(l).len() ==> 'A' <= #[trigger] level_name(l)[i] && level_name(l)[i]
                <= 'Z',
        level_named(level_name(l)) == Some(l),
        forall|u: Seq<char>| level_named(u) == Some(l) <==> u == level_name(l),
{
    reveal_strlit("DEBUG");
    reveal_strlit("INFO");
    reveal_strlit("WARN");
    reveal_strlit("ERROR");
    let n = level_name(l);
    assert forall|i: int| 0 <= i < n.len() implies 'A' <= #[trigger] n[i] && n[i] <= 'Z' by {
        match l {
            LogEntryLevel::DEBUG => {
                assert(i == 0 || i == 1 || i == 2 || i == 3 || i == 4);
            },
            LogEntryLevel::INFO => {
                assert(i == 0 || i == 1 || i == 2 || i == 3);
            },
            LogEntryLevel::WARN => {
                assert(i == 0 || i == 1 || i == 2 || i == 3);
            },
            LogEntryLevel::ERROR => {
                assert(i == 0 || i == 1 || i == 2 || i == 3 || i == 4);
            },
        }
    }
    assert("INFO"@ != "WARN"@) by {
        assert("INFO"@[0] != "WARN"@[0]);
    }
    assert("DEBUG"@ != "ERROR"@) by {
        assert("DEBUG"@[0] != "ERROR"@[0]);
    }
    assert("DEBUG"@.len() == 5 && "ERROR"@.len() == 5 && "INFO"@.len() == 4 && "WARN"@.len() == 4);
}

/// Raising the configured minimum never lets more through, and raising it
/// strictly shuts out at least the old minimum itself.
pub proof fn lemma_filter_monotonic(m1: LogEntryLevel, m2: LogEntryLevel, c: LogEntryLevel)
    requires
        severity(m1) <= severity(m2),
    ensures
        emits(c, m2) ==> emits(c, m1),
        severity(m1) < severity(m2) ==> emits(m1, m1) && !emits(m1, m2),
{
}

/// A level named by the environment decides the filter whatever minimum is
/// configured; with no value set the configured minimum decides.
pub proof fn lemma_env_precedence(
    v: Seq<char>,
    configured: LogEntryLevel,
    other: LogEntryLevel,
    c: LogEntryLevel,
)
    ensures
        level_named(upper_of(v)) is Some ==> filter_open(Some(v), configured, c) == filter_open(
            Some(v),
            other,
            c,
        ) && filter_open(Some(v), configured, c) == emits(c, level_named(upper_of(v))->0),
        filter_open(None, configured, c) == emits(c, configured),
{
}

} // verus!
