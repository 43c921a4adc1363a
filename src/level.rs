//! Severity levels and their total order.

use vstd::prelude::*;

verus! {

/// A severity, used both for records and for the minimum severity of a
/// destination. Ordered `Trace < Debug < Info < Warn < Error`.
#[derive(Debug, Clone, Copy, PartialEq, Eq, Structural)]
pub enum Level {
    Trace,
    Debug,
    Info,
    Warn,
    Error,
}

/// The severity of a record as it travels on the wire.
#[derive(Debug, Clone, Copy, PartialEq, Eq, Structural)]
pub enum LogLevel {
    Trace,
    Debug,
    Info,
    Warn,
    Error,
}

/// Position of a level in the severity order.
pub open spec fn rank(level: Level) -> nat {
    match level {
        Level::Trace => 0,
        Level::Debug => 1,
        Level::Info => 2,
        Level::Warn => 3,
        Level::Error => 4,
    }
}

/// Whether `candidate` is at least as severe as `threshold`.
pub open spec fn spec_at_least(candidate: Level, threshold: Level) -> bool {
    rank(candidate) >= rank(threshold)
}

/// The client-side level of a wire severity.
pub open spec fn level_of(level: LogLevel) -> Level {
    match level {
        LogLevel::Trace => Level::Trace,
        LogLevel::Debug => Level::Debug,
        LogLevel::Info => Level::Info,
        LogLevel::Warn => Level::Warn,
        LogLevel::Error => Level::Error,
    }
}

/// The wire severity of a client-side level.
pub open spec fn log_level_of(level: Level) -> LogLevel {
    match level {
        Level::Trace => LogLevel::Trace,
        Level::Debug => LogLevel::Debug,
        Level::Info => LogLevel::Info,
        Level::Warn => LogLevel::Warn,
        Level::Error => LogLevel::Error,
    }
}

/// The SCREAMING_SNAKE_CASE name of a severity.
pub open spec fn level_name(level: LogLevel) -> Seq<char> {
    match level {
        LogLevel::Trace => "TRACE"@,
        LogLevel::Debug => "DEBUG"@,
        LogLevel::Info => "INFO"@,
        LogLevel::Warn => "WARN"@,
        LogLevel::Error => "ERROR"@,
    }
}

/// Numeric position of `level` in the severity order.
pub fn level_int(level: Level) -> (r: u8)
    ensures
        r == rank(level),
{
    match level {
        Level::Trace => 0,
        Level::Debug => 1,
        Level::Info => 2,
        Level::Warn => 3,
        Level::Error => 4,
    }
}

impl Default for Level {
    fn default() -> (r: Level)
        ensures
            r == Level::Trace,
    {
        Level::Trace
    }
}

impl Level {
    /// Whether `self` is at least as severe as `threshold`.
    pub fn at_least(self, threshold: Level) -> (r: bool)
        ensures
            r == spec_at_least(self, threshold),
    {
        level_int(self) >= level_int(threshold)
    }

    /// Compares two levels in the severity order.
    pub fn compare(self, other: Level) -> (r: std::cmp::Ordering)
        ensures
            rank(self) < rank(other) <==> r == std::cmp::Ordering::Less,
            rank(self) == rank(other) <==> r == std::cmp::Ordering::Equal,
            rank(self) > rank(other) <==> r == std::cmp::Ordering::Greater,
    {
        let a = level_int(self);
        let b = level_int(other);
        if a < b {
            std::cmp::Ordering::Less
        } else if a == b {
            std::cmp::Ordering::Equal
        } else {
            std::cmp::Ordering::Greater
        }
    }

    /// The SCREAMING_SNAKE_CASE name of this level.
    pub fn as_str(self) -> (r: &'static str)
        ensures
            r@ == level_name(log_level_of(self)),
    {
        log_level_of_exec(self).as_str()
    }

    /// Parses a SCREAMING_SNAKE_CASE level name.
    pub fn from_name(name: &str) -> (r: Option<Level>)
        ensures
            r matches Some(l) ==> level_name(log_level_of(l)) == name@,
            r is None ==> forall|l: Level| level_name(log_level_of(l)) != name@,
    {
        match LogLevel::from_name(name) {
            Some(l) => {
                let c = Level::from(l);
                proof {
                    assert(log_level_of(level_of(l)) == l);
                }
                Some(c)
            },
            None => {
                assert forall|l: Level| level_name(log_level_of(l)) != name@ by {
                    assert(level_name(log_level_of(l)) != name@);
                }
                None
            },
        }
    }
}

fn log_level_of_exec(level: Level) -> (r: LogLevel)
    ensures
        r == log_level_of(level),
{
    match level {
        Level::Trace => LogLevel::Trace,
        Level::Debug => LogLevel::Debug,
        Level::Info => LogLevel::Info,
        Level::Warn => LogLevel::Warn,
        Level::Error => LogLevel::Error,
    }
}

impl From<LogLevel> for Level {
    fn from(value: LogLevel) -> (r: Level) {
        match value {
            LogLevel::Trace => Level::Trace,
            LogLevel::Debug => Level::Debug,
            LogLevel::Info => Level::Info,
            LogLevel::Warn => Level::Warn,
            LogLevel::Error => Level::Error,
        }
    }
}

impl vstd::std_specs::convert::FromSpecImpl<LogLevel> for Level {
    open spec fn obeys_from_spec() -> bool {
        true
    }

    open spec fn from_spec(v: LogLevel) -> Level {
        level_of(v)
    }
}

impl From<Level> for LogLevel {
    fn from(value: Level) -> (r: LogLevel) {
        log_level_of_exec(value)
    }
}

impl vstd::std_specs::convert::FromSpecImpl<Level> for LogLevel {
    open spec fn obeys_from_spec() -> bool {
        true
    }

    open spec fn from_spec(v: Level) -> LogLevel {
        log_level_of(v)
    }
}

impl LogLevel {
    /// The SCREAMING_SNAKE_CASE name of this severity.
    pub fn as_str(self) -> (r: &'static str)
        ensures
            r@ == level_name(self),
    {
        match self {
            LogLevel::Trace => "TRACE",
            LogLevel::Debug => "DEBUG",
            LogLevel::Info => "INFO",
            LogLevel::Warn => "WARN",
            LogLevel::Error => "ERROR",
        }
    }

    /// Parses a SCREAMING_SNAKE_CASE severity name.
    pub fn from_name(name: &str) -> (r: Option<LogLevel>)
        ensures
            r matches Some(l) ==> level_name(l) == name@,
            r is None ==> forall|l: LogLevel| level_name(l) != name@,
    {
        let candidates: [LogLevel; 5] = [
            LogLevel::Trace,
            LogLevel::Debug,
            LogLevel::Info,
            LogLevel::Warn,
            LogLevel::Error,
        ];
        let mut i: usize = 0;
        while i < 5
            invariant
                0 <= i <= 5,
                candidates@ == seq![
                    LogLevel::Trace,
                    LogLevel::Debug,
                    LogLevel::Info,
                    LogLevel::Warn,
                    LogLevel::Error,
                ],
                forall|j: int| 0 <= j < i ==> level_name(#[trigger] candidates@[j]) != name@,
            decreases 5 - i,
        {
            let c = candidates[i];
            if str_eq(c.as_str(), name) {
                return Some(c);
            }
            i = i + 1;
        }
        assert forall|l: LogLevel| level_name(l) != name@ by {
            let j: int = match l {
                LogLevel::Trace => 0,
                LogLevel::Debug => 1,
                LogLevel::Info => 2,
                LogLevel::Warn => 3,
                LogLevel::Error => 4,
            };
            assert(candidates@[j] == l);
        }
        None
    }
}

/// Character-wise equality of two strings.
pub fn str_eq(a: &str, b: &str) -> (r: bool)
    ensures
        r == (a@ == b@),
{
    let n = a.unicode_len();
    if n != b.unicode_len() {
        return false;
    }
    let mut i: usize = 0;
    while i < n
        invariant
            n == a@.len(),
            n == b@.len(),
            0 <= i <= n,
            a@.subrange(0, i as int) == b@.subrange(0, i as int),
        decreases n - i,
    {
        if a.get_char(i) != b.get_char(i) {
            assert(a@[i as int] != b@[i as int]);
            return false;
        }
        assert(a@.subrange(0, i + 1) == a@.subrange(0, i as int).push(a@[i as int]));
        assert(b@.subrange(0, i + 1) == b@.subrange(0, i as int).push(b@[i as int]));
        i = i + 1;
    }
    assert(a@ == a@.subrange(0, n as int));
    assert(b@ == b@.subrange(0, n as int));
    true
}

} // verus!
