use vstd::prelude::*;

verus! {

/// Severity of a log entry, from the most to the least severe.
#[derive(Debug, Clone, Copy, PartialEq, Eq, Structural)]
pub enum Level {
    Error,
    Warn,
    Info,
    Debug,
    Trace,
}

/// Position of a level in the verbosity order: `Error` is 1, `Trace` is 5.
pub open spec fn verbosity(level: Level) -> nat {
    match level {
        Level::Error => 1,
        Level::Warn => 2,
        Level::Info => 3,
        Level::Debug => 4,
        Level::Trace => 5,
    }
}

/// An entry passes a filter whose minimum severity is `max` when it is at
/// least as severe as `max`.
pub open spec fn passes(level: Level, max: Level) -> bool {
    verbosity(level) <= verbosity(max)
}

/// The level a lower-case level name stands for; every other name means `Info`.
pub open spec fn level_named(name: Seq<char>) -> Level {
    if name == seq!['e', 'r', 'r', 'o', 'r'] {
        Level::Error
    } else if name == seq!['w', 'a', 'r', 'n'] {
        Level::Warn
    } else if name == seq!['d', 'e', 'b', 'u', 'g'] {
        Level::Debug
    } else if name == seq!['t', 'r', 'a', 'c', 'e'] {
        Level::Trace
    } else {
        Level::Info
    }
}

impl Level {
    pub fn verbosity(self) -> (r: u8)
        ensures
            r as nat == verbosity(self),
    {
        match self {
            Level::Error => 1,
            Level::Warn => 2,
            Level::Info => 3,
            Level::Debug => 4,
            Level::Trace => 5,
        }
    }

    /// Whether an entry of this level passes a filter whose minimum severity is `max`.
    pub fn passes(self, max: Level) -> (r: bool)
        ensures
            r == passes(self, max),
    {
        self.verbosity() <= max.verbosity()
    }
}

pub(crate) fn chars_equal(s: &str, lit: &str) -> (r: bool)
    ensures
        r == (s@ == lit@),
{
    let n = s.unicode_len();
    let m = lit.unicode_len();
    if n != m {
        return false;
    }
    let mut i: usize = 0;
    while i < n
        invariant
            n == s@.len(),
            m == lit@.len(),
            n == m,
            i <= n,
            forall|j: int| 0 <= j < i ==> s@[j] == lit@[j],
        decreases n - i,
    {
        if s.get_char(i) != lit.get_char(i) {
            return false;
        }
        i = i + 1;
    }
    assert(s@ =~= lit@);
    true
}

/// Reads a lower-case level name ("error", "warn", "info", "debug", "trace");
/// any other name gives `Info`.
pub fn level_from_name(name: &str) -> (r: Level)
    ensures
        r == level_named(name@),
{
    proof {
        reveal_strlit("error");
        reveal_strlit("warn");
        reveal_strlit("debug");
        reveal_strlit("trace");
        assert("error"@ =~= seq!['e', 'r', 'r', 'o', 'r']);
        assert("warn"@ =~= seq!['w', 'a', 'r', 'n']);
        assert("debug"@ =~= seq!['d', 'e', 'b', 'u', 'g']);
        assert("trace"@ =~= seq!['t', 'r', 'a', 'c', 'e']);
    }
    if chars_equal(name, "error") {
        Level::Error
    } else if chars_equal(name, "warn") {
        Level::Warn
    } else if chars_equal(name, "debug") {
        Level::Debug
    } else if chars_equal(name, "trace") {
        Level::Trace
    } else {
        Level::Info
    }
}

} // verus!
