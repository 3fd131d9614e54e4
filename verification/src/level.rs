//! Verbosity levels and the filter that gates them.

pub mod filter;
pub mod order;
pub mod text;

use vstd::prelude::*;
use vstd::std_specs::cmp::PartialEqSpecImpl;
use vstd::std_specs::cmp::PartialOrdSpecImpl;
use vstd::string::StringExecFns;
use core::cmp::Ordering;
use crate::level::text::{eq_ignore_ascii_case, parsed_number, same_name, small_number};

verus! {

/// The verbosity of a span or event. A more verbose level is greater:
/// `ERROR < WARN < INFO < DEBUG < TRACE`.
#[derive(Copy, Clone, Debug, Eq, Ord, Hash)]
pub enum Level {
    Error,
    Warn,
    Info,
    Debug,
    Trace,
}

/// Returned when a text names no `Level`.
#[derive(Debug)]
pub struct ParseLevelError {
    _p: (),
}

impl ParseLevelError {
    /// The accepted spellings, as a sentence.
    pub fn to_string(&self) -> (r: String)
        ensures
            r@ == "error parsing level: expected one of \"error\", \"warn\", \"info\", \"debug\", \"trace\", or a number 1-5"@,
    {
        String::from_str(
            "error parsing level: expected one of \"error\", \"warn\", \"info\", \"debug\", \"trace\", or a number 1-5",
        )
    }
}

/// The level that a number names: 1 is `ERROR`, 5 is `TRACE`.
pub open spec fn numbered_level(n: nat) -> Option<Level> {
    if n == 1 {
        Some(Level::Error)
    } else if n == 2 {
        Some(Level::Warn)
    } else if n == 3 {
        Some(Level::Info)
    } else if n == 4 {
        Some(Level::Debug)
    } else if n == 5 {
        Some(Level::Trace)
    } else {
        None
    }
}

/// The level that a word names, whatever the case of its letters.
pub open spec fn named_level(s: Seq<char>) -> Option<Level> {
    if eq_ignore_ascii_case(s, "error"@) {
        Some(Level::Error)
    } else if eq_ignore_ascii_case(s, "warn"@) {
        Some(Level::Warn)
    } else if eq_ignore_ascii_case(s, "info"@) {
        Some(Level::Info)
    } else if eq_ignore_ascii_case(s, "debug"@) {
        Some(Level::Debug)
    } else if eq_ignore_ascii_case(s, "trace"@) {
        Some(Level::Trace)
    } else {
        None
    }
}

/// What a text means as a `Level`: a number from 1 to 5, or else a level's
/// name.
pub open spec fn parse_level(s: Seq<char>) -> Option<Level> {
    match parsed_number(s) {
        Some(n) if numbered_level(n) is Some => numbered_level(n),
        _ => named_level(s),
    }
}

pub(crate) fn level_by_name(s: &str) -> (r: Option<Level>)
    ensures
        r == named_level(s@),
{
    if same_name(s, "error") {
        Some(Level::ERROR)
    } else if same_name(s, "warn") {
        Some(Level::WARN)
    } else if same_name(s, "info") {
        Some(Level::INFO)
    } else if same_name(s, "debug") {
        Some(Level::DEBUG)
    } else if same_name(s, "trace") {
        Some(Level::TRACE)
    } else {
        None
    }
}

impl Level {
    /// Designates very serious errors.
    pub const ERROR: Level = Level::Error;

    /// Designates hazardous situations.
    pub const WARN: Level = Level::Warn;

    /// Designates useful information.
    pub const INFO: Level = Level::Info;

    /// Designates lower priority information.
    pub const DEBUG: Level = Level::Debug;

    /// Designates very low priority, often extremely verbose, information.
    pub const TRACE: Level = Level::Trace;

    /// The rank of the level in the order of verbosity, from 1 for `ERROR`
    /// to 5 for `TRACE`. Rank 0 is left to the filter that is off.
    pub open spec fn verbosity(self) -> nat {
        match self {
            Level::Error => 1,
            Level::Warn => 2,
            Level::Info => 3,
            Level::Debug => 4,
            Level::Trace => 5,
        }
    }

    /// The level's name in capitals.
    pub open spec fn name(self) -> Seq<char> {
        match self {
            Level::Error => "ERROR"@,
            Level::Warn => "WARN"@,
            Level::Info => "INFO"@,
            Level::Debug => "DEBUG"@,
            Level::Trace => "TRACE"@,
        }
    }

    /// Returns the string representation of the `Level`.
    pub fn as_str(&self) -> (r: &'static str)
        ensures
            r@ == self.name(),
    {
        match self {
            Level::Trace => "TRACE",
            Level::Debug => "DEBUG",
            Level::Info => "INFO",
            Level::Warn => "WARN",
            Level::Error => "ERROR",
        }
    }

    /// The level's rank as a machine integer.
    pub fn rank(self) -> (n: u8)
        ensures
            n == self.verbosity(),
            1 <= n <= 5,
    {
        match self {
            Level::Error => 1,
            Level::Warn => 2,
            Level::Info => 3,
            Level::Debug => 4,
            Level::Trace => 5,
        }
    }

    /// Reads a level from a number between 1 and 5 or from a level's name in
    /// any case, and fails on every other text.
    pub fn from_str(s: &str) -> (r: Result<Level, ParseLevelError>)
        ensures
            match parse_level(s@) {
                Some(level) => r == Ok::<Level, ParseLevelError>(level),
                None => r is Err,
            },
    {
        let by_number: Option<Level> = match small_number(s) {
            Some(1) => Some(Level::ERROR),
            Some(2) => Some(Level::WARN),
            Some(3) => Some(Level::INFO),
            Some(4) => Some(Level::DEBUG),
            Some(5) => Some(Level::TRACE),
            _ => None,
        };
        let found: Option<Level> = match by_number {
            Some(level) => Some(level),
            None => level_by_name(s),
        };
        match found {
            Some(level) => Ok(level),
            None => Err(ParseLevelError { _p: () }),
        }
    }
}

impl PartialEq for Level {
    fn eq(&self, other: &Level) -> (r: bool) {
        self.rank() == other.rank()
    }
}

impl PartialEqSpecImpl for Level {
    open spec fn obeys_eq_spec() -> bool {
        true
    }

    open spec fn eq_spec(&self, other: &Level) -> bool {
        self.verbosity() == other.verbosity()
    }
}

/// How two ranks compare.
pub open spec fn rank_order(a: nat, b: nat) -> Ordering {
    if a < b {
        Ordering::Less
    } else if a == b {
        Ordering::Equal
    } else {
        Ordering::Greater
    }
}

impl PartialOrd for Level {
    fn partial_cmp(&self, other: &Level) -> (r: Option<Ordering>) {
        let a: u8 = self.rank();
        let b: u8 = other.rank();
        if a < b {
            Some(Ordering::Less)
        } else if a == b {
            Some(Ordering::Equal)
        } else {
            Some(Ordering::Greater)
        }
    }
}

impl PartialOrdSpecImpl for Level {
    open spec fn obeys_partial_cmp_spec() -> bool {
        true
    }

    open spec fn partial_cmp_spec(&self, other: &Level) -> Option<Ordering> {
        Some(rank_order(self.verbosity(), other.verbosity()))
    }
}

} // verus!
