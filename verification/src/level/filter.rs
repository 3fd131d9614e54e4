//! The level filter, and the published maximum level.

use vstd::prelude::*;
use vstd::std_specs::cmp::PartialEqSpecImpl;
use vstd::std_specs::cmp::PartialOrdSpecImpl;
use vstd::std_specs::convert::FromSpecImpl;
use vstd::string::StringExecFns;
use core::cmp::Ordering;
use crate::level::{level_by_name, named_level, rank_order, Level};
use crate::level::text::{all_digits, digit_value, eq_ignore_ascii_case, parsed_number, small_number, unsigned_digits};

verus! {

/// A filter comparable to a verbosity `Level`: a level, or `OFF`, which is
/// below every level. `OFF < ERROR < WARN < INFO < DEBUG < TRACE`.
#[derive(Copy, Clone, Debug, Eq, Ord, Hash)]
pub enum LevelFilter {
    Off,
    Error,
    Warn,
    Info,
    Debug,
    Trace,
}

/// Indicates that a string could not be parsed to a valid level filter.
#[derive(Debug)]
pub struct ParseLevelFilterError(());

impl ParseLevelFilterError {
    /// The accepted spellings, as a sentence.
    pub fn to_string(&self) -> (r: String)
        ensures
            r@ == "error parsing level filter: expected one of \"off\", \"error\", \"warn\", \"info\", \"debug\", \"trace\", or a number 0-5"@,
    {
        String::from_str(
            "error parsing level filter: expected one of \"off\", \"error\", \"warn\", \"info\", \"debug\", \"trace\", or a number 0-5",
        )
    }
}

/// The filter of a given rank: 0 is `OFF`, 5 is `TRACE`.
pub open spec fn numbered_filter(n: nat) -> Option<LevelFilter> {
    if n == 0 {
        Some(LevelFilter::Off)
    } else if n == 1 {
        Some(LevelFilter::Error)
    } else if n == 2 {
        Some(LevelFilter::Warn)
    } else if n == 3 {
        Some(LevelFilter::Info)
    } else if n == 4 {
        Some(LevelFilter::Debug)
    } else if n == 5 {
        Some(LevelFilter::Trace)
    } else {
        None
    }
}

/// The filter that a word names: the empty word stands for `ERROR`, a
/// level's name for that level, and "off" for `OFF`, in any case of letters.
pub open spec fn named_filter(s: Seq<char>) -> Option<LevelFilter> {
    if s.len() == 0 {
        Some(LevelFilter::Error)
    } else {
        match named_level(s) {
            Some(level) => Some(LevelFilter::of_level(level)),
            None => if eq_ignore_ascii_case(s, "off"@) {
                Some(LevelFilter::Off)
            } else {
                None
            },
        }
    }
}

/// What a text means as a `LevelFilter`: a number from 0 to 5, or else a
/// filter's name.
pub open spec fn parse_filter(s: Seq<char>) -> Option<LevelFilter> {
    match parsed_number(s) {
        Some(n) if numbered_filter(n) is Some => numbered_filter(n),
        _ => named_filter(s),
    }
}

impl LevelFilter {
    /// Designates that trace instrumentation should be completely disabled.
    pub const OFF: LevelFilter = LevelFilter::Off;

    /// Designates very serious errors.
    pub const ERROR: LevelFilter = LevelFilter::Error;

    /// Designates hazardous situations.
    pub const WARN: LevelFilter = LevelFilter::Warn;

    /// Designates useful information.
    pub const INFO: LevelFilter = LevelFilter::Info;

    /// Designates lower priority information.
    pub const DEBUG: LevelFilter = LevelFilter::Debug;

    /// Designates very low priority, often extremely verbose, information.
    pub const TRACE: LevelFilter = LevelFilter::Trace;

    /// The rank of the filter in the one order that filters and levels
    /// share: 0 for `OFF`, and the level's rank otherwise.
    pub open spec fn verbosity(self) -> nat {
        match self {
            LevelFilter::Off => 0,
            LevelFilter::Error => 1,
            LevelFilter::Warn => 2,
            LevelFilter::Info => 3,
            LevelFilter::Debug => 4,
            LevelFilter::Trace => 5,
        }
    }

    /// The filter that admits everything up to and including `level`.
    pub open spec fn of_level(level: Level) -> LevelFilter {
        match level {
            Level::Error => LevelFilter::Error,
            Level::Warn => LevelFilter::Warn,
            Level::Info => LevelFilter::Info,
            Level::Debug => LevelFilter::Debug,
            Level::Trace => LevelFilter::Trace,
        }
    }

    /// The most verbose level that the filter admits, if any.
    pub open spec fn level(self) -> Option<Level> {
        match self {
            LevelFilter::Off => None,
            LevelFilter::Error => Some(Level::Error),
            LevelFilter::Warn => Some(Level::Warn),
            LevelFilter::Info => Some(Level::Info),
            LevelFilter::Debug => Some(Level::Debug),
            LevelFilter::Trace => Some(Level::Trace),
        }
    }

    /// The filter's name in small letters, as it is displayed.
    pub open spec fn name(self) -> Seq<char> {
        match self {
            LevelFilter::Off => "off"@,
            LevelFilter::Error => "error"@,
            LevelFilter::Warn => "warn"@,
            LevelFilter::Info => "info"@,
            LevelFilter::Debug => "debug"@,
            LevelFilter::Trace => "trace"@,
        }
    }

    /// Returns a `LevelFilter` that enables spans and events with verbosity
    /// up to and including `level`.
    pub fn from_level(level: Level) -> (r: LevelFilter)
        ensures
            r == LevelFilter::of_level(level),
            r.verbosity() == level.verbosity(),
            r.level() == Some(level),
    {
        match level {
            Level::Error => LevelFilter::Error,
            Level::Warn => LevelFilter::Warn,
            Level::Info => LevelFilter::Info,
            Level::Debug => LevelFilter::Debug,
            Level::Trace => LevelFilter::Trace,
        }
    }

    /// Returns the most verbose `Level` that this filter accepts, or `None`
    /// if it is `OFF`.
    pub fn into_level(self) -> (r: Option<Level>)
        ensures
            r == self.level(),
            r is None <==> self == LevelFilter::Off,
            r matches Some(level) ==> LevelFilter::of_level(level) == self,
    {
        match self {
            LevelFilter::Off => None,
            LevelFilter::Error => Some(Level::Error),
            LevelFilter::Warn => Some(Level::Warn),
            LevelFilter::Info => Some(Level::Info),
            LevelFilter::Debug => Some(Level::Debug),
            LevelFilter::Trace => Some(Level::Trace),
        }
    }

    /// The filter's rank as a machine integer.
    pub fn rank(self) -> (n: u8)
        ensures
            n == self.verbosity(),
            n <= 5,
    {
        match self {
            LevelFilter::Off => 0,
            LevelFilter::Error => 1,
            LevelFilter::Warn => 2,
            LevelFilter::Info => 3,
            LevelFilter::Debug => 4,
            LevelFilter::Trace => 5,
        }
    }

    /// The filter's name as it is displayed: "off", "error", "warn", "info",
    /// "debug" or "trace".
    pub fn as_str(&self) -> (r: &'static str)
        ensures
            r@ == self.name(),
    {
        match self {
            LevelFilter::Off => "off",
            LevelFilter::Error => "error",
            LevelFilter::Warn => "warn",
            LevelFilter::Info => "info",
            LevelFilter::Debug => "debug",
            LevelFilter::Trace => "trace",
        }
    }

    /// The displayed form as an owned string.
    pub fn to_string(&self) -> (r: String)
        ensures
            r@ == self.name(),
    {
        String::from_str(self.as_str())
    }

    /// Reads a filter from a number between 0 and 5 or from a filter's name
    /// in any case. The empty text reads as `ERROR`. Every other text fails.
    pub fn from_str(from: &str) -> (r: Result<LevelFilter, ParseLevelFilterError>)
        ensures
            match parse_filter(from@) {
                Some(filter) => r == Ok::<LevelFilter, ParseLevelFilterError>(filter),
                None => r is Err,
            },
    {
        let by_number: Option<LevelFilter> = match small_number(from) {
            Some(0) => Some(LevelFilter::OFF),
            Some(1) => Some(LevelFilter::ERROR),
            Some(2) => Some(LevelFilter::WARN),
            Some(3) => Some(LevelFilter::INFO),
            Some(4) => Some(LevelFilter::DEBUG),
            Some(5) => Some(LevelFilter::TRACE),
            _ => None,
        };
        let found: Option<LevelFilter> = match by_number {
            Some(filter) => Some(filter),
            None => {
                if from.unicode_len() == 0 {
                    Some(LevelFilter::ERROR)
                } else {
                    match level_by_name(from) {
                        Some(level) => Some(LevelFilter::from_level(level)),
                        None => if crate::level::text::same_name(from, "off") {
                            Some(LevelFilter::OFF)
                        } else {
                            None
                        },
                    }
                }
            },
        };
        match found {
            Some(filter) => Ok(filter),
            None => Err(ParseLevelFilterError(())),
        }
    }
}

impl From<Level> for LevelFilter {
    fn from(level: Level) -> (r: LevelFilter) {
        LevelFilter::from_level(level)
    }
}

impl FromSpecImpl<Level> for LevelFilter {
    open spec fn obeys_from_spec() -> bool {
        true
    }

    open spec fn from_spec(level: Level) -> LevelFilter {
        LevelFilter::of_level(level)
    }
}

impl From<Option<Level>> for LevelFilter {
    fn from(level: Option<Level>) -> (r: LevelFilter) {
        match level {
            Some(level) => LevelFilter::from_level(level),
            None => LevelFilter::Off,
        }
    }
}

impl FromSpecImpl<Option<Level>> for LevelFilter {
    open spec fn obeys_from_spec() -> bool {
        true
    }

    open spec fn from_spec(level: Option<Level>) -> LevelFilter {
        match level {
            Some(level) => LevelFilter::of_level(level),
            None => LevelFilter::Off,
        }
    }
}

impl From<LevelFilter> for Option<Level> {
    fn from(filter: LevelFilter) -> (r: Option<Level>) {
        filter.into_level()
    }
}

impl FromSpecImpl<LevelFilter> for Option<Level> {
    open spec fn obeys_from_spec() -> bool {
        true
    }

    open spec fn from_spec(filter: LevelFilter) -> Option<Level> {
        filter.level()
    }
}

impl PartialEq for LevelFilter {
    fn eq(&self, other: &LevelFilter) -> (r: bool) {
        self.rank() == other.rank()
    }
}

impl PartialEqSpecImpl for LevelFilter {
    open spec fn obeys_eq_spec() -> bool {
        true
    }

    open spec fn eq_spec(&self, other: &LevelFilter) -> bool {
        self.verbosity() == other.verbosity()
    }
}

impl PartialEq<LevelFilter> for Level {
    fn eq(&self, other: &LevelFilter) -> (r: bool) {
        self.rank() == other.rank()
    }
}

impl PartialEqSpecImpl<LevelFilter> for Level {
    open spec fn obeys_eq_spec() -> bool {
        true
    }

    open spec fn eq_spec(&self, other: &LevelFilter) -> bool {
        self.verbosity() == other.verbosity()
    }
}

impl PartialEq<Level> for LevelFilter {
    fn eq(&self, other: &Level) -> (r: bool) {
        self.rank() == other.rank()
    }
}

impl PartialEqSpecImpl<Level> for LevelFilter {
    open spec fn obeys_eq_spec() -> bool {
        true
    }

    open spec fn eq_spec(&self, other: &Level) -> bool {
        self.verbosity() == other.verbosity()
    }
}

impl PartialOrd for LevelFilter {
    fn partial_cmp(&self, other: &LevelFilter) -> (r: Option<Ordering>) {
        let a: u8 = self.rank();
        let b: u8 = other.rank();
        if a < b {
            Some(Ordering::Less)
        } else if a == b {
            Some(Ordering::Equal)
        } else {
            Some(Ordering::Greater)
        }
    }
}

impl PartialOrdSpecImpl for LevelFilter {
    open spec fn obeys_partial_cmp_spec() -> bool {
        true
    }

    open spec fn partial_cmp_spec(&self, other: &LevelFilter) -> Option<Ordering> {
        Some(rank_order(self.verbosity(), other.verbosity()))
    }
}

impl PartialOrd<LevelFilter> for Level {
    fn partial_cmp(&self, other: &LevelFilter) -> (r: Option<Ordering>) {
        let a: u8 = self.rank();
        let b: u8 = other.rank();
        if a < b {
            Some(Ordering::Less)
        } else if a == b {
            Some(Ordering::Equal)
        } else {
            Some(Ordering::Greater)
        }
    }
}

impl PartialOrdSpecImpl<LevelFilter> for Level {
    open spec fn obeys_partial_cmp_spec() -> bool {
        true
    }

    open spec fn partial_cmp_spec(&self, other: &LevelFilter) -> Option<Ordering> {
        Some(rank_order(self.verbosity(), other.verbosity()))
    }
}

impl PartialOrd<Level> for LevelFilter {
    fn partial_cmp(&self, other: &Level) -> (r: Option<Ordering>) {
        let a: u8 = self.rank();
        let b: u8 = other.rank();
        if a < b {
            Some(Ordering::Less)
        } else if a == b {
            Some(Ordering::Equal)
        } else {
            Some(Ordering::Greater)
        }
    }
}

impl PartialOrdSpecImpl<Level> for LevelFilter {
    open spec fn obeys_partial_cmp_spec() -> bool {
        true
    }

    open spec fn partial_cmp_spec(&self, other: &Level) -> Option<Ordering> {
        Some(rank_order(self.verbosity(), other.verbosity()))
    }
}

/// The integer under which a filter is published: 0 for `TRACE` up to 4 for
/// `ERROR`, and 5 where there is no level, which is `OFF`.
pub fn filter_as_usize(x: &Option<Level>) -> (n: usize)
    ensures
        n == match *x {
            Some(level) => 5 - level.verbosity(),
            None => 5,
        },
        n <= 5,
{
    match x {
        Some(Level::Trace) => 0,
        Some(Level::Debug) => 1,
        Some(Level::Info) => 2,
        Some(Level::Warn) => 3,
        Some(Level::Error) => 4,
        None => 5,
    }
}

/// The statically configured maximum trace level: nothing more verbose is
/// ever enabled.
pub const STATIC_MAX_LEVEL: LevelFilter = LevelFilter::Trace;

/// The maximum level once it is resolved: what is published where something
/// is; otherwise the global collector's hint, `TRACE` where it gave none,
/// and `OFF` where there is no such collector.
pub open spec fn resolved_max(
    published: Option<LevelFilter>,
    hint: Option<Option<LevelFilter>>,
) -> LevelFilter {
    match published {
        Some(filter) => filter,
        None => match hint {
            Some(answer) => hint_or_trace(answer),
            None => LevelFilter::Off,
        },
    }
}

/// Whether a span or event of the given level may be enabled at all: its
/// level is above neither the static maximum nor the current maximum level,
/// which is resolved and published as `LevelFilter::current` does.
pub fn level_enabled(level: Level, published: &mut MaxLevel, hint: Option<Option<LevelFilter>>) -> (r:
    bool)
    ensures
        r == (level.verbosity() <= STATIC_MAX_LEVEL.verbosity() && level.verbosity()
            <= resolved_max(old(published)@, hint).verbosity()),
        final(published)@ == Some(resolved_max(old(published)@, hint)),
{
    let current: LevelFilter = LevelFilter::current(published, hint);
    level.rank() <= STATIC_MAX_LEVEL.rank() && level.rank() <= current.rank()
}

/// The hint of a collector that may decline to give one: a collector without
/// a hint may enable every level.
pub open spec fn hint_or_trace(hint: Option<LevelFilter>) -> LevelFilter {
    match hint {
        Some(filter) => filter,
        None => LevelFilter::Trace,
    }
}

/// The integer that stands for "never computed" in the published maximum.
pub const UNSET_USIZE: usize = usize::MAX;

/// The published maximum level: the most verbose level that any active
/// collector may enable. It is one small integer, either the integer of a
/// filter or the one that stands for "never computed".
pub struct MaxLevel {
    repr: usize,
}

impl View for MaxLevel {
    type V = Option<LevelFilter>;

    /// The published filter, or `None` while none was computed.
    closed spec fn view(&self) -> Option<LevelFilter> {
        if self.repr == 0 {
            Some(LevelFilter::Trace)
        } else if self.repr == 1 {
            Some(LevelFilter::Debug)
        } else if self.repr == 2 {
            Some(LevelFilter::Info)
        } else if self.repr == 3 {
            Some(LevelFilter::Warn)
        } else if self.repr == 4 {
            Some(LevelFilter::Error)
        } else if self.repr == 5 {
            Some(LevelFilter::Off)
        } else {
            None
        }
    }
}

impl MaxLevel {
    #[verifier::type_invariant]
    spec fn known_repr(self) -> bool {
        self.repr <= 5 || self.repr == UNSET_USIZE
    }

    /// A maximum that was never computed.
    pub fn new() -> (r: MaxLevel)
        ensures
            r@ is None,
    {
        MaxLevel { repr: UNSET_USIZE }
    }

    /// Whether no maximum was computed yet, so that the next call of
    /// `LevelFilter::current` has to be given the global collector's hint.
    /// Once a maximum is published, only `LevelFilter::set_max` changes it.
    pub fn is_unset(&self) -> (r: bool)
        ensures
            r == (self@ is None),
    {
        proof {
            use_type_invariant(self);
        }
        self.repr == UNSET_USIZE
    }

    /// The published filter, if one was computed.
    pub fn get(&self) -> (r: Option<LevelFilter>)
        ensures
            r == self@,
    {
        proof {
            use_type_invariant(self);
        }
        if self.repr == 0 {
            Some(LevelFilter::Trace)
        } else if self.repr == 1 {
            Some(LevelFilter::Debug)
        } else if self.repr == 2 {
            Some(LevelFilter::Info)
        } else if self.repr == 3 {
            Some(LevelFilter::Warn)
        } else if self.repr == 4 {
            Some(LevelFilter::Error)
        } else if self.repr == 5 {
            Some(LevelFilter::Off)
        } else {
            None
        }
    }
}

impl LevelFilter {
    /// Returns the filter that matches the most verbose level that any
    /// active collector will enable.
    ///
    /// Where a maximum is published, it is returned and `hint` is not looked
    /// at. Where none was computed yet, `hint` is what the global collector
    /// answered when asked for its maximum level: `None` where there is no
    /// such collector, which gives `OFF`; otherwise the collector's hint, or
    /// `TRACE` where it gave none. The result is published and returned.
    pub fn current(published: &mut MaxLevel, hint: Option<Option<LevelFilter>>) -> (r: LevelFilter)
        ensures
            r == resolved_max(old(published)@, hint),
            final(published)@ == Some(r),
            match (old(published)@, hint) {
                (Some(filter), _) => r == filter && final(published)@ == old(published)@,
                (None, Some(answer)) => r == hint_or_trace(answer) && final(published)@ == Some(
                    r,
                ),
                (None, None) => r == LevelFilter::Off && final(published)@ == Some(r),
            },
    {
        match published.get() {
            Some(filter) => filter,
            None => {
                let max_level: LevelFilter = match hint {
                    Some(Some(filter)) => filter,
                    Some(None) => LevelFilter::TRACE,
                    None => LevelFilter::OFF,
                };
                LevelFilter::set_max(published, max_level);
                max_level
            },
        }
    }

    /// Publishes `filter` as the maximum level.
    pub fn set_max(published: &mut MaxLevel, filter: LevelFilter)
        ensures
            final(published)@ == Some(filter),
    {
        let val: usize = filter_as_usize(&filter.into_level());
        published.repr = val;
    }
}

/// Displaying a filter and reading the text back gives the same filter.
pub proof fn lemma_display_round_trip(f: LevelFilter)
    ensures
        parse_filter(f.name()) == Some(f),
{
    reveal_strlit("off");
    reveal_strlit("error");
    reveal_strlit("warn");
    reveal_strlit("info");
    reveal_strlit("debug");
    reveal_strlit("trace");
    let s = f.name();
    assert(unsigned_digits(s) == s);
    assert(digit_value(s[0]) is None);
    assert(!all_digits(s));
    assert(parsed_number(s) is None);
    assert(eq_ignore_ascii_case(s, s));
    match f {
        LevelFilter::Off => {},
        LevelFilter::Error => {},
        LevelFilter::Warn => {},
        LevelFilter::Info => {},
        LevelFilter::Debug => {
            assert("debug"@[0] == 'd' && "error"@[0] == 'e');
            assert(!eq_ignore_ascii_case(s, "error"@));
        },
        LevelFilter::Trace => {
            assert("trace"@[0] == 't' && "error"@[0] == 'e' && "debug"@[0] == 'd');
            assert(!eq_ignore_ascii_case(s, "error"@));
            assert(!eq_ignore_ascii_case(s, "debug"@));
        },
    }
}

} // verus!
