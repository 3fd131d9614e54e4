//! The one order of levels and filters.

use vstd::prelude::*;
use vstd::std_specs::cmp::PartialOrdSpec;
use core::cmp::Ordering;
use crate::level::Level;
use crate::level::filter::LevelFilter;

verus! {

/// Levels and filters stand in one total order, that of their ranks:
/// `OFF < ERROR < WARN < INFO < DEBUG < TRACE`. `OFF` is below every level,
/// nothing is below `ERROR` but `OFF`, `ERROR` is below every other level,
/// and a filter made from a level compares as that level does.
pub proof fn lemma_single_total_order(a: Level, b: Level, f: LevelFilter)
    ensures
        Level::Trace.partial_cmp_spec(&Level::Debug) == Some(Ordering::Greater),
        Level::Debug.partial_cmp_spec(&Level::Info) == Some(Ordering::Greater),
        Level::Info.partial_cmp_spec(&Level::Warn) == Some(Ordering::Greater),
        Level::Warn.partial_cmp_spec(&Level::Error) == Some(Ordering::Greater),
        LevelFilter::Off.partial_cmp_spec(&LevelFilter::Error) == Some(Ordering::Less),
        LevelFilter::Off.partial_cmp_spec(&a) == Some(Ordering::Less),
        a.partial_cmp_spec(&LevelFilter::Off) == Some(Ordering::Greater),
        LevelFilter::Error.partial_cmp_spec(&a) != Some(Ordering::Greater),
        a != Level::Error ==> LevelFilter::Error.partial_cmp_spec(&a) == Some(Ordering::Less),
        a != Level::Error ==> Level::Error.partial_cmp_spec(&a) == Some(Ordering::Less),
        a.partial_cmp_spec(&b) == LevelFilter::of_level(a).partial_cmp_spec(&b),
        a.partial_cmp_spec(&b) == a.partial_cmp_spec(&LevelFilter::of_level(b)),
        a.partial_cmp_spec(&b) == LevelFilter::of_level(a).partial_cmp_spec(
            &LevelFilter::of_level(b),
        ),
        a.partial_cmp_spec(&b) == Some(Ordering::Equal) <==> a == b,
        a.partial_cmp_spec(&f) == Some(Ordering::Equal) <==> f == LevelFilter::of_level(a),
        a.partial_cmp_spec(&b) == Some(Ordering::Less) <==> b.partial_cmp_spec(&a) == Some(
            Ordering::Greater,
        ),
        a.partial_cmp_spec(&f) == Some(Ordering::Less) <==> f.partial_cmp_spec(&a) == Some(
            Ordering::Greater,
        ),
{
}

/// The comparison is transitive across levels and filters.
pub proof fn lemma_order_transitive(a: LevelFilter, b: LevelFilter, c: LevelFilter)
    requires
        a.partial_cmp_spec(&b) != Some(Ordering::Greater),
        b.partial_cmp_spec(&c) != Some(Ordering::Greater),
    ensures
        a.partial_cmp_spec(&c) != Some(Ordering::Greater),
        a.partial_cmp_spec(&c) == Some(Ordering::Equal) ==> a == b && b == c,
{
}

} // verus!
