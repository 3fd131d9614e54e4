//! What a collector may answer about a callsite, and what a collector is.

use vstd::prelude::*;
use crate::dispatch::Dispatch;
use crate::event::Event;
use crate::level::filter::LevelFilter;
use crate::metadata::Metadata;
use crate::span::{Attributes, Current, Id, Record, DISABLED_SPAN};

verus! {

/// Whether a collector wants the spans or events of one callsite: never,
/// always, or sometimes, in which case it is asked again at each occurrence.
#[derive(Copy, Clone, Debug, PartialEq, Eq, Structural)]
pub enum Interest {
    Never,
    Sometimes,
    Always,
}

impl Interest {
    /// The collector never wants the callsite.
    pub fn never() -> (r: Interest)
        ensures
            r == Interest::Never,
    {
        Interest::Never
    }

    /// The collector decides at each occurrence.
    pub fn sometimes() -> (r: Interest)
        ensures
            r == Interest::Sometimes,
    {
        Interest::Sometimes
    }

    /// The collector always wants the callsite.
    pub fn always() -> (r: Interest)
        ensures
            r == Interest::Always,
    {
        Interest::Always
    }

    pub fn is_never(&self) -> (r: bool)
        ensures
            r == (*self == Interest::Never),
    {
        matches!(self, Interest::Never)
    }

    pub fn is_sometimes(&self) -> (r: bool)
        ensures
            r == (*self == Interest::Sometimes),
    {
        matches!(self, Interest::Sometimes)
    }

    pub fn is_always(&self) -> (r: bool)
        ensures
            r == (*self == Interest::Always),
    {
        matches!(self, Interest::Always)
    }

    /// The interest of two collectors together: what both say where they
    /// agree, and `Sometimes` where they differ.
    pub open spec fn spec_and(self, rhs: Interest) -> Interest {
        if self == rhs {
            self
        } else {
            Interest::Sometimes
        }
    }

    /// Combines the interest of two collectors.
    pub fn and(self, rhs: Interest) -> (r: Interest)
        ensures
            r == self.spec_and(rhs),
    {
        if self == rhs {
            self
        } else {
            Interest::Sometimes
        }
    }
}

/// The interest of any number of collectors together. Nobody is interested
/// in what no collector was asked about. Otherwise the answer is `Never`
/// where all say `Never`, `Always` where all say `Always`, and `Sometimes`
/// in every other case.
pub open spec fn combined(answers: Seq<Interest>) -> Interest {
    if answers.len() == 0 {
        Interest::Never
    } else if forall|i: int| 0 <= i < answers.len() ==> answers[i] == Interest::Never {
        Interest::Never
    } else if forall|i: int| 0 <= i < answers.len() ==> answers[i] == Interest::Always {
        Interest::Always
    } else {
        Interest::Sometimes
    }
}

/// One more answer joins the others by `and`.
pub proof fn lemma_combined_push(answers: Seq<Interest>, next: Interest)
    ensures
        combined(answers.push(next)) == if answers.len() == 0 {
            next
        } else {
            combined(answers).spec_and(next)
        },
{
    let all = answers.push(next);
    assert(all[answers.len() as int] == next);
    assert forall|i: int| 0 <= i < answers.len() implies all[i] == answers[i] by {}
    if answers.len() == 0 {
        if next == Interest::Sometimes {
            assert(all[0] == Interest::Sometimes);
        }
    } else {
        if forall|i: int| 0 <= i < answers.len() ==> answers[i] == Interest::Never {
            assert(answers[0] == Interest::Never);
            if next == Interest::Never {
                assert forall|i: int| 0 <= i < all.len() implies all[i] == Interest::Never by {
                    if i < answers.len() {
                        assert(all[i] == answers[i]);
                    }
                }
            } else {
                assert(all[0] == answers[0]);
            }
        } else if forall|i: int| 0 <= i < answers.len() ==> answers[i] == Interest::Always {
            assert(answers[0] == Interest::Always);
            if next == Interest::Always {
                assert forall|i: int| 0 <= i < all.len() implies all[i] == Interest::Always by {
                    if i < answers.len() {
                        assert(all[i] == answers[i]);
                    }
                }
            } else {
                assert(all[0] == answers[0]);
            }
        } else {
            let i = choose|i: int| 0 <= i < answers.len() && answers[i] != Interest::Never;
            let j = choose|j: int| 0 <= j < answers.len() && answers[j] != Interest::Always;
            assert(all[i] == answers[i]);
            assert(all[j] == answers[j]);
        }
    }
}

/// Combines the answers of all collectors about one callsite.
pub fn combine(answers: &Vec<Interest>) -> (r: Interest)
    ensures
        r == combined(answers@),
{
    if answers.len() == 0 {
        return Interest::never();
    }
    let mut interest: Interest = answers[0];
    let mut i: usize = 1;
    proof {
        lemma_combined_push(Seq::<Interest>::empty(), answers@[0]);
        assert(answers@.subrange(0, 1) =~= Seq::<Interest>::empty().push(answers@[0]));
    }
    while i < answers.len()
        invariant
            1 <= i <= answers.len(),
            interest == combined(answers@.subrange(0, i as int)),
        decreases answers.len() - i,
    {
        proof {
            lemma_combined_push(answers@.subrange(0, i as int), answers@[i as int]);
            assert(answers@.subrange(0, i + 1) =~= answers@.subrange(0, i as int).push(
                answers@[i as int],
            ));
        }
        interest = interest.and(answers[i]);
        i += 1;
    }
    assert(answers@.subrange(0, answers.len() as int) =~= answers@);
    interest
}

/// Combining two interests does not depend on their order.
pub proof fn lemma_and_commutative(a: Interest, b: Interest)
    ensures
        a.spec_and(b) == b.spec_and(a),
{
}

/// Combining three interests does not depend on how they are grouped.
pub proof fn lemma_and_associative(a: Interest, b: Interest, c: Interest)
    ensures
        a.spec_and(b).spec_and(c) == a.spec_and(b.spec_and(c)),
{
}

/// Collectors that all give the same answer, `Never` or `Always`, give that
/// answer together, provided that there is at least one of them.
pub proof fn lemma_unanimous(answers: Seq<Interest>, v: Interest)
    requires
        answers.len() > 0,
        v == Interest::Never || v == Interest::Always,
        forall|i: int| 0 <= i < answers.len() ==> answers[i] == v,
    ensures
        combined(answers) == v,
{
    assert(answers[0] == v);
}

/// Collectors of which two give different answers are `Sometimes`
/// interested together.
pub proof fn lemma_disagreement(answers: Seq<Interest>, i: int, j: int)
    requires
        0 <= i < answers.len(),
        0 <= j < answers.len(),
        answers[i] != answers[j],
    ensures
        combined(answers) == Interest::Sometimes,
{
}

/// The combined interest is `Never` only where every collector says `Never`,
/// and `Always` only where there is a collector and every one says `Always`.
pub proof fn lemma_combined_iff(answers: Seq<Interest>)
    ensures
        combined(answers) == Interest::Never <==> (forall|i: int|
            0 <= i < answers.len() ==> answers[i] == Interest::Never),
        combined(answers) == Interest::Always <==> answers.len() > 0 && (forall|i: int|
            0 <= i < answers.len() ==> answers[i] == Interest::Always),
{
    if answers.len() > 0 {
        if forall|i: int| 0 <= i < answers.len() ==> answers[i] == Interest::Never {
            assert(answers[0] == Interest::Never);
        }
    }
}

/// Where two sequences hold the same answers, each as often as the other,
/// and all of the first are `v`, all of the second are `v` too.
proof fn lemma_all_equal_transfers(a: Seq<Interest>, b: Seq<Interest>, v: Interest)
    requires
        a.to_multiset() == b.to_multiset(),
        forall|i: int| 0 <= i < a.len() ==> a[i] == v,
    ensures
        forall|i: int| 0 <= i < b.len() ==> b[i] == v,
{
    broadcast use vstd::seq_lib::group_to_multiset_ensures;

    assert forall|i: int| 0 <= i < b.len() implies b[i] == v by {
        assert(b.contains(b[i]));
        assert(b.to_multiset().count(b[i]) > 0);
        assert(a.contains(b[i]));
    }
}

/// The order in which the collectors were asked does not matter: the same
/// answers in another order combine to the same interest.
pub proof fn lemma_combined_order_independent(a: Seq<Interest>, b: Seq<Interest>)
    requires
        a.to_multiset() == b.to_multiset(),
    ensures
        combined(a) == combined(b),
{
    broadcast use vstd::seq_lib::group_to_multiset_ensures;

    assert(a.len() == a.to_multiset().len());
    assert(b.len() == b.to_multiset().len());
    if forall|i: int| 0 <= i < a.len() ==> a[i] == Interest::Never {
        lemma_all_equal_transfers(a, b, Interest::Never);
    }
    if forall|i: int| 0 <= i < b.len() ==> b[i] == Interest::Never {
        lemma_all_equal_transfers(b, a, Interest::Never);
    }
    if forall|i: int| 0 <= i < a.len() ==> a[i] == Interest::Always {
        lemma_all_equal_transfers(a, b, Interest::Always);
    }
    if forall|i: int| 0 <= i < b.len() ==> b[i] == Interest::Always {
        lemma_all_equal_transfers(b, a, Interest::Always);
    }
}

/// What consumes dispatched events and spans and decides whether to record
/// them. A collector has to say whether it is enabled for a piece of
/// metadata and what it does with an event; what it leaves out falls back
/// to the answer of a dispatch without a collector. Those answers are
/// promised of a collector that leaves the method out, and of no other.
pub trait Collect {
    /// Whether a span or event with this metadata would be recorded now.
    fn enabled(&self, metadata: &Metadata) -> bool;

    /// Handles an event.
    fn event(&self, event: &Event);

    /// Whether this event is to be handled at all.
    fn event_enabled(&self, _event: &Event) -> (r: bool)
        default_ensures
            r,
    {
        true
    }

    /// The highest verbosity level that the collector will enable, if it
    /// filters by level.
    fn max_level_hint(&self) -> (r: Option<LevelFilter>)
        default_ensures
            r is None,
    {
        None
    }

    /// Whether the collector wants the callsite with this metadata.
    fn register_callsite(&self, _metadata: &Metadata) -> (r: Interest)
        default_ensures
            r == Interest::Never,
    {
        Interest::never()
    }

    /// Tells the collector that it was registered under `dispatch`.
    fn on_register_dispatch(&self, _dispatch: &Dispatch) {
    }

    /// Records a new span and names it.
    fn new_span(&self, _span: &Attributes) -> (r: Id)
        default_ensures
            r == (Id { value: DISABLED_SPAN }),
    {
        Id::from_u64(DISABLED_SPAN)
    }

    /// Records values on a span.
    fn record(&self, _span: &Id, _values: &Record) {
    }

    /// Records that `span` follows from `follows`.
    fn record_follows_from(&self, _span: &Id, _follows: &Id) {
    }

    /// Records that a span was entered.
    fn enter(&self, _span: &Id) {
    }

    /// Records that a span was exited.
    fn exit(&self, _span: &Id) {
    }

    /// Records that a span identifier was cloned.
    fn clone_span(&self, id: &Id) -> (r: Id)
        default_ensures
            r == *id,
    {
        *id
    }

    /// Records that a span identifier was dropped, and says whether the
    /// span is closed now.
    fn try_close(&self, _id: Id) -> (r: bool)
        default_ensures
            !r,
    {
        false
    }

    /// The collector's view of the current span.
    fn current_span(&self) -> (r: Current)
        default_ensures
            r == Current::Unknown,
    {
        Current::unknown()
    }
}

/// The collector that discards everything and is never enabled.
#[derive(Copy, Clone, Debug)]
pub struct NoCollector;

impl Collect for NoCollector {
    fn enabled(&self, _metadata: &Metadata) -> (r: bool)
        ensures
            !r,
    {
        false
    }

    fn event(&self, _event: &Event) {
    }
}

} // verus!
