//! Callsites, their cached interest, and the registry that keeps the caches
//! of all callsites in step with the collectors that are active.

use vstd::prelude::*;
use crate::collect::{combine, combined, Interest};
use crate::dispatch::{asked, told, Ask, Dispatch, DispatchMessage, DispatchProcess, Outgoing};
use crate::level::filter::{hint_or_trace, LevelFilter, MaxLevel};
use crate::metadata::Metadata;
use crate::span::Span;

verus! {

/// The cache's content while the callsite was never registered.
pub const UNREGISTERED: u64 = 0xDEADFACED;

/// One log statement: its metadata, which never changes, and the cached
/// interest of the collectors in it, one small integer.
#[derive(Debug)]
pub struct Callsite {
    interest: u64,
    metadata: Metadata,
}

/// What a `Callsite` holds: the cached interest, `None` until the callsite
/// is registered, and the metadata.
pub struct CallsiteView {
    pub interest: Option<Interest>,
    pub metadata: Metadata,
}

impl View for Callsite {
    type V = CallsiteView;

    closed spec fn view(&self) -> CallsiteView {
        CallsiteView {
            interest: if self.interest == 0 {
                Some(Interest::Never)
            } else if self.interest == 1 {
                Some(Interest::Sometimes)
            } else if self.interest == 2 {
                Some(Interest::Always)
            } else {
                None
            },
            metadata: self.metadata,
        }
    }
}

impl Clone for Callsite {
    fn clone(&self) -> (r: Callsite)
        ensures
            r@ == self@,
    {
        proof {
            use_type_invariant(self);
        }
        Callsite { interest: self.interest, metadata: self.metadata.clone() }
    }
}

impl Callsite {
    #[verifier::type_invariant]
    spec fn known_code(self) -> bool {
        self.interest <= 2 || self.interest == UNREGISTERED
    }

    /// A callsite that was not registered yet.
    pub fn new(metadata: Metadata) -> (r: Callsite)
        ensures
            r@ == (CallsiteView { interest: None, metadata }),
    {
        Callsite { interest: UNREGISTERED, metadata }
    }

    /// Whether the cache is empty, so that the callsite has to be registered
    /// before its interest is known.
    pub fn needs_registration(&self) -> (r: bool)
        ensures
            r == (self@.interest is None),
    {
        proof {
            use_type_invariant(self);
        }
        self.interest == UNREGISTERED
    }

    /// Returns the callsite's cached interest.
    ///
    /// Where the cache is empty, `registered` is what the registry computed
    /// when the callsite was registered with it: that interest is cached and
    /// returned. Where the registry could not be reached, `registered` is
    /// `None`: nobody is interested, and nothing is cached. Where the cache
    /// holds an interest, it is returned and `registered` is not looked at.
    pub fn interest(&mut self, registered: Option<Interest>) -> (r: Interest)
        ensures
            final(self)@.metadata == old(self)@.metadata,
            match (old(self)@.interest, registered) {
                (Some(cached), _) => r == cached && final(self)@ == old(self)@,
                (None, Some(computed)) => r == computed && final(self)@.interest == Some(
                    computed,
                ),
                (None, None) => r == Interest::Never && final(self)@ == old(self)@,
            },
    {
        proof {
            use_type_invariant(&*self);
        }
        if self.interest == 0 {
            Interest::never()
        } else if self.interest == 1 {
            Interest::sometimes()
        } else if self.interest == 2 {
            Interest::always()
        } else {
            match registered {
                Some(computed) => {
                    self.set_interest(computed);
                    computed
                },
                None => Interest::never(),
            }
        }
    }

    /// Whether an occurrence of the callsite is to be recorded: yes at once
    /// where the interest is `Always`; otherwise what the collector of the
    /// current default dispatch says of the callsite's metadata right now.
    pub fn is_enabled(&self, interest: Interest, default: &Dispatch) -> (r: Ask<bool>)
        ensures
            r == if interest == Interest::Always {
                Ask::Answer(true)
            } else {
                asked(*default, DispatchMessage::Enabled(self@.metadata), false)
            },
    {
        if interest.is_always() {
            Ask::Answer(true)
        } else {
            default.enabled(self.metadata.clone())
        }
    }

    /// The span of this callsite that no collector knows of.
    pub fn disabled_span(&self) -> (r: Span)
        ensures
            r.id is None,
            r.metadata == self@.metadata,
    {
        Span::new_disabled(self.metadata.clone())
    }

    /// Overwrites the cached interest.
    pub fn set_interest(&mut self, interest: Interest)
        ensures
            final(self)@ == (CallsiteView {
                interest: Some(interest),
                metadata: old(self)@.metadata,
            }),
    {
        let code: u64 = if interest.is_never() {
            0
        } else if interest.is_always() {
            2
        } else {
            1
        };
        self.interest = code;
    }

    /// The callsite's metadata.
    pub fn metadata(&self) -> (r: &Metadata)
        ensures
            *r == self@.metadata,
    {
        &self.metadata
    }
}

/// Uniquely identifies a `Callsite`: its place in the registry's list.
#[derive(Clone, Copy, Debug, Hash, PartialEq, Eq, Structural)]
pub struct Identifier(pub usize);

/// A registration with the callsite registry.
#[derive(Debug)]
pub struct Registration {
    callsite: Callsite,
}

impl Registration {
    /// The callsite to be registered, as a specification.
    pub closed spec fn callsite(&self) -> CallsiteView {
        self.callsite@
    }

    /// Construct a new `Registration` from a callsite.
    pub fn new(callsite: Callsite) -> (r: Registration)
        ensures
            r.callsite() == callsite@,
    {
        Registration { callsite }
    }

    /// The callsite to be registered.
    pub fn into_callsite(self) -> (r: Callsite)
        ensures
            r@ == self.callsite(),
    {
        self.callsite
    }
}

/// What is sent to the registry.
#[derive(Debug)]
pub enum RegistryMessage {
    RebuildInterest,
    Register(Registration),
    RegisterDispatch(Dispatch),
}

/// Asks the registry to recompute the interest of every callsite and the
/// maximum level. A collector whose own filtering changed calls this, since
/// the registry cannot see such a change. Without a registry in reach
/// nothing is sent.
pub fn rebuild_interest_cache(registry_in_reach: bool) -> (r: Option<RegistryMessage>)
    ensures
        r == if registry_in_reach {
            Some(RegistryMessage::RebuildInterest)
        } else {
            None
        },
{
    if registry_in_reach {
        Some(RegistryMessage::RebuildInterest)
    } else {
        None
    }
}

/// Registers a new callsite with the registry. Without a registry in reach
/// nothing is sent.
pub fn register(registry_in_reach: bool, registration: Registration) -> (r: Option<
    RegistryMessage,
>)
    ensures
        r == if registry_in_reach {
            Some(RegistryMessage::Register(registration))
        } else {
            None
        },
{
    if registry_in_reach {
        Some(RegistryMessage::Register(registration))
    } else {
        None
    }
}

/// Registers a new dispatch with the registry. Without a registry in reach
/// nothing is sent.
pub fn register_dispatch(registry_in_reach: bool, dispatch: Dispatch) -> (r: Option<
    RegistryMessage,
>)
    ensures
        r == if registry_in_reach {
            Some(RegistryMessage::RegisterDispatch(dispatch))
        } else {
            None
        },
{
    if registry_in_reach {
        Some(RegistryMessage::RegisterDispatch(dispatch))
    } else {
        None
    }
}

/// Caches in `callsite` the combined interest of the collectors, given what
/// each of them answered when the callsite was registered with it.
pub fn rebuild_callsite_interest(answers: &Vec<Interest>, callsite: &mut Callsite)
    ensures
        final(callsite)@ == (CallsiteView {
            interest: Some(combined(answers@)),
            metadata: old(callsite)@.metadata,
        }),
{
    let interest: Interest = combine(answers);
    callsite.set_interest(interest);
}

/// The most verbose of the collectors' hints, where a collector that gives
/// no hint counts as `TRACE`; `OFF` where there is no collector.
pub open spec fn max_hint(hints: Seq<Option<LevelFilter>>) -> LevelFilter
    decreases hints.len(),
{
    if hints.len() == 0 {
        LevelFilter::Off
    } else {
        let rest = max_hint(hints.drop_last());
        let last = hint_or_trace(hints.last());
        if last.verbosity() > rest.verbosity() {
            last
        } else {
            rest
        }
    }
}

/// `max_hint` is the maximum: no collector's hint is above it, one
/// collector's hint is it unless there is no collector, and it is `TRACE`
/// as soon as one collector gives no hint.
pub proof fn lemma_max_hint_is_maximum(hints: Seq<Option<LevelFilter>>)
    ensures
        hints.len() == 0 ==> max_hint(hints) == LevelFilter::Off,
        forall|i: int|
            0 <= i < hints.len() ==> hint_or_trace(#[trigger] hints[i]).verbosity() <= max_hint(
                hints,
            ).verbosity(),
        hints.len() > 0 ==> exists|i: int|
            0 <= i < hints.len() && hint_or_trace(#[trigger] hints[i]) == max_hint(hints),
        (exists|i: int| 0 <= i < hints.len() && #[trigger] hints[i] is None) ==> max_hint(hints)
            == LevelFilter::Trace,
    decreases hints.len(),
{
    if hints.len() > 0 {
        let front = hints.drop_last();
        lemma_max_hint_is_maximum(front);
        assert forall|i: int| 0 <= i < hints.len() implies hint_or_trace(
            #[trigger] hints[i],
        ).verbosity() <= max_hint(hints).verbosity() by {
            if i < front.len() {
                assert(front[i] == hints[i]);
            }
        }
        if hint_or_trace(hints.last()).verbosity() > max_hint(front).verbosity() {
            assert(hint_or_trace(hints[hints.len() - 1]) == max_hint(hints));
        } else if front.len() > 0 {
            let i = choose|i: int|
                0 <= i < front.len() && hint_or_trace(#[trigger] front[i]) == max_hint(front);
            assert(hints[i] == front[i]);
        } else {
            assert(hint_or_trace(hints[hints.len() - 1]) == max_hint(hints));
        }
        if exists|i: int| 0 <= i < hints.len() && #[trigger] hints[i] is None {
            let i = choose|i: int| 0 <= i < hints.len() && #[trigger] hints[i] is None;
            assert(hint_or_trace(hints[i]).verbosity() == 5);
            assert(max_hint(hints).verbosity() >= 5);
        }
    }
}

/// One collector's hint is the maximum level.
pub proof fn lemma_single_collector_hint(hint: Option<LevelFilter>)
    ensures
        max_hint(seq![hint]) == hint_or_trace(hint),
{
    assert(seq![hint].drop_last() =~= Seq::<Option<LevelFilter>>::empty());
    reveal_with_fuel(max_hint, 2);
}

/// Computes the maximum level from the collectors' hints.
pub fn max_level_of(hints: &Vec<Option<LevelFilter>>) -> (r: LevelFilter)
    ensures
        r == max_hint(hints@),
{
    let mut max_level: LevelFilter = LevelFilter::OFF;
    let mut i: usize = 0;
    assert(hints@.subrange(0, 0) =~= Seq::<Option<LevelFilter>>::empty());
    while i < hints.len()
        invariant
            i <= hints.len(),
            max_level == max_hint(hints@.subrange(0, i as int)),
        decreases hints.len() - i,
    {
        assert(hints@.subrange(0, i + 1).drop_last() =~= hints@.subrange(0, i as int));
        let level_hint: LevelFilter = match hints[i] {
            Some(filter) => filter,
            None => LevelFilter::TRACE,
        };
        if level_hint.rank() > max_level.rank() {
            max_level = level_hint;
        }
        i += 1;
    }
    assert(hints@.subrange(0, hints.len() as int) =~= hints@);
    max_level
}

/// The coordinator of callsites and collectors: the list of all callsites,
/// to which callsites are only ever added, and the list of the dispatches
/// that are active.
#[derive(Debug)]
pub struct Registry {
    callsites: Vec<Callsite>,
    dispatchers: Vec<Dispatch>,
}

/// Whether a dispatch refers to a collector.
pub open spec fn is_active(dispatch: Dispatch) -> bool {
    dispatch@ is Some
}

/// The dispatches that remain when those without a collector are dropped,
/// in their order.
pub open spec fn remaining(dispatchers: Seq<Dispatch>) -> Seq<Dispatch> {
    dispatchers.filter(|d: Dispatch| is_active(d))
}

/// The answers about one callsite fit the dispatches: there is one answer
/// for each dispatch, in the order of the dispatches, and the answer for a
/// dispatch without a collector is `Never`.
pub open spec fn fitting_answers(dispatchers: Seq<Dispatch>, answers: Seq<Interest>) -> bool {
    &&& answers.len() == dispatchers.len()
    &&& forall|i: int|
        0 <= i < answers.len() && !is_active(dispatchers[i]) ==> #[trigger] answers[i]
            == Interest::Never
}

/// The collectors' replies fit a registry of so many collectors and
/// callsites: there is one hint for each collector, one list of answers for
/// each callsite, and in each list one answer for each collector.
pub open spec fn fitting_replies(
    collectors: nat,
    callsites: nat,
    hints: Seq<Option<LevelFilter>>,
    answers: Seq<Vec<Interest>>,
) -> bool {
    &&& hints.len() == collectors
    &&& answers.len() == callsites
    &&& forall|i: int| 0 <= i < answers.len() ==> (#[trigger] answers[i])@.len() == collectors
}

/// Where every dispatch has a collector, all of them remain.
pub proof fn lemma_all_remain(dispatchers: Seq<Dispatch>)
    requires
        forall|i: int| 0 <= i < dispatchers.len() ==> is_active(#[trigger] dispatchers[i]),
    ensures
        remaining(dispatchers) == dispatchers,
    decreases dispatchers.len(),
{
    let pred = |d: Dispatch| is_active(d);
    if dispatchers.len() == 0 {
        assert(dispatchers.filter(pred) =~= dispatchers) by {
            reveal(Seq::filter);
        }
    } else {
        let front = dispatchers.drop_last();
        assert forall|i: int| 0 <= i < front.len() implies is_active(#[trigger] front[i]) by {
            assert(front[i] == dispatchers[i]);
        }
        lemma_all_remain(front);
        front.lemma_filter_push(dispatchers.last(), pred);
        assert(front.push(dispatchers.last()) =~= dispatchers);
    }
}

/// Dropping the dispatches without a collector a second time drops nothing:
/// every dispatch that remains has a collector.
pub proof fn lemma_remaining_are_active(dispatchers: Seq<Dispatch>)
    ensures
        forall|i: int|
            0 <= i < remaining(dispatchers).len() ==> is_active(
                #[trigger] remaining(dispatchers)[i],
            ),
        remaining(remaining(dispatchers)) == remaining(dispatchers),
{
    let pred = |d: Dispatch| is_active(d);
    assert forall|i: int| 0 <= i < remaining(dispatchers).len() implies is_active(
        #[trigger] remaining(dispatchers)[i],
    ) by {
        dispatchers.lemma_filter_pred(pred, i);
        assert(pred(dispatchers.filter(pred)[i]));
    }
    lemma_all_remain(remaining(dispatchers));
}

/// What has to be asked of the collectors when interest is rebuilt.
#[derive(Debug)]
pub struct Inquiries {
    /// One request for the maximum level per collector.
    pub hints: Vec<Ask<Option<LevelFilter>>>,
    /// For each callsite, one request per collector about the callsite.
    pub interests: Vec<Vec<Ask<Interest>>>,
}

impl Registry {
    /// The callsites, in the order of their registration.
    pub closed spec fn callsites(&self) -> Seq<CallsiteView> {
        self.callsites@.map_values(|c: Callsite| c@)
    }

    /// The dispatches, in the order of their registration.
    pub closed spec fn dispatchers(&self) -> Seq<Dispatch> {
        self.dispatchers@
    }

    /// A registry that knows no callsite and no collector.
    pub fn new() -> (r: Registry)
        ensures
            r.callsites().len() == 0,
            r.dispatchers().len() == 0,
    {
        Registry { callsites: Vec::new(), dispatchers: Vec::new() }
    }

    /// The number of callsites.
    pub fn callsite_count(&self) -> (r: usize)
        ensures
            r == self.callsites().len(),
    {
        self.callsites.len()
    }

    /// The callsite with the given identifier, if there is one.
    pub fn callsite(&self, id: Identifier) -> (r: Option<&Callsite>)
        ensures
            r is Some <==> id.0 < self.callsites().len(),
            r matches Some(callsite) ==> callsite@ == self.callsites()[id.0 as int],
    {
        if id.0 < self.callsites.len() {
            Some(&self.callsites[id.0])
        } else {
            None
        }
    }

    /// The registered dispatches.
    pub fn active_dispatchers(&self) -> (r: &Vec<Dispatch>)
        ensures
            r@ == self.dispatchers(),
    {
        &self.dispatchers
    }

    /// What has to be asked of the collectors about a callsite with the
    /// given metadata: one request per dispatch, in the order of the
    /// dispatches.
    pub fn callsite_inquiries(&self, metadata: &Metadata) -> (r: Vec<Ask<Interest>>)
        ensures
            r@.len() == self.dispatchers().len(),
            forall|i: int|
                0 <= i < r@.len() ==> #[trigger] r@[i] == asked(
                    self.dispatchers()[i],
                    DispatchMessage::RegisterCallsite(*metadata),
                    Interest::Never,
                ),
    {
        let mut inquiries: Vec<Ask<Interest>> = Vec::new();
        let mut i: usize = 0;
        while i < self.dispatchers.len()
            invariant
                i <= self.dispatchers.len(),
                inquiries@.len() == i,
                forall|j: int|
                    0 <= j < i ==> #[trigger] inquiries@[j] == asked(
                        self.dispatchers@[j],
                        DispatchMessage::RegisterCallsite(*metadata),
                        Interest::Never,
                    ),
            decreases self.dispatchers.len() - i,
        {
            inquiries.push(self.dispatchers[i].register_callsite(metadata.clone()));
            i += 1;
        }
        inquiries
    }

    /// What has to be asked of the collectors for the maximum level: one
    /// request per dispatch, in the order of the dispatches.
    pub fn hint_inquiries(&self) -> (r: Vec<Ask<Option<LevelFilter>>>)
        ensures
            r@.len() == self.dispatchers().len(),
            forall|i: int|
                0 <= i < r@.len() ==> #[trigger] r@[i] == asked(
                    self.dispatchers()[i],
                    DispatchMessage::MaxLevelHint,
                    None::<LevelFilter>,
                ),
    {
        let mut inquiries: Vec<Ask<Option<LevelFilter>>> = Vec::new();
        let mut i: usize = 0;
        while i < self.dispatchers.len()
            invariant
                i <= self.dispatchers.len(),
                inquiries@.len() == i,
                forall|j: int|
                    0 <= j < i ==> #[trigger] inquiries@[j] == asked(
                        self.dispatchers@[j],
                        DispatchMessage::MaxLevelHint,
                        None::<LevelFilter>,
                    ),
            decreases self.dispatchers.len() - i,
        {
            inquiries.push(self.dispatchers[i].max_level_hint());
            i += 1;
        }
        inquiries
    }

    /// Drops the dispatches that refer to no collector. The others stay, in
    /// their order.
    pub fn prune(&mut self)
        ensures
            final(self).dispatchers() == remaining(old(self).dispatchers()),
            remaining(final(self).dispatchers()) == final(self).dispatchers(),
            final(self).callsites() == old(self).callsites(),
    {
        proof {
            lemma_remaining_are_active(self.dispatchers@);
        }
        let ghost pred = |d: Dispatch| is_active(d);
        let mut kept: Vec<Dispatch> = Vec::new();
        let mut i: usize = 0;
        assert(self.dispatchers@.subrange(0, 0) =~= Seq::<Dispatch>::empty());
        assert(Seq::<Dispatch>::empty().filter(pred) =~= Seq::<Dispatch>::empty()) by {
            reveal(Seq::filter);
        }
        while i < self.dispatchers.len()
            invariant
                i <= self.dispatchers.len(),
                *self == *old(self),
                pred == (|d: Dispatch| is_active(d)),
                kept@ == self.dispatchers@.subrange(0, i as int).filter(pred),
            decreases self.dispatchers.len() - i,
        {
            let dispatch: Dispatch = self.dispatchers[i];
            proof {
                let before = self.dispatchers@.subrange(0, i as int);
                assert(self.dispatchers@.subrange(0, i + 1) =~= before.push(dispatch));
                before.lemma_filter_push(dispatch, pred);
            }
            if dispatch.is_set() {
                kept.push(dispatch);
            }
            i += 1;
        }
        assert(self.dispatchers@.subrange(0, self.dispatchers.len() as int)
            =~= self.dispatchers@);
        self.dispatchers = kept;
    }

    /// Takes a collector out of the registry: every dispatch that refers to
    /// it refers to no collector from now on, and is dropped when interest
    /// is next rebuilt.
    pub fn deactivate(&mut self, collector: DispatchProcess)
        ensures
            final(self).callsites() == old(self).callsites(),
            final(self).dispatchers().len() == old(self).dispatchers().len(),
            forall|i: int|
                0 <= i < old(self).dispatchers().len() ==> #[trigger] final(self).dispatchers()[i]@
                    == if old(self).dispatchers()[i]@ == Some(collector) {
                    None
                } else {
                    old(self).dispatchers()[i]@
                },
    {
        let mut i: usize = 0;
        while i < self.dispatchers.len()
            invariant
                i <= self.dispatchers.len(),
                self.callsites == old(self).callsites,
                self.dispatchers@.len() == old(self).dispatchers@.len(),
                forall|j: int|
                    0 <= j < i ==> #[trigger] self.dispatchers@[j]@ == if old(
                        self,
                    ).dispatchers@[j]@ == Some(collector) {
                        None
                    } else {
                        old(self).dispatchers@[j]@
                    },
                forall|j: int|
                    i <= j < self.dispatchers@.len() ==> #[trigger] self.dispatchers@[j] == old(
                        self,
                    ).dispatchers@[j],
            decreases self.dispatchers.len() - i,
        {
            let dispatch: Dispatch = self.dispatchers[i];
            match dispatch.collector() {
                Some(process) => {
                    if process == collector {
                        self.dispatchers.set(i, Dispatch::none());
                    }
                },
                None => {},
            }
            i += 1;
        }
    }

    /// Registers a callsite: caches in it the combined interest of the
    /// collectors, given in `answers` as what each dispatch's collector
    /// answered about the callsite, and adds it to the list. Returns the
    /// callsite's identifier. The answers have to fit the dispatches: one
    /// for each, and `Never` for a dispatch without a collector.
    pub fn register(&mut self, registration: Registration, answers: &Vec<Interest>) -> (r:
        Identifier)
        requires
            fitting_answers(old(self).dispatchers(), answers@),
        ensures
            r.0 == old(self).callsites().len(),
            final(self).callsites() == old(self).callsites().push(
                CallsiteView {
                    interest: Some(combined(answers@)),
                    metadata: registration.callsite().metadata,
                },
            ),
            final(self).dispatchers() == old(self).dispatchers(),
    {
        let mut callsite: Callsite = registration.into_callsite();
        rebuild_callsite_interest(answers, &mut callsite);
        let id: Identifier = Identifier(self.callsites.len());
        self.callsites.push(callsite);
        assert(self.callsites@.map_values(|c: Callsite| c@) =~= old(self).callsites@.map_values(
            |c: Callsite| c@,
        ).push(callsite@));
        id
    }

    /// Drops the dispatches without a collector, and says what has to be
    /// asked of the collectors that remain before interest is rebuilt: of
    /// each its maximum level, and of each its interest in every callsite.
    pub fn begin_rebuild(&mut self) -> (r: Inquiries)
        ensures
            final(self).dispatchers() == remaining(old(self).dispatchers()),
            remaining(final(self).dispatchers()) == final(self).dispatchers(),
            final(self).callsites() == old(self).callsites(),
            r.hints@.len() == final(self).dispatchers().len(),
            forall|j: int|
                0 <= j < r.hints@.len() ==> #[trigger] r.hints@[j] == asked(
                    final(self).dispatchers()[j],
                    DispatchMessage::MaxLevelHint,
                    None::<LevelFilter>,
                ),
            r.interests@.len() == final(self).callsites().len(),
            forall|i: int|
                0 <= i < r.interests@.len() ==> (#[trigger] r.interests@[i])@.len()
                    == r.hints@.len(),
            forall|i: int, j: int|
                0 <= i < r.interests@.len() && 0 <= j < final(self).dispatchers().len()
                    ==> #[trigger] r.interests@[i]@[j] == asked(
                    final(self).dispatchers()[j],
                    DispatchMessage::RegisterCallsite(final(self).callsites()[i].metadata),
                    Interest::Never,
                ),
    {
        self.prune();
        let hints: Vec<Ask<Option<LevelFilter>>> = self.hint_inquiries();
        let mut interests: Vec<Vec<Ask<Interest>>> = Vec::new();
        let mut i: usize = 0;
        while i < self.callsites.len()
            invariant
                i <= self.callsites.len(),
                interests@.len() == i,
                forall|k: int|
                    0 <= k < i ==> (#[trigger] interests@[k])@.len() == self.dispatchers@.len(),
                forall|k: int, j: int|
                    0 <= k < i && 0 <= j < self.dispatchers@.len() ==> #[trigger] interests@[k]@[j]
                        == asked(
                        self.dispatchers@[j],
                        DispatchMessage::RegisterCallsite(self.callsites@[k]@.metadata),
                        Interest::Never,
                    ),
            decreases self.callsites.len() - i,
        {
            let row: Vec<Ask<Interest>> = self.callsite_inquiries(self.callsites[i].metadata());
            interests.push(row);
            i += 1;
        }
        Inquiries { hints, interests }
    }

    /// Whether the collectors' replies fit the registry as it will be when
    /// the dispatches without a collector are dropped.
    pub fn replies_fit(&self, hints: &Vec<Option<LevelFilter>>, answers: &Vec<Vec<Interest>>) -> (r:
        bool)
        ensures
            r == fitting_replies(
                remaining(self.dispatchers()).len(),
                self.callsites().len(),
                hints@,
                answers@,
            ),
    {
        let ghost pred = |d: Dispatch| is_active(d);
        let mut collectors: usize = 0;
        let mut i: usize = 0;
        assert(self.dispatchers@.subrange(0, 0) =~= Seq::<Dispatch>::empty());
        assert(Seq::<Dispatch>::empty().filter(pred) =~= Seq::<Dispatch>::empty()) by {
            reveal(Seq::filter);
        }
        while i < self.dispatchers.len()
            invariant
                i <= self.dispatchers.len(),
                collectors <= i,
                pred == (|d: Dispatch| is_active(d)),
                collectors == self.dispatchers@.subrange(0, i as int).filter(pred).len(),
            decreases self.dispatchers.len() - i,
        {
            let dispatch: Dispatch = self.dispatchers[i];
            proof {
                let before = self.dispatchers@.subrange(0, i as int);
                assert(self.dispatchers@.subrange(0, i + 1) =~= before.push(dispatch));
                before.lemma_filter_push(dispatch, pred);
            }
            if dispatch.is_set() {
                collectors += 1;
            }
            i += 1;
        }
        assert(self.dispatchers@.subrange(0, self.dispatchers.len() as int)
            =~= self.dispatchers@);
        if hints.len() != collectors || answers.len() != self.callsites.len() {
            return false;
        }
        let mut k: usize = 0;
        while k < answers.len()
            invariant
                k <= answers.len(),
                collectors == remaining(self.dispatchers()).len(),
                hints@.len() == collectors,
                answers@.len() == self.callsites().len(),
                forall|j: int| 0 <= j < k ==> (#[trigger] answers@[j])@.len() == collectors,
            decreases answers.len() - k,
        {
            if answers[k].len() != collectors {
                assert(answers@[k as int]@.len() != collectors);
                return false;
            }
            k += 1;
        }
        true
    }

    /// Whether the answers about one callsite fit the dispatches.
    pub fn answers_fit(&self, answers: &Vec<Interest>) -> (r: bool)
        ensures
            r == fitting_answers(self.dispatchers(), answers@),
    {
        if answers.len() != self.dispatchers.len() {
            return false;
        }
        let mut i: usize = 0;
        while i < answers.len()
            invariant
                i <= answers.len(),
                answers@.len() == self.dispatchers@.len(),
                forall|j: int|
                    0 <= j < i && !is_active(self.dispatchers@[j]) ==> #[trigger] answers@[j]
                        == Interest::Never,
            decreases answers.len() - i,
        {
            if !self.dispatchers[i].is_set() && !answers[i].is_never() {
                return false;
            }
            i += 1;
        }
        true
    }

    /// Recomputes everything that is cached: drops the dispatches without a
    /// collector; caches in every callsite the combined interest of the
    /// collectors, given in `answers` callsite by callsite as what each
    /// remaining dispatch's collector answered about it; and last publishes
    /// the maximum of the remaining collectors' `hints` as the maximum
    /// level. The replies have to fit: one hint for each remaining
    /// dispatch, and for each callsite one answer of each.
    pub fn rebuild_interest(
        &mut self,
        published: &mut MaxLevel,
        hints: &Vec<Option<LevelFilter>>,
        answers: &Vec<Vec<Interest>>,
    )
        requires
            fitting_replies(
                remaining(old(self).dispatchers()).len(),
                old(self).callsites().len(),
                hints@,
                answers@,
            ),
        ensures
            final(self).dispatchers() == remaining(old(self).dispatchers()),
            remaining(final(self).dispatchers()) == final(self).dispatchers(),
            final(self).callsites().len() == old(self).callsites().len(),
            forall|i: int|
                0 <= i < old(self).callsites().len() ==> #[trigger] final(self).callsites()[i]
                    == (CallsiteView {
                    interest: Some(combined(answers@[i]@)),
                    metadata: old(self).callsites()[i].metadata,
                }),
            final(published)@ == Some(max_hint(hints@)),
    {
        self.prune();
        let max_level: LevelFilter = max_level_of(hints);
        let n: usize = self.callsites.len();
        let mut i: usize = 0;
        assert(self.callsites().len() == old(self).callsites().len());
        assert forall|j: int| 0 <= j < n implies (#[trigger] self.callsites@[j])@ == old(
            self,
        ).callsites@[j]@ by {
            assert(self.callsites()[j] == old(self).callsites()[j]);
        }
        while i < n
            invariant
                i <= n,
                n == self.callsites@.len(),
                n == old(self).callsites@.len(),
                n == answers@.len(),
                self.dispatchers@ == remaining(old(self).dispatchers@),
                remaining(self.dispatchers@) == self.dispatchers@,
                forall|j: int|
                    0 <= j < i ==> (#[trigger] self.callsites@[j])@ == (CallsiteView {
                        interest: Some(combined(answers@[j]@)),
                        metadata: old(self).callsites@[j]@.metadata,
                    }),
                forall|j: int|
                    i <= j < n ==> (#[trigger] self.callsites@[j])@ == old(self).callsites@[j]@,
            decreases n - i,
        {
            rebuild_callsite_interest(&answers[i], &mut self.callsites[i]);
            i += 1;
        }
        LevelFilter::set_max(published, max_level);
    }

    /// Takes a dispatch into the list of dispatches and tells its collector
    /// that it was registered. Returns the notification for the collector,
    /// which is to be sent without waiting. What is cached stays as it is
    /// until interest is rebuilt.
    pub fn add_dispatch(&mut self, dispatch: Dispatch) -> (r: Option<Outgoing>)
        ensures
            r == told(dispatch, DispatchMessage::OnRegisterDispatch(dispatch)),
            final(self).dispatchers() == old(self).dispatchers().push(dispatch),
            final(self).callsites() == old(self).callsites(),
    {
        let notification: Option<Outgoing> = dispatch.on_register_dispatch(dispatch);
        self.dispatchers.push(dispatch);
        notification
    }

    /// Registers a dispatch: tells its collector that it was registered,
    /// adds it to the list of dispatches, and recomputes everything that is
    /// cached, as `rebuild_interest` does, from what the collectors
    /// answered, the new one among them where it has a collector. Returns
    /// the notification for the collector, which is to be sent without
    /// waiting.
    pub fn register_dispatch(
        &mut self,
        dispatch: Dispatch,
        published: &mut MaxLevel,
        hints: &Vec<Option<LevelFilter>>,
        answers: &Vec<Vec<Interest>>,
    ) -> (r: Option<Outgoing>)
        requires
            fitting_replies(
                remaining(old(self).dispatchers().push(dispatch)).len(),
                old(self).callsites().len(),
                hints@,
                answers@,
            ),
        ensures
            r == told(dispatch, DispatchMessage::OnRegisterDispatch(dispatch)),
            final(self).dispatchers() == remaining(old(self).dispatchers().push(dispatch)),
            remaining(final(self).dispatchers()) == final(self).dispatchers(),
            final(self).callsites().len() == old(self).callsites().len(),
            forall|i: int|
                0 <= i < old(self).callsites().len() ==> #[trigger] final(self).callsites()[i]
                    == (CallsiteView {
                    interest: Some(combined(answers@[i]@)),
                    metadata: old(self).callsites()[i].metadata,
                }),
            final(published)@ == Some(max_hint(hints@)),
    {
        let notification: Option<Outgoing> = self.add_dispatch(dispatch);
        self.rebuild_interest(published, hints, answers);
        notification
    }
}

} // verus!
