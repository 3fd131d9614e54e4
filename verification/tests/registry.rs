use lunatic_log::callsite::{
    max_level_of, rebuild_callsite_interest, rebuild_interest_cache, register,
    register_dispatch, Callsite, Identifier, Registration, Registry, RegistryMessage,
};
use lunatic_log::collect::Interest;
use lunatic_log::dispatch::{
    Ask, Dispatch, DispatchMessage, DispatchProcess, Outgoing,
};
use lunatic_log::level::filter::{LevelFilter, MaxLevel};
use lunatic_log::level::Level;
use lunatic_log::metadata::Metadata;

fn meta(level: Level, line: u32) -> Metadata {
    Metadata::new(level, "app".to_string(), "src/app.rs".to_string(), line, 1, 2)
}

fn collector(id: u64) -> DispatchProcess {
    DispatchProcess::new(0, id)
}

#[test]
fn new_callsite_is_unregistered() {
    let callsite = Callsite::new(meta(Level::INFO, 10));
    assert!(callsite.needs_registration());
    assert!(callsite.metadata().same(&meta(Level::INFO, 10)));
}

#[test]
fn first_interest_caches_what_the_registry_computed() {
    let mut callsite = Callsite::new(meta(Level::INFO, 10));
    assert_eq!(callsite.interest(Some(Interest::Sometimes)), Interest::Sometimes);
    assert!(!callsite.needs_registration());
    // cached: later answers are not looked at
    assert_eq!(callsite.interest(Some(Interest::Always)), Interest::Sometimes);
    assert_eq!(callsite.interest(None), Interest::Sometimes);
}

#[test]
fn without_registry_nobody_is_interested_and_nothing_is_cached() {
    let mut callsite = Callsite::new(meta(Level::INFO, 10));
    assert_eq!(callsite.interest(None), Interest::Never);
    assert!(callsite.needs_registration());
    assert_eq!(callsite.interest(Some(Interest::Always)), Interest::Always);
}

#[test]
fn set_interest_overwrites_the_cache() {
    let mut callsite = Callsite::new(meta(Level::DEBUG, 3));
    for interest in [Interest::Never, Interest::Always, Interest::Sometimes, Interest::Never] {
        callsite.set_interest(interest);
        assert!(!callsite.needs_registration());
        assert_eq!(callsite.interest(None), interest);
        assert!(callsite.metadata().same(&meta(Level::DEBUG, 3)));
    }
}

#[test]
fn always_interest_is_enabled_without_asking() {
    let callsite = Callsite::new(meta(Level::INFO, 10));
    let dispatch = Dispatch::some(collector(5));
    assert!(matches!(
        callsite.is_enabled(Interest::Always, &dispatch),
        Ask::Answer(true)
    ));
    assert!(matches!(
        callsite.is_enabled(Interest::Always, &Dispatch::none()),
        Ask::Answer(true)
    ));
}

#[test]
fn other_interest_asks_the_current_collector() {
    let callsite = Callsite::new(meta(Level::INFO, 10));
    let dispatch = Dispatch::some(collector(5));
    for interest in [Interest::Sometimes, Interest::Never] {
        match callsite.is_enabled(interest, &dispatch) {
            Ask::Request(Outgoing { to, message: DispatchMessage::Enabled(metadata) }) => {
                assert_eq!(to, collector(5));
                assert!(metadata.same(&meta(Level::INFO, 10)));
            }
            other => panic!("unexpected {other:?}"),
        }
        assert!(matches!(
            callsite.is_enabled(interest, &Dispatch::none()),
            Ask::Answer(false)
        ));
    }
}

#[test]
fn messages_go_out_only_to_a_registry_in_reach() {
    assert!(matches!(
        rebuild_interest_cache(true),
        Some(RegistryMessage::RebuildInterest)
    ));
    assert!(rebuild_interest_cache(false).is_none());
    let registration = Registration::new(Callsite::new(meta(Level::INFO, 1)));
    match register(true, registration) {
        Some(RegistryMessage::Register(registration)) => {
            let callsite = registration.into_callsite();
            assert!(callsite.needs_registration());
            assert!(callsite.metadata().same(&meta(Level::INFO, 1)));
        }
        other => panic!("unexpected {other:?}"),
    }
    let registration = Registration::new(Callsite::new(meta(Level::INFO, 1)));
    assert!(register(false, registration).is_none());
    let dispatch = Dispatch::some(collector(9));
    match register_dispatch(true, dispatch) {
        Some(RegistryMessage::RegisterDispatch(d)) => assert_eq!(d, dispatch),
        other => panic!("unexpected {other:?}"),
    }
    assert!(register_dispatch(false, dispatch).is_none());
}

#[test]
fn maximum_of_hints() {
    assert_eq!(max_level_of(&vec![]), LevelFilter::OFF);
    assert_eq!(max_level_of(&vec![Some(LevelFilter::OFF)]), LevelFilter::OFF);
    assert_eq!(max_level_of(&vec![Some(LevelFilter::DEBUG)]), LevelFilter::DEBUG);
    assert_eq!(
        max_level_of(&vec![Some(LevelFilter::WARN), Some(LevelFilter::INFO), Some(LevelFilter::ERROR)]),
        LevelFilter::INFO
    );
    assert_eq!(
        max_level_of(&vec![Some(LevelFilter::WARN), None, Some(LevelFilter::ERROR)]),
        LevelFilter::TRACE
    );
    assert_eq!(max_level_of(&vec![None]), LevelFilter::TRACE);
}

#[test]
fn callsite_interest_is_the_combination_of_the_answers() {
    let mut callsite = Callsite::new(meta(Level::INFO, 1));
    rebuild_callsite_interest(&vec![Interest::Always, Interest::Always], &mut callsite);
    assert_eq!(callsite.interest(None), Interest::Always);
    rebuild_callsite_interest(&vec![Interest::Always, Interest::Never], &mut callsite);
    assert_eq!(callsite.interest(None), Interest::Sometimes);
    rebuild_callsite_interest(&vec![], &mut callsite);
    assert_eq!(callsite.interest(None), Interest::Never);
}

#[test]
fn registering_a_callsite_appends_it_with_its_interest() {
    let mut registry = Registry::new();
    assert_eq!(registry.callsite_count(), 0);
    let first = registry.register(
        Registration::new(Callsite::new(meta(Level::INFO, 1))),
        &vec![],
    );
    assert_eq!(first, Identifier(0));
    registry.add_dispatch(Dispatch::some(collector(1)));
    registry.add_dispatch(Dispatch::some(collector(2)));
    let second = registry.register(
        Registration::new(Callsite::new(meta(Level::DEBUG, 2))),
        &vec![Interest::Always, Interest::Never],
    );
    assert_eq!(second, Identifier(1));
    assert_eq!(registry.callsite_count(), 2);
    let mut a = registry.callsite(first).unwrap().clone();
    let mut b = registry.callsite(second).unwrap().clone();
    assert_eq!(a.interest(None), Interest::Never);
    assert_eq!(b.interest(None), Interest::Sometimes);
    assert!(a.metadata().same(&meta(Level::INFO, 1)));
    assert!(b.metadata().same(&meta(Level::DEBUG, 2)));
    assert!(registry.callsite(Identifier(2)).is_none());
}

#[test]
fn registering_a_dispatch_publishes_its_hint() {
    let mut registry = Registry::new();
    let mut published = MaxLevel::new();
    let dispatch = Dispatch::some(collector(1));
    let notification = registry.register_dispatch(
        dispatch,
        &mut published,
        &vec![Some(LevelFilter::DEBUG)],
        &vec![],
    );
    match notification {
        Some(Outgoing { to, message: DispatchMessage::OnRegisterDispatch(d) }) => {
            assert_eq!(to, collector(1));
            assert_eq!(d, dispatch);
        }
        other => panic!("unexpected {other:?}"),
    }
    assert_eq!(registry.active_dispatchers(), &vec![dispatch]);
    assert_eq!(LevelFilter::current(&mut published, None), LevelFilter::DEBUG);
}

#[test]
fn pruned_collector_leaves_the_maximum_off() {
    let mut registry = Registry::new();
    let mut published = MaxLevel::new();
    let dispatch = Dispatch::some(collector(1));
    registry.register_dispatch(dispatch, &mut published, &vec![Some(LevelFilter::DEBUG)], &vec![]);
    let id = registry.register(
        Registration::new(Callsite::new(meta(Level::INFO, 1))),
        &vec![Interest::Always],
    );
    assert_eq!(LevelFilter::current(&mut published, None), LevelFilter::DEBUG);

    registry.deactivate(collector(1));
    assert_eq!(registry.active_dispatchers(), &vec![Dispatch::none()]);
    registry.rebuild_interest(&mut published, &vec![], &vec![vec![]]);
    assert!(registry.active_dispatchers().is_empty());
    assert_eq!(LevelFilter::current(&mut published, None), LevelFilter::OFF);
    let mut callsite = registry.callsite(id).unwrap().clone();
    assert_eq!(callsite.interest(None), Interest::Never);
}

#[test]
fn registering_no_collector_is_pruned_at_once() {
    let mut registry = Registry::new();
    let mut published = MaxLevel::new();
    let notification =
        registry.register_dispatch(Dispatch::none(), &mut published, &vec![], &vec![]);
    assert!(notification.is_none());
    assert!(registry.active_dispatchers().is_empty());
    assert_eq!(published.get(), Some(LevelFilter::OFF));
}

#[test]
fn rebuild_recomputes_every_callsite_and_keeps_order() {
    let mut registry = Registry::new();
    let mut published = MaxLevel::new();
    let a = Dispatch::some(collector(1));
    let b = Dispatch::some(collector(2));
    registry.register_dispatch(a, &mut published, &vec![Some(LevelFilter::INFO)], &vec![]);
    registry.register_dispatch(Dispatch::none(), &mut published, &vec![Some(LevelFilter::INFO)], &vec![]);
    registry.register_dispatch(
        b,
        &mut published,
        &vec![Some(LevelFilter::INFO), Some(LevelFilter::WARN)],
        &vec![],
    );
    assert_eq!(registry.active_dispatchers(), &vec![a, b]);
    assert_eq!(published.get(), Some(LevelFilter::INFO));
    let first = registry.register(
        Registration::new(Callsite::new(meta(Level::INFO, 1))),
        &vec![Interest::Never, Interest::Never],
    );
    let second = registry.register(
        Registration::new(Callsite::new(meta(Level::ERROR, 2))),
        &vec![Interest::Always, Interest::Always],
    );
    registry.rebuild_interest(
        &mut published,
        &vec![None, Some(LevelFilter::ERROR)],
        &vec![vec![Interest::Always, Interest::Always], vec![Interest::Always, Interest::Never]],
    );
    assert_eq!(published.get(), Some(LevelFilter::TRACE));
    assert_eq!(registry.active_dispatchers(), &vec![a, b]);
    assert_eq!(registry.callsite_count(), 2);
    let mut x = registry.callsite(first).unwrap().clone();
    let mut y = registry.callsite(second).unwrap().clone();
    assert_eq!(x.interest(None), Interest::Always);
    assert_eq!(y.interest(None), Interest::Sometimes);
    assert!(x.metadata().same(&meta(Level::INFO, 1)));
    assert!(y.metadata().same(&meta(Level::ERROR, 2)));
}

#[test]
fn prune_keeps_the_dispatches_with_a_collector() {
    let mut registry = Registry::new();
    let a = Dispatch::some(collector(1));
    let b = Dispatch::some(collector(2));
    let c = Dispatch::some(collector(3));
    for d in [a, b, c, b] {
        registry.add_dispatch(d);
    }
    registry.deactivate(collector(2));
    assert_eq!(
        registry.active_dispatchers(),
        &vec![a, Dispatch::none(), c, Dispatch::none()]
    );
    registry.prune();
    assert_eq!(registry.active_dispatchers(), &vec![a, c]);
}

#[test]
fn inquiries_go_to_every_dispatch_in_order() {
    let mut registry = Registry::new();
    let a = Dispatch::some(collector(1));
    let b = Dispatch::some(collector(2));
    registry.add_dispatch(a);
    registry.add_dispatch(b);
    registry.deactivate(collector(1));
    let inquiries = registry.callsite_inquiries(&meta(Level::WARN, 8));
    assert_eq!(inquiries.len(), 2);
    assert!(matches!(inquiries[0], Ask::Answer(Interest::Never)));
    match &inquiries[1] {
        Ask::Request(Outgoing { to, message: DispatchMessage::RegisterCallsite(m) }) => {
            assert_eq!(*to, collector(2));
            assert!(m.same(&meta(Level::WARN, 8)));
        }
        other => panic!("unexpected {other:?}"),
    }
    let hints = registry.hint_inquiries();
    assert_eq!(hints.len(), 2);
    assert!(matches!(hints[0], Ask::Answer(None)));
    match &hints[1] {
        Ask::Request(Outgoing { to, message: DispatchMessage::MaxLevelHint }) => {
            assert_eq!(*to, collector(2));
        }
        other => panic!("unexpected {other:?}"),
    }
}

#[test]
fn added_dispatch_waits_for_the_next_rebuild() {
    let mut registry = Registry::new();
    let mut published = MaxLevel::new();
    let id = registry.register(
        Registration::new(Callsite::new(meta(Level::INFO, 1))),
        &vec![],
    );
    let dispatch = Dispatch::some(collector(4));
    match registry.add_dispatch(dispatch) {
        Some(Outgoing { to, message: DispatchMessage::OnRegisterDispatch(d) }) => {
            assert_eq!(to, collector(4));
            assert_eq!(d, dispatch);
        }
        other => panic!("unexpected {other:?}"),
    }
    assert!(registry.add_dispatch(Dispatch::none()).is_none());
    assert_eq!(registry.active_dispatchers(), &vec![dispatch, Dispatch::none()]);
    assert!(published.is_unset());
    let mut before = registry.callsite(id).unwrap().clone();
    assert_eq!(before.interest(None), Interest::Never);
    registry.rebuild_interest(&mut published, &vec![Some(LevelFilter::WARN)], &vec![vec![Interest::Always]]);
    assert_eq!(registry.active_dispatchers(), &vec![dispatch]);
    assert_eq!(published.get(), Some(LevelFilter::WARN));
    let mut after = registry.callsite(id).unwrap().clone();
    assert_eq!(after.interest(None), Interest::Always);
}

#[test]
fn replies_have_to_fit_the_registry() {
    let mut registry = Registry::new();
    assert!(registry.replies_fit(&vec![], &vec![]));
    assert!(!registry.replies_fit(&vec![None], &vec![]));
    assert!(!registry.replies_fit(&vec![], &vec![vec![]]));
    assert!(registry.answers_fit(&vec![]));
    assert!(!registry.answers_fit(&vec![Interest::Never]));

    registry.add_dispatch(Dispatch::some(collector(1)));
    registry.add_dispatch(Dispatch::none());
    registry.add_dispatch(Dispatch::some(collector(2)));
    assert!(registry.answers_fit(&vec![Interest::Always, Interest::Never, Interest::Sometimes]));
    assert!(!registry.answers_fit(&vec![Interest::Always, Interest::Always, Interest::Sometimes]));
    assert!(!registry.answers_fit(&vec![Interest::Always, Interest::Never]));
    registry.register(
        Registration::new(Callsite::new(meta(Level::INFO, 1))),
        &vec![Interest::Always, Interest::Never, Interest::Sometimes],
    );

    // two dispatches have a collector, and there is one callsite
    let hints = vec![Some(LevelFilter::INFO), None];
    assert!(registry.replies_fit(&hints, &vec![vec![Interest::Always, Interest::Never]]));
    assert!(!registry.replies_fit(&hints, &vec![vec![Interest::Always]]));
    assert!(!registry.replies_fit(&hints, &vec![vec![Interest::Always; 3]]));
    assert!(!registry.replies_fit(&hints, &vec![]));
    assert!(!registry.replies_fit(&hints, &vec![vec![Interest::Always; 2], vec![Interest::Always; 2]]));
    assert!(!registry.replies_fit(&vec![None], &vec![vec![Interest::Always, Interest::Never]]));
    assert!(!registry.replies_fit(&vec![None; 3], &vec![vec![Interest::Always, Interest::Never]]));
}

#[test]
fn rebuilding_begins_with_pruning_and_asks_who_remains() {
    let mut registry = Registry::new();
    let mut published = MaxLevel::new();
    let a = Dispatch::some(collector(1));
    let b = Dispatch::some(collector(2));
    registry.add_dispatch(a);
    registry.add_dispatch(Dispatch::none());
    registry.add_dispatch(b);
    let first = registry.register(
        Registration::new(Callsite::new(meta(Level::INFO, 1))),
        &vec![Interest::Never, Interest::Never, Interest::Never],
    );
    let second = registry.register(
        Registration::new(Callsite::new(meta(Level::ERROR, 2))),
        &vec![Interest::Never, Interest::Never, Interest::Never],
    );

    let inquiries = registry.begin_rebuild();
    assert_eq!(registry.active_dispatchers(), &vec![a, b]);
    assert_eq!(inquiries.hints.len(), 2);
    for (hint, to) in inquiries.hints.iter().zip([collector(1), collector(2)]) {
        match hint {
            Ask::Request(Outgoing { to: asked, message: DispatchMessage::MaxLevelHint }) => {
                assert_eq!(*asked, to)
            }
            other => panic!("unexpected {other:?}"),
        }
    }
    assert_eq!(inquiries.interests.len(), 2);
    for (row, line) in inquiries.interests.iter().zip([1u32, 2]) {
        assert_eq!(row.len(), 2);
        for (inquiry, to) in row.iter().zip([collector(1), collector(2)]) {
            match inquiry {
                Ask::Request(Outgoing { to: asked, message: DispatchMessage::RegisterCallsite(m) }) => {
                    assert_eq!(*asked, to);
                    assert_eq!(m.line(), line);
                }
                other => panic!("unexpected {other:?}"),
            }
        }
    }

    let hints = vec![Some(LevelFilter::WARN), Some(LevelFilter::DEBUG)];
    let answers = vec![
        vec![Interest::Always, Interest::Always],
        vec![Interest::Never, Interest::Always],
    ];
    assert!(registry.replies_fit(&hints, &answers));
    registry.rebuild_interest(&mut published, &hints, &answers);
    assert_eq!(published.get(), Some(LevelFilter::DEBUG));
    let mut x = registry.callsite(first).unwrap().clone();
    let mut y = registry.callsite(second).unwrap().clone();
    assert_eq!(x.interest(None), Interest::Always);
    assert_eq!(y.interest(None), Interest::Sometimes);
}

#[test]
fn registry_without_collectors_caches_never_and_publishes_off() {
    let mut registry = Registry::new();
    let mut published = MaxLevel::new();
    let id = registry.register(Registration::new(Callsite::new(meta(Level::INFO, 1))), &vec![]);
    let inquiries = registry.begin_rebuild();
    assert!(inquiries.hints.is_empty());
    assert_eq!(inquiries.interests.len(), 1);
    assert!(inquiries.interests[0].is_empty());
    registry.rebuild_interest(&mut published, &vec![], &vec![vec![]]);
    assert_eq!(published.get(), Some(LevelFilter::OFF));
    let mut callsite = registry.callsite(id).unwrap().clone();
    assert_eq!(callsite.interest(None), Interest::Never);
}

#[test]
fn disabled_span_has_the_callsites_metadata_and_no_identifier() {
    let callsite = Callsite::new(meta(Level::DEBUG, 77));
    let span = callsite.disabled_span();
    assert!(span.is_disabled());
    assert_eq!(span.id, None);
    assert!(span.metadata.same(&meta(Level::DEBUG, 77)));
}
