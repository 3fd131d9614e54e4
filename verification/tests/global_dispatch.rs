use lunatic_log::dispatch::{
    get_default, has_been_set, set_global_default, with_default, Dispatch, DispatchProcess,
    GlobalDispatchProcess,
};

#[test]
fn global_dispatch() {
    let mut state = GlobalDispatchProcess::new();
    let dispatcher_a = Dispatch::some(DispatchProcess::new(0, 1));
    set_global_default(&mut state, &dispatcher_a).expect("global dispatch set failed");
    get_default(&state, |current| {
        assert_eq!(
            current.collector().map(|process| process.id()),
            dispatcher_a.collector().map(|process| process.id())
        )
    });

    let dispatcher_b = Dispatch::some(DispatchProcess::new(0, 2));
    with_default(&mut state, &dispatcher_b, |inside| {
        get_default(&inside, |current| {
            assert_eq!(
                current.collector().map(|process| process.id()),
                dispatcher_b.collector().map(|process| process.id())
            )
        });
        (inside, ())
    });

    get_default(&state, |current| {
        assert_eq!(
            current.collector().map(|process| process.id()),
            dispatcher_a.collector().map(|process| process.id())
        )
    });

    set_global_default(&mut state, &dispatcher_a).expect_err("double global dispatch set succeeded");
}

#[test]
fn global_default_is_set_once() {
    let mut state = GlobalDispatchProcess::new();
    assert!(!has_been_set(&state));
    let first = Dispatch::some(DispatchProcess::new(3, 7));
    let second = Dispatch::some(DispatchProcess::new(3, 8));
    assert!(set_global_default(&mut state, &first).is_ok());
    assert!(has_been_set(&state));
    let error = set_global_default(&mut state, &second).unwrap_err();
    assert_eq!(
        error.to_string(),
        "a global default trace dispatcher has already been set"
    );
    assert!(has_been_set(&state));
    assert_eq!(get_default(&state, |current| current), first);
}

#[test]
fn global_default_without_collector_sets_nothing() {
    let mut state = GlobalDispatchProcess::new();
    assert!(set_global_default(&mut state, &Dispatch::none()).is_ok());
    assert!(!has_been_set(&state));
    let later = Dispatch::some(DispatchProcess::new(0, 4));
    assert!(set_global_default(&mut state, &later).is_ok());
    assert!(has_been_set(&state));
}
