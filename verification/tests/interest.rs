use lunatic_log::collect::{combine, Interest};

const ALL: [Interest; 3] = [Interest::Never, Interest::Sometimes, Interest::Always];

#[test]
fn interest_constructors_and_tests() {
    assert!(Interest::never().is_never());
    assert!(Interest::sometimes().is_sometimes());
    assert!(Interest::always().is_always());
    assert!(!Interest::never().is_always());
    assert!(!Interest::always().is_sometimes());
    assert!(!Interest::sometimes().is_never());
}

#[test]
fn and_keeps_agreement_and_mixes_to_sometimes() {
    for a in ALL.iter() {
        for b in ALL.iter() {
            let expected = if a == b { *a } else { Interest::Sometimes };
            assert_eq!(a.and(*b), expected);
            assert_eq!(a.and(*b), b.and(*a));
            for c in ALL.iter() {
                assert_eq!(a.and(*b).and(*c), a.and(b.and(*c)));
            }
        }
    }
}

#[test]
fn nobody_asked_means_never() {
    assert_eq!(combine(&vec![]), Interest::Never);
}

#[test]
fn unanimous_collectors_give_their_answer() {
    for n in 1..6 {
        assert_eq!(combine(&vec![Interest::Never; n]), Interest::Never);
        assert_eq!(combine(&vec![Interest::Always; n]), Interest::Always);
        assert_eq!(combine(&vec![Interest::Sometimes; n]), Interest::Sometimes);
    }
}

#[test]
fn disagreeing_collectors_give_sometimes() {
    assert_eq!(
        combine(&vec![Interest::Never, Interest::Always]),
        Interest::Sometimes
    );
    assert_eq!(
        combine(&vec![Interest::Always, Interest::Never]),
        Interest::Sometimes
    );
    assert_eq!(
        combine(&vec![Interest::Always, Interest::Always, Interest::Never]),
        Interest::Sometimes
    );
    assert_eq!(
        combine(&vec![Interest::Never, Interest::Sometimes, Interest::Never]),
        Interest::Sometimes
    );
}

#[test]
fn order_of_collectors_does_not_matter() {
    let orders = [
        vec![Interest::Never, Interest::Always, Interest::Always],
        vec![Interest::Always, Interest::Never, Interest::Always],
        vec![Interest::Always, Interest::Always, Interest::Never],
    ];
    for order in orders.iter() {
        assert_eq!(combine(order), combine(&orders[0]));
    }
}
