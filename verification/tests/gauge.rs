use button_chaos::gauge::{Bar, BarBehavior, BarEvent, BarWrite, OnBarEmpty, OnBarFull};
use button_chaos::mechanic::GameMechanic;

const SENDER: GameMechanic = GameMechanic::Durability;

fn quiet() -> BarBehavior {
    BarBehavior { trigger_on_full: false, trigger_on_empty: false }
}

fn on_empty() -> BarBehavior {
    BarBehavior { trigger_on_full: false, trigger_on_empty: true }
}

fn both() -> BarBehavior {
    BarBehavior { trigger_on_full: true, trigger_on_empty: true }
}

#[test]
fn defaults_are_zero_and_silent() {
    assert_eq!(Bar::default(), Bar { min: 0, max: 0, current: 0 });
    assert_eq!(BarBehavior::default(), quiet());
}

#[test]
fn set_clamps_into_bounds() {
    let mut bar = Bar { min: 0, max: 5, current: 3 };
    assert_eq!(bar.set(9, &quiet(), SENDER), None);
    assert_eq!(bar.current, 5);
    assert_eq!(bar.set(-4, &quiet(), SENDER), None);
    assert_eq!(bar.current, 0);
    assert_eq!(bar.set(2, &quiet(), SENDER), None);
    assert_eq!(bar.current, 2);
}

#[test]
fn every_write_of_a_run_leaves_the_value_within_bounds() {
    let writes = [
        BarWrite::By(-3),
        BarWrite::To(100),
        BarWrite::By(i64::MAX),
        BarWrite::By(i64::MIN),
        BarWrite::To(i64::MIN),
        BarWrite::By(7),
        BarWrite::To(-2),
        BarWrite::By(-1),
    ];
    let expected = [-2, 9, 9, -4, -4, 3, -2, -3];
    let mut bar = Bar { min: -4, max: 9, current: 1 };
    for (write, value) in writes.iter().zip(expected.iter()) {
        bar.apply(*write, &both(), SENDER);
        assert!(bar.min <= bar.current && bar.current <= bar.max);
        assert_eq!(bar.current, *value);
        assert_eq!((bar.min, bar.max), (-4, 9));
    }
}

#[test]
fn adjust_adds_without_overflow() {
    let mut bar = Bar { min: i64::MIN, max: i64::MAX, current: i64::MAX - 1 };
    bar.adjust(i64::MAX, &quiet(), SENDER);
    assert_eq!(bar.current, i64::MAX);
    bar.adjust(i64::MIN, &quiet(), SENDER);
    assert_eq!(bar.current, -1);
    bar.drain(u64::MAX, &quiet(), SENDER);
    assert_eq!(bar.current, i64::MIN);
}

#[test]
fn empty_fires_once() {
    let mut bar = Bar { min: 0, max: 5, current: 2 };
    assert_eq!(bar.adjust(-1, &on_empty(), SENDER), None);
    assert_eq!(
        bar.adjust(-1, &on_empty(), SENDER),
        Some(BarEvent::Empty(OnBarEmpty { sender: SENDER }))
    );
    assert_eq!(bar.adjust(-1, &on_empty(), SENDER), None);
    assert_eq!(bar.set(-10, &on_empty(), SENDER), None);
    assert_eq!(bar.set(0, &on_empty(), SENDER), None);
    assert_eq!(bar.current, 0);
}

#[test]
fn empty_fires_again_after_the_bar_has_left_the_bound() {
    let mut bar = Bar { min: 0, max: 5, current: 1 };
    assert!(bar.adjust(-1, &on_empty(), SENDER).is_some());
    assert_eq!(bar.adjust(1, &on_empty(), SENDER), None);
    assert_eq!(
        bar.adjust(-1, &on_empty(), SENDER),
        Some(BarEvent::Empty(OnBarEmpty { sender: SENDER }))
    );
}

#[test]
fn full_fires_on_the_write_that_reaches_the_upper_bound() {
    let mut bar = Bar { min: 0, max: 5, current: 2 };
    assert_eq!(bar.fill(&both(), GameMechanic::Timer), Some(BarEvent::Full(OnBarFull { sender: GameMechanic::Timer })));
    assert_eq!(bar.current, 5);
    assert_eq!(bar.fill(&both(), GameMechanic::Timer), None);
    assert_eq!(bar.set(77, &both(), GameMechanic::Timer), None);
}

#[test]
fn a_disabled_bound_fires_nothing() {
    let mut bar = Bar { min: 0, max: 5, current: 2 };
    assert_eq!(bar.set(0, &quiet(), SENDER), None);
    assert_eq!(bar.set(5, &on_empty(), SENDER), None);
}

#[test]
fn full_takes_precedence_where_the_bounds_coincide() {
    let mut bar = Bar { min: 3, max: 3, current: 8 };
    assert_eq!(bar.set(0, &both(), SENDER), Some(BarEvent::Full(OnBarFull { sender: SENDER })));
    assert_eq!(bar.current, 3);
    assert_eq!(bar.set(0, &both(), SENDER), None);

    let mut bar = Bar { min: 3, max: 3, current: 8 };
    assert_eq!(bar.set(0, &on_empty(), SENDER), Some(BarEvent::Empty(OnBarEmpty { sender: SENDER })));
}

#[test]
fn a_countdown_of_five_seconds_fires_at_the_fifth() {
    let mut bar = Bar { min: 0, max: 5, current: 5 };
    let mut events = Vec::new();
    for second in 1..=8 {
        if let Some(event) = bar.adjust(-1, &on_empty(), SENDER) {
            events.push((second, event));
        }
        if second < 5 {
            assert_eq!(bar.current, 5 - second);
            assert!(events.is_empty());
        } else {
            assert_eq!(bar.current, 0);
        }
    }
    assert_eq!(events, vec![(5, BarEvent::Empty(OnBarEmpty { sender: SENDER }))]);
}

#[test]
fn a_countdown_that_overshoots_still_fires_once() {
    let mut bar = Bar { min: 0, max: 5_000_000, current: 5_000_000 };
    let mut fired = 0;
    for _ in 0..10 {
        if bar.drain(1_500_000, &on_empty(), SENDER).is_some() {
            fired += 1;
        }
    }
    assert_eq!(fired, 1);
    assert_eq!(bar.current, 0);
}
