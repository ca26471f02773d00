use game_of_life::counter::Counter;

#[test]
fn default_counter_starts_at_a_zero() {
    let counter = Counter::default();
    assert_eq!(counter.key(), 'a');
    assert_eq!(counter.count(), 0);
}

#[test]
fn new_counter_keeps_its_arguments() {
    let counter = Counter::new('q', -7);
    assert_eq!(counter.key(), 'q');
    assert_eq!(counter.count(), -7);
}

#[test]
fn increment_adds_one() {
    let mut counter = Counter::new('k', 41);
    counter.increment();
    assert_eq!(counter.count(), 42);
    assert_eq!(counter.key(), 'k');
    counter.increment();
    assert_eq!(counter.count(), 43);
}

#[test]
fn update_key_keeps_the_count() {
    let mut counter = Counter::new('k', 5);
    counter.update_key('z');
    assert_eq!(counter.key(), 'z');
    assert_eq!(counter.count(), 5);
}
