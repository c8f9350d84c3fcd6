use flow_auth::rate::{ApiCounter, API_LIMIT};

#[test]
fn counter_admits_exactly_the_limit() {
    let mut c = ApiCounter::new();
    let id = "a@x".to_string();
    assert_eq!(c.count(&id), 0);
    for _ in 0..API_LIMIT {
        assert!(c.check_and_increment(&id, 0));
    }
    assert_eq!(c.count(&id), API_LIMIT);
    // The request after the limit's number is refused and not counted.
    assert!(!c.check_and_increment(&id, 0));
    assert_eq!(c.count(&id), API_LIMIT);
    assert!(!c.check_and_increment(&id, 0));
    c.reset();
    assert_eq!(c.count(&id), 0);
    for _ in 0..API_LIMIT {
        assert!(c.check_and_increment(&id, 0));
    }
    assert!(!c.check_and_increment(&id, 0));
}

#[test]
fn counters_are_per_identity() {
    let mut c = ApiCounter::new();
    let a = "a@x".to_string();
    let b = "b@x".to_string();
    assert!(c.check_and_increment(&a, 0));
    assert!(c.check_and_increment(&a, 0));
    assert_eq!(c.count(&a), 2);
    assert_eq!(c.count(&b), 0);
    c.track(&b, 0);
    assert_eq!(c.count(&b), 0);
    c.track(&a, 0);
    assert_eq!(c.count(&a), 2);
}
