use sn_fake_clock::FakeClock;
use sn_fake_clock::TimeStore;

#[test]
fn a_new_store_reads_zero() {
    let store = TimeStore::new();
    assert_eq!(FakeClock::time(&store), 0);

    let by_default = TimeStore::default();
    assert_eq!(FakeClock::time(&by_default), 0);
}

#[test]
fn set_time_then_time_reads_what_was_set() {
    let mut store = TimeStore::new();
    let times: Vec<u64> = vec![0, 1, 42, 1_000_000, std::u64::MAX - 1, std::u64::MAX];
    for time in times {
        FakeClock::set_time(&mut store, time);
        assert_eq!(FakeClock::time(&store), time);
    }
}

#[test]
fn set_time_may_turn_the_clock_back() {
    let mut store = TimeStore::new();
    FakeClock::set_time(&mut store, 5_000);
    FakeClock::set_time(&mut store, 7);
    assert_eq!(FakeClock::time(&store), 7);
    FakeClock::set_time(&mut store, 0);
    assert_eq!(FakeClock::time(&store), 0);
}

#[test]
fn advance_time_adds_to_what_was_set() {
    let mut store = TimeStore::new();
    FakeClock::set_time(&mut store, 100);
    FakeClock::advance_time(&mut store, 23);
    assert_eq!(FakeClock::time(&store), 123);
    FakeClock::advance_time(&mut store, 877);
    assert_eq!(FakeClock::time(&store), 1_000);
    FakeClock::advance_time(&mut store, 0);
    assert_eq!(FakeClock::time(&store), 1_000);
}

#[test]
fn advance_time_from_a_new_store() {
    let mut store = TimeStore::new();
    FakeClock::advance_time(&mut store, 9);
    assert_eq!(FakeClock::time(&store), 9);
}

#[test]
fn advance_time_up_to_the_upper_bound() {
    let mut store = TimeStore::new();
    FakeClock::set_time(&mut store, std::u64::MAX - 5);
    FakeClock::advance_time(&mut store, 5);
    assert_eq!(FakeClock::time(&store), std::u64::MAX);

    FakeClock::set_time(&mut store, 0);
    FakeClock::advance_time(&mut store, std::u64::MAX);
    assert_eq!(FakeClock::time(&store), std::u64::MAX);
}

#[test]
fn now_holds_what_the_store_reads() {
    let mut store = TimeStore::new();
    assert_eq!(format!("{:?}", FakeClock::now(&store)), "FakeClock { time_created: 0 }");
    FakeClock::set_time(&mut store, 321);
    assert_eq!(format!("{:?}", FakeClock::now(&store)), "FakeClock { time_created: 321 }");
    FakeClock::advance_time(&mut store, 4);
    assert_eq!(format!("{:?}", FakeClock::now(&store)), "FakeClock { time_created: 325 }");
}

#[test]
fn a_value_keeps_its_time_when_the_store_moves_on() {
    let mut store = TimeStore::new();
    FakeClock::set_time(&mut store, 10);
    let taken = FakeClock::now(&store);
    let copy = taken;

    FakeClock::advance_time(&mut store, 90);
    FakeClock::set_time(&mut store, 3);

    assert_eq!(format!("{:?}", taken), "FakeClock { time_created: 10 }");
    assert_eq!(taken, copy);
    assert_ne!(taken, FakeClock::now(&store));
}

#[test]
fn two_stores_do_not_see_each_other() {
    let mut first = TimeStore::new();
    let mut second = TimeStore::new();

    FakeClock::set_time(&mut first, 111);
    FakeClock::set_time(&mut second, 222);
    assert_eq!(FakeClock::time(&first), 111);
    assert_eq!(FakeClock::time(&second), 222);

    FakeClock::advance_time(&mut first, 1);
    assert_eq!(FakeClock::time(&first), 112);
    assert_eq!(FakeClock::time(&second), 222);
    assert_eq!(FakeClock::now(&second).elapsed(&second).as_millis(), 0);
}
