use tcp_lag::endpoint::Endpoint;
use tcp_lag::table::{bump, first_count, ResponseTable};

#[test]
fn empty_table_counts_zero() {
    let t = ResponseTable::new();
    assert_eq!(t.count(Endpoint::v4(127, 0, 0, 1, 9000), "pong"), 0);
}

#[test]
fn count_is_number_of_records() {
    let a = Endpoint::v4(10, 0, 0, 1, 9000);
    let b = Endpoint::v4(10, 0, 0, 2, 9000);
    let mut t = ResponseTable::new();
    let calls = [(a, "x"), (b, "x"), (a, "y"), (a, "x"), (b, "x"), (a, "x")];
    for (e, m) in calls {
        t.record(e, m);
    }
    assert_eq!(t.count(a, "x"), 3);
    assert_eq!(t.count(a, "y"), 1);
    assert_eq!(t.count(b, "x"), 2);
    assert_eq!(t.count(b, "y"), 0);
}

#[test]
fn count_ignores_order_of_records() {
    let a = Endpoint::v4(10, 0, 0, 1, 1);
    let b = Endpoint::v6(1, 1);
    let mut first = ResponseTable::new();
    let mut second = ResponseTable::new();
    let calls = [(a, "p"), (b, "p"), (a, "q"), (a, "p")];
    for (e, m) in calls.iter() {
        first.record(*e, m);
    }
    for (e, m) in calls.iter().rev() {
        second.record(*e, m);
    }
    for (e, m) in calls.iter() {
        assert_eq!(first.count(*e, m), second.count(*e, m));
    }
    assert_eq!(first.count(a, "p"), 2);
}

#[test]
fn v4_and_v6_endpoints_are_distinct() {
    let v4 = Endpoint::v4(0, 0, 0, 1, 80);
    let v6 = Endpoint::v6(1, 80);
    assert_eq!(v4.ip, v6.ip);
    let mut t = ResponseTable::new();
    t.record(v4, "m");
    assert_eq!(t.count(v4, "m"), 1);
    assert_eq!(t.count(v6, "m"), 0);
}

#[test]
fn messages_differing_in_case_are_distinct() {
    let e = Endpoint::v4(127, 0, 0, 1, 80);
    let mut t = ResponseTable::new();
    t.record(e, "Pong");
    assert_eq!(t.count(e, "pong"), 0);
    assert_eq!(t.count(e, "Pong"), 1);
}

#[test]
fn snapshot_is_a_copy() {
    let e = Endpoint::v4(127, 0, 0, 1, 80);
    let mut t = ResponseTable::new();
    t.record(e, "m");
    let s = t.snapshot();
    t.record(e, "m");
    assert_eq!(s.count(e, "m"), 1);
    assert_eq!(t.count(e, "m"), 2);
}

#[test]
fn counter_saturates_at_max() {
    let mut c: u64 = u64::MAX - 1;
    bump(&mut c);
    assert_eq!(c, u64::MAX);
    bump(&mut c);
    assert_eq!(c, u64::MAX);
    assert_eq!(first_count(), 1);
}

#[test]
fn endpoint_v4_packs_octets() {
    let e = Endpoint::v4(192, 168, 1, 2, 8080);
    assert_eq!(e.ip, 0xc0a8_0102);
    assert_eq!(e.port, 8080);
    assert!(!e.v6);
}
