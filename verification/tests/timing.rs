use udpqueue::capability::{select_route, Route};
use udpqueue::flow::{Destination, SendHandle};
use udpqueue::pacing::{next_due_time, wait_nanos};

const MS: u64 = 1_000_000;

#[test]
fn cadence_kept_when_on_time() {
    // Sent exactly at the due time: the next packet is due one interval on.
    assert_eq!(next_due_time(100 * MS, 100 * MS, 20 * MS), 120 * MS);
    // Sent a little late, under twice the interval: the cadence holds.
    assert_eq!(next_due_time(100 * MS, 110 * MS, 20 * MS), 120 * MS);
    assert_eq!(next_due_time(0, 5, 20 * MS), 20 * MS);
}

#[test]
fn cadence_kept_when_early() {
    // A dispatch that finished before the due time keeps the cadence too.
    assert_eq!(next_due_time(100 * MS, 90 * MS, 20 * MS), 120 * MS);
}

#[test]
fn drift_correction_resets_cadence() {
    // Delayed by at least twice the interval: the next due time restarts
    // from now, so there is no burst of catch-up sends.
    assert_eq!(next_due_time(0, 50 * MS, 20 * MS), 70 * MS);
    // Exactly twice the interval is already a reset...
    assert_eq!(next_due_time(100 * MS, 140 * MS, 20 * MS), 160 * MS);
    // ...one nanosecond less is not.
    assert_eq!(next_due_time(100 * MS, 140 * MS - 1, 20 * MS), 120 * MS);
}

#[test]
fn drift_correction_near_the_largest_instant() {
    let half = u64::MAX / 2;
    // due_time + interval and now + interval both still fit in 64 bits.
    assert_eq!(next_due_time(half, half, half), u64::MAX - 1);
}

#[test]
fn wait_is_never_negative() {
    assert_eq!(wait_nanos(100, 40), 60);
    assert_eq!(wait_nanos(100, 100), 0);
    assert_eq!(wait_nanos(40, 100), 0, "a due time already past means no wait");
    assert_eq!(wait_nanos(0, 0), 0);
}

#[test]
fn route_prefers_the_override() {
    let v4 = Destination { ipv6: false, ip: 1, port: 1 };
    let v6 = Destination { ipv6: true, ip: 1, port: 1 };
    assert_eq!(select_route(Some(SendHandle(9)), v4, true), Route::Override(SendHandle(9)));
    assert_eq!(select_route(Some(SendHandle(9)), v6, false), Route::Override(SendHandle(9)));
}

#[test]
fn route_by_address_family() {
    let v4 = Destination { ipv6: false, ip: 1, port: 1 };
    let v6 = Destination { ipv6: true, ip: 1, port: 1 };
    assert_eq!(select_route(None, v4, true), Route::SharedV4);
    assert_eq!(select_route(None, v4, false), Route::SharedV4);
    assert_eq!(select_route(None, v6, true), Route::SharedV6);
}

#[test]
fn route_without_v6_transport_fails_the_send() {
    let v6 = Destination { ipv6: true, ip: 1, port: 1 };
    assert_eq!(select_route(None, v6, false), Route::NoTransport);
}
