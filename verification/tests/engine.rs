use udpqueue::flow::{Destination, Key, SendHandle};
use udpqueue::manager::{Manager, Step};

const MS: u64 = 1_000_000;

fn local_dest(port: u16) -> Destination {
    Destination { ipv6: false, ip: 0x7f00_0001, port }
}

fn packet(bytes: &[u8]) -> Vec<u8> {
    bytes.to_vec()
}

fn expect_dispatch(m: &mut Manager, now: u64) -> udpqueue::manager::QueueEntry {
    match m.next_step(now) {
        Step::Dispatch(e) => e,
        Step::Idle => panic!("expected a dispatch, engine was idle"),
        Step::Stopped => panic!("expected a dispatch, engine stopped"),
    }
}

#[test]
fn key_from_i64() {
    assert_eq!(Key::from(42i64), Key(42));
    assert_eq!(Key::from(-1i64), Key(-1));
}

#[test]
fn enqueue_succeeds_while_running() {
    let mut m = Manager::new(20, 20 * MS);
    assert!(m.enqueue_packet(Key(1), local_dest(4000), packet(&[1]), None, 0));
    assert!(m.enqueue_packet(Key(1), local_dest(4000), packet(&[2]), None, 0));
}

#[test]
fn per_flow_ordering() {
    let mut m = Manager::new(20, 20 * MS);
    let d = local_dest(4001);
    m.enqueue_packet(Key(5), d, packet(&[10, 11]), None, 0);
    m.enqueue_packet(Key(5), d, packet(&[20, 21]), None, 0);
    m.enqueue_packet(Key(5), d, packet(&[30, 31]), None, 0);

    let mut now = 0;
    for expected in [[10u8, 11], [20, 21], [30, 31]] {
        let e = expect_dispatch(&mut m, now);
        assert_eq!(e.packet, expected.to_vec());
        assert_eq!(e.key, Key(5));
        now = now.max(e.due_time);
        m.reschedule(Key(5), e.due_time, now);
    }
}

#[test]
fn new_flow_due_immediately() {
    let mut m = Manager::new(20, 20 * MS);
    m.enqueue_packet(Key(3), local_dest(4002), packet(&[7]), None, 123);
    let e = expect_dispatch(&mut m, 123);
    assert_eq!(e.due_time, 123);
    assert_eq!(e.address, local_dest(4002));
}

#[test]
fn destination_fixed_at_first_enqueue() {
    let mut m = Manager::new(20, 20 * MS);
    m.enqueue_packet(Key(4), local_dest(1111), packet(&[1]), None, 0);
    m.enqueue_packet(Key(4), local_dest(2222), packet(&[2]), None, 0);
    let e = expect_dispatch(&mut m, 0);
    assert_eq!(e.address, local_dest(1111));
    m.reschedule(Key(4), e.due_time, 0);
    let e2 = expect_dispatch(&mut m, 0);
    assert_eq!(e2.address, local_dest(1111));
}

#[test]
fn remaining_capacity_accounting() {
    let mut m = Manager::new(3, 20 * MS);
    let d = local_dest(4003);
    assert_eq!(m.remaining(Key(9)), 3, "unseen flow has the full soft capacity");
    m.enqueue_packet(Key(9), d, packet(&[1]), None, 0);
    assert_eq!(m.remaining(Key(9)), 2);
    m.enqueue_packet(Key(9), d, packet(&[2]), None, 0);
    m.enqueue_packet(Key(9), d, packet(&[3]), None, 0);
    assert_eq!(m.remaining(Key(9)), 0);
    // The capacity is advisory only: a fourth enqueue still succeeds and
    // the remaining count saturates at zero.
    assert!(m.enqueue_packet(Key(9), d, packet(&[4]), None, 0));
    assert_eq!(m.remaining(Key(9)), 0);
}

#[test]
fn is_idle_tracks_pending_packets() {
    let mut m = Manager::new(20, 20 * MS);
    assert!(m.is_idle());
    m.enqueue_packet(Key(1), local_dest(4004), packet(&[1]), None, 0);
    assert!(!m.is_idle());
    let e = expect_dispatch(&mut m, 0);
    assert!(m.is_idle());
    m.reschedule(Key(1), e.due_time, 0);
    assert!(m.is_idle());
}

#[test]
fn delete_queue_reports_existence() {
    let mut m = Manager::new(20, 20 * MS);
    assert!(!m.delete_queue(Key(8)));
    m.enqueue_packet(Key(8), local_dest(4005), packet(&[1]), None, 0);
    assert!(m.delete_queue(Key(8)));
    assert!(!m.delete_queue(Key(8)));
    assert_eq!(m.remaining(Key(8)), 20);
}

#[test]
fn deleted_flow_not_dispatched() {
    let mut m = Manager::new(20, 20 * MS);
    m.enqueue_packet(Key(8), local_dest(4005), packet(&[1]), None, 0);
    assert!(m.delete_queue(Key(8)));
    match m.next_step(0) {
        Step::Idle => {}
        _ => panic!("a deleted flow must not dispatch"),
    }
}

#[test]
fn delete_mid_dispatch_takes_effect_at_reschedule() {
    let mut m = Manager::new(20, 20 * MS);
    m.enqueue_packet(Key(2), local_dest(4006), packet(&[1]), None, 0);
    m.enqueue_packet(Key(2), local_dest(4006), packet(&[2]), None, 0);
    let e = expect_dispatch(&mut m, 0);
    assert!(m.delete_queue(Key(2)));
    m.reschedule(Key(2), e.due_time, 0);
    assert_eq!(m.remaining(Key(2)), 20, "a deleted flow stays gone");
    match m.next_step(0) {
        Step::Idle => {}
        _ => panic!("nothing left to dispatch"),
    }
}

#[test]
fn idle_reclamation() {
    let mut m = Manager::new(20, 20 * MS);
    m.enqueue_packet(Key(6), local_dest(4007), packet(&[1]), None, 0);
    let e = expect_dispatch(&mut m, 0);
    m.reschedule(Key(6), e.due_time, 0);
    // The flow is empty with due time 20ms. Before that instant it is kept
    // alive, re-enrolled at the back.
    match m.next_step(10 * MS) {
        Step::Idle => {}
        _ => panic!("an empty flow within its due time must not dispatch"),
    }
    assert!(m.is_idle(), "the kept flow has nothing pending");
    // Once its due time has elapsed, the next turn reclaims it.
    match m.next_step(20 * MS) {
        Step::Idle => {}
        _ => panic!("reclamation dispatches nothing"),
    }
    assert_eq!(m.remaining(Key(6)), 20, "a reclaimed flow looks never seen");
}

#[test]
fn new_flow_priority() {
    let mut m = Manager::new(20, 20 * MS);
    let d = local_dest(4008);
    // Flow 1 is mid-cycle: one packet sent, re-enrolled, not yet due, with
    // another packet waiting.
    m.enqueue_packet(Key(1), d, packet(&[1]), None, 0);
    m.enqueue_packet(Key(1), d, packet(&[2]), None, 0);
    let e = expect_dispatch(&mut m, 0);
    m.reschedule(Key(1), e.due_time, 0);
    // A brand-new flow enqueued now is serviced on the very next turn,
    // before flow 1's pending packet.
    m.enqueue_packet(Key(2), d, packet(&[99]), None, 5 * MS);
    let e2 = expect_dispatch(&mut m, 5 * MS);
    assert_eq!(e2.key, Key(2));
    assert_eq!(e2.packet, vec![99]);
    assert_eq!(e2.due_time, 5 * MS);
}

#[test]
fn shutdown_safety() {
    let mut m = Manager::new(20, 20 * MS);
    m.enqueue_packet(Key(1), local_dest(4009), packet(&[1]), None, 0);
    m.shutdown();
    m.shutdown(); // idempotent
    assert!(!m.is_destroyed(), "destroyed only once the loop observed shutdown");
    assert!(
        !m.enqueue_packet(Key(1), local_dest(4009), packet(&[2]), None, 0),
        "enqueue after shutdown fails"
    );
    match m.next_step(0) {
        Step::Stopped => {}
        _ => panic!("the loop must stop once shutdown was requested"),
    }
    assert!(m.is_destroyed());
    // Terminal: a late shutdown request does not resurrect the engine.
    m.shutdown();
    assert!(m.is_destroyed());
    // Producers may still delete, idempotently.
    assert!(m.delete_queue(Key(1)));
}

#[test]
fn concrete_scenario_three_packets() {
    // create(capacity=20, interval=20ms); enqueue 3 packets for flow 42 to
    // 127.0.0.1:5000 at t=0; sends fall due at t=0, t=20ms, t=40ms with the
    // exact payloads, in order.
    let mut m = Manager::new(20, 20 * MS);
    let d = Destination { ipv6: false, ip: 0x7f00_0001, port: 5000 };
    let payloads = [vec![1u8, 2, 3], vec![4u8, 5], vec![6u8]];
    for p in &payloads {
        assert!(m.enqueue_packet(Key(42), d, p.clone(), None, 0));
    }
    let mut due_times = Vec::new();
    for p in &payloads {
        let e = expect_dispatch(&mut m, due_times.last().copied().unwrap_or(0));
        assert_eq!(&e.packet, p, "payloads byte-identical, in enqueue order");
        assert_eq!(e.address, d);
        due_times.push(e.due_time);
        // The dispatcher sends at the due time and reschedules right after.
        m.reschedule(Key(42), e.due_time, e.due_time);
    }
    assert_eq!(due_times, vec![0, 20 * MS, 40 * MS]);
}

#[test]
fn borrowed_capability_scenario() {
    let mut m = Manager::new(20, 20 * MS);
    let d = local_dest(4010);
    let supplied = SendHandle(77);
    m.enqueue_packet(Key(7), d, packet(&[1]), Some(supplied), 0);
    let e = expect_dispatch(&mut m, 0);
    assert_eq!(e.socket, Some(SendHandle(77)), "the flow's packets carry the override");
    m.reschedule(Key(7), e.due_time, 0);
    assert!(m.delete_queue(Key(7)));
    // The engine only ever stored and returned the handle's value; the
    // capability itself stayed with the caller, never closed.
    assert_eq!(supplied, SendHandle(77));
    assert_eq!(m.remaining(Key(7)), 20);
}

#[test]
fn override_capability_kept_for_later_packets() {
    let mut m = Manager::new(20, 20 * MS);
    let d = local_dest(4011);
    m.enqueue_packet(Key(7), d, packet(&[1]), Some(SendHandle(5)), 0);
    // The override of the first enqueue is reused verbatim; a later enqueue
    // cannot replace it.
    m.enqueue_packet(Key(7), d, packet(&[2]), Some(SendHandle(6)), 0);
    let e1 = expect_dispatch(&mut m, 0);
    assert_eq!(e1.socket, Some(SendHandle(5)));
    m.reschedule(Key(7), e1.due_time, 0);
    let e2 = expect_dispatch(&mut m, 20 * MS);
    assert_eq!(e2.socket, Some(SendHandle(5)));
}

#[test]
fn empty_engine_is_idle() {
    let mut m = Manager::new(20, 20 * MS);
    assert!(m.is_idle());
    match m.next_step(0) {
        Step::Idle => {}
        _ => panic!("an engine with no flows has nothing to dispatch"),
    }
}

#[test]
fn stopped_engine_stays_stopped() {
    let mut m = Manager::new(20, 20 * MS);
    m.shutdown();
    match m.next_step(0) {
        Step::Stopped => {}
        _ => panic!("shutdown stops the loop"),
    }
    match m.next_step(99) {
        Step::Stopped => {}
        _ => panic!("a destroyed engine never runs again"),
    }
    assert!(m.is_destroyed());
}

#[test]
fn ipv6_destination_carried_through() {
    let mut m = Manager::new(20, 20 * MS);
    let d = Destination { ipv6: true, ip: 1, port: 443 };
    m.enqueue_packet(Key(11), d, packet(&[5]), None, 0);
    let e = expect_dispatch(&mut m, 0);
    assert_eq!(e.address, d);
}

#[test]
fn round_robin_across_flows() {
    let mut m = Manager::new(20, 20 * MS);
    let d = local_dest(4012);
    // Two flows, each with two packets. Flow 2 arrived later, so it is
    // serviced first (new-flow priority), and after that the flows
    // alternate: each gets one dispatch turn per pass of the ordering.
    m.enqueue_packet(Key(1), d, packet(&[11]), None, 0);
    m.enqueue_packet(Key(1), d, packet(&[12]), None, 0);
    m.enqueue_packet(Key(2), d, packet(&[21]), None, 0);
    m.enqueue_packet(Key(2), d, packet(&[22]), None, 0);

    let mut order: Vec<(i64, u8)> = Vec::new();
    let mut now: u64 = 0;
    for _ in 0..4 {
        let e = expect_dispatch(&mut m, now);
        order.push((e.key.0, e.packet[0]));
        now = now.max(e.due_time);
        m.reschedule(e.key, e.due_time, now);
    }
    assert_eq!(order, vec![(2, 21), (1, 11), (2, 22), (1, 12)]);
    assert!(m.is_idle());
}
