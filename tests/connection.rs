use relay_core::{Connection, DrainPlan, EndPointType, IoFailure, OutgoingToken, Readiness, BUFFER_SIZE};

const READABLE: Readiness = Readiness { readable: true, writable: false, hup: false, error: false };
const WRITABLE: Readiness = Readiness { readable: false, writable: true, hup: false, error: false };
const HUP: Readiness = Readiness { readable: false, writable: false, hup: true, error: false };

/// Takes up to `free` bytes off the front of `source`, as one read would.
fn read_from(source: &mut Vec<u8>, free: usize) -> Result<Vec<u8>, IoFailure> {
    if source.is_empty() {
        return Err(IoFailure::WouldBlock);
    }
    let n = free.min(source.len());
    Ok(source.drain(..n).collect())
}

fn pending(c: &Connection, side: EndPointType) -> Vec<u8> {
    let ep = c.endpoint(side);
    ep.buffered()[..ep.used_len()].to_vec()
}

#[test]
fn new_connection_keeps_its_token() {
    let c = Connection::new(true, true, OutgoingToken(42));
    assert_eq!(c.outgoing_token(), OutgoingToken(42));
    assert_eq!(c.endpoint(EndPointType::Front).used_len(), 0);
    assert_eq!(c.endpoint(EndPointType::Back).used_len(), 0);
    assert!(!c.is_incoming_closed());
    assert!(!c.is_outgoing_closed());
}

#[test]
fn simple_relay_moves_bytes_in_one_tick() {
    let mut c = Connection::new(true, true, OutgoingToken(1));
    c.incoming_ready(READABLE);
    c.outgoing_ready(WRITABLE);
    let mut client: Vec<u8> = (0..20u8).collect();
    let free = c.endpoint(EndPointType::Front).free_space();
    let plan = c.begin_tick(read_from(&mut client, free), Err(IoFailure::WouldBlock));
    assert_eq!(plan, DrainPlan { front: true, back: false });
    assert_eq!(c.endpoint(EndPointType::Front).used_len(), 20);
    let offered = pending(&c, EndPointType::Front);
    assert_eq!(offered, (0..20u8).collect::<Vec<u8>>());
    assert!(c.tick(plan, Ok(offered.len()), Err(IoFailure::WouldBlock)));
    assert_eq!(c.endpoint(EndPointType::Front).used_len(), 0);
    assert_eq!(c.endpoint(EndPointType::Front).state(), Readiness::empty());
    assert_eq!(c.endpoint(EndPointType::Back).state(), Readiness::empty());
}

#[test]
fn backpressure_caps_the_buffer() {
    let mut c = Connection::new(true, true, OutgoingToken(3));
    let mut upstream: Vec<u8> = (0..5000usize).map(|i| (i % 251) as u8).collect();
    for _ in 0..4 {
        c.outgoing_ready(READABLE);
        let free = c.endpoint(EndPointType::Back).free_space();
        let read = if c.endpoint(EndPointType::Back).wants_read() {
            read_from(&mut upstream, free)
        } else {
            Err(IoFailure::WouldBlock)
        };
        let plan = c.begin_tick(Err(IoFailure::WouldBlock), read);
        assert_eq!(plan, DrainPlan { front: false, back: false });
        assert!(!c.tick(plan, Err(IoFailure::WouldBlock), Err(IoFailure::WouldBlock)));
    }
    assert_eq!(c.endpoint(EndPointType::Back).used_len(), BUFFER_SIZE);
    assert_eq!(upstream.len(), 5000 - BUFFER_SIZE);

    // A full buffer takes nothing in, even when handed data.
    c.outgoing_ready(READABLE);
    let plan = c.begin_tick(Err(IoFailure::WouldBlock), Ok(vec![1, 2, 3]));
    assert!(!c.tick(plan, Err(IoFailure::WouldBlock), Err(IoFailure::WouldBlock)));
    assert_eq!(c.endpoint(EndPointType::Back).used_len(), BUFFER_SIZE);

    // Once the client side is writable the buffer drains.
    c.incoming_ready(WRITABLE);
    let plan = c.begin_tick(Err(IoFailure::WouldBlock), Err(IoFailure::WouldBlock));
    assert_eq!(plan, DrainPlan { front: false, back: true });
    assert!(c.tick(plan, Err(IoFailure::WouldBlock), Ok(1000)));
    assert_eq!(c.endpoint(EndPointType::Back).used_len(), BUFFER_SIZE - 1000);
    assert_eq!(pending(&c, EndPointType::Back)[0], (1000 % 251) as u8);
}

#[test]
fn hup_marks_outgoing_closed() {
    let mut c = Connection::new(true, true, OutgoingToken(0));
    c.outgoing_ready(HUP);
    assert!(c.is_outgoing_closed());
    assert!(!c.is_incoming_closed());
}

#[test]
fn error_marks_incoming_closed() {
    let mut c = Connection::new(true, true, OutgoingToken(0));
    c.incoming_ready(Readiness { readable: false, writable: false, hup: false, error: true });
    assert!(c.is_incoming_closed());
    assert!(!c.is_outgoing_closed());
}

#[test]
fn flags_are_consumed_once_per_tick() {
    let mut c = Connection::new(true, true, OutgoingToken(0));
    c.incoming_ready(READABLE);
    c.incoming_ready(HUP);
    let plan = c.begin_tick(Ok(vec![1]), Err(IoFailure::WouldBlock));
    assert_eq!(plan, DrainPlan { front: false, back: false });
    assert_eq!(c.endpoint(EndPointType::Front).state(), HUP);
    // Not readable any more: a second reply is ignored.
    let plan = c.begin_tick(Ok(vec![2]), Err(IoFailure::WouldBlock));
    assert!(!c.tick(plan, Err(IoFailure::WouldBlock), Err(IoFailure::WouldBlock)));
    assert_eq!(pending(&c, EndPointType::Front), vec![1]);
}

#[test]
fn both_directions_relay_in_the_same_tick() {
    let mut c = Connection::new(true, true, OutgoingToken(0));
    let both = Readiness { readable: true, writable: true, hup: false, error: false };
    c.incoming_ready(both);
    c.outgoing_ready(both);
    let plan = c.begin_tick(Ok(vec![1, 2]), Ok(vec![3, 4, 5]));
    assert_eq!(plan, DrainPlan { front: true, back: true });
    assert!(c.tick(plan, Ok(2), Ok(1)));
    assert_eq!(c.endpoint(EndPointType::Front).used_len(), 0);
    assert_eq!(pending(&c, EndPointType::Back), vec![4, 5]);
}

#[test]
fn missing_peer_handle_never_sends() {
    let mut c = Connection::new(false, true, OutgoingToken(0));
    c.incoming_ready(READABLE);
    c.outgoing_ready(WRITABLE);
    let plan = c.begin_tick(Ok(vec![1, 2]), Err(IoFailure::WouldBlock));
    assert!(!c.endpoint(EndPointType::Front).has_pending_write());
    assert!(!c.tick(plan, Ok(2), Err(IoFailure::WouldBlock)));
    assert_eq!(pending(&c, EndPointType::Front), vec![1, 2]);
}
