use apex::shm::error::ShmError;
use apex::shm::ring::{
    claim_slot, plan_publish, slowest_reader, RecvCursor, RingHeader, EMPTY_SLOT_SEQ, RING_SLOTS,
};

/// A ring held in process memory, driven by the library's decisions as
/// the shared-memory channel drives the mapped one.
struct LocalRing {
    write_seq: u64,
    slots: Vec<(u64, Vec<u8>)>,
    readers: Vec<u64>,
}

impl LocalRing {
    fn new() -> Self {
        LocalRing {
            write_seq: RingHeader::init().write_seq,
            slots: vec![(EMPTY_SLOT_SEQ, Vec::new()); RING_SLOTS],
            readers: Vec::new(),
        }
    }

    fn publish(&mut self, payload: &[u8]) -> Result<(), ShmError> {
        let plan = plan_publish(payload.len(), self.write_seq)?;
        let slowest = slowest_reader(self.write_seq, &self.readers);
        claim_slot(&plan, self.slots[plan.slot].0, slowest)?;
        self.slots[plan.slot] = (plan.seq, payload.to_vec());
        self.write_seq = plan.seq;
        Ok(())
    }

    /// Attach a subscriber at the publisher's cursor; returns its entry.
    fn attach(&mut self) -> (usize, RecvCursor) {
        self.readers.push(self.write_seq);
        (self.readers.len() - 1, RecvCursor::starting_at(self.write_seq))
    }

    fn try_recv(&mut self, entry: usize, cursor: &mut RecvCursor) -> Result<Vec<u8>, ShmError> {
        let plan = cursor.plan();
        cursor.accept(&plan, self.slots[plan.slot].0)?;
        self.readers[entry] = cursor.read_seq;
        Ok(self.slots[plan.slot].1.clone())
    }
}

#[test]
fn caught_up_subscriber_receives_a_lap_in_order() {
    let mut ring = LocalRing::new();
    let (e, mut sub) = ring.attach();
    assert!(matches!(ring.try_recv(e, &mut sub), Err(ShmError::NoData)));
    for i in 0..RING_SLOTS {
        ring.publish(&[i as u8, 1]).unwrap();
    }
    for i in 0..RING_SLOTS {
        assert_eq!(ring.try_recv(e, &mut sub).unwrap(), vec![i as u8, 1]);
    }
    assert!(matches!(ring.try_recv(e, &mut sub), Err(ShmError::NoData)));
}

#[test]
fn ring_full_when_slowest_subscriber_is_a_lap_behind() {
    let mut ring = LocalRing::new();
    let (e, mut sub) = ring.attach();
    for i in 0..RING_SLOTS {
        ring.publish(&[i as u8]).unwrap();
    }
    // The 65th message would overwrite the first, still unread.
    assert!(matches!(ring.publish(b"x"), Err(ShmError::RingFull)));
    assert_eq!(ring.write_seq, RING_SLOTS as u64);
    assert_eq!(ring.try_recv(e, &mut sub).unwrap(), vec![0u8]);
    ring.publish(b"x").unwrap();
    for i in 1..RING_SLOTS {
        assert_eq!(ring.try_recv(e, &mut sub).unwrap(), vec![i as u8]);
    }
    assert_eq!(ring.try_recv(e, &mut sub).unwrap(), b"x".to_vec());
}

#[test]
fn publisher_without_subscribers_is_never_full() {
    let mut ring = LocalRing::new();
    for i in 0..(3 * RING_SLOTS) {
        ring.publish(&[i as u8]).unwrap();
    }
    assert_eq!(ring.write_seq, 3 * RING_SLOTS as u64);
}

#[test]
fn unread_message_within_a_lap_survives_publishes() {
    let mut ring = LocalRing::new();
    let (e, mut sub) = ring.attach();
    ring.publish(b"first").unwrap();
    for _ in 0..(RING_SLOTS - 1) {
        ring.publish(b"later").unwrap();
    }
    assert_eq!(ring.try_recv(e, &mut sub).unwrap(), b"first".to_vec());
}

#[test]
fn late_joiner_sees_only_later_messages() {
    let mut ring = LocalRing::new();
    ring.publish(b"old").unwrap();
    let (e, mut sub) = ring.attach();
    assert!(matches!(ring.try_recv(e, &mut sub), Err(ShmError::NoData)));
    ring.publish(b"new").unwrap();
    assert_eq!(ring.try_recv(e, &mut sub).unwrap(), b"new".to_vec());
}
