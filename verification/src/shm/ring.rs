//! The ring buffer that lives in a shared-memory segment: its header, its
//! slots, and the protocol by which the publisher fills slots and the
//! subscribers read them.
//!
//! A slot holds the sequence number of the message written into it; the
//! publisher's cursor `write_seq` is the sequence of the last message
//! written, and message `s` goes to slot `s % RING_SLOTS`. A subscriber that
//! has read up to `read_seq` finds its next message ready when the slot of
//! `read_seq + 1` holds exactly that sequence. Each attached subscriber
//! shows its position in the segment's subscriber table, and the publisher
//! refuses, as ring full, to overwrite a message that the slowest of them
//! has yet to read.
use vstd::prelude::*;
use crate::shm::error::ShmError;

verus! {

/// Maximum topic name length (bytes, UTF-8).
pub const MAX_TOPIC_LEN: usize = 128;

/// Maximum payload size per slot (bytes).
pub const MAX_SLOT_PAYLOAD: usize = 65_536;

/// Number of slots in the ring buffer (a power of two).
pub const RING_SLOTS: usize = 64;

/// Magic number written into the header to detect corrupt segments.
pub const MAGIC: u32 = 0xA9EE_0001;

/// Layout version, incremented on any breaking change.
pub const LAYOUT_VERSION: u32 = 2;

/// Number of subscriber positions kept in a segment: at most this many
/// subscribers can be attached to a channel at once.
pub const MAX_SUBSCRIBERS: usize = 16;

/// The value of a subscriber position that no subscriber holds.
pub const READER_FREE: u64 = 0xFFFF_FFFF_FFFF_FFFF;

/// The slot sequence that marks a slot that was never written.
pub const EMPTY_SLOT_SEQ: u64 = 0xFFFF_FFFF_FFFF_FFFF;

/// The values of the ring header at offset 0 of a segment.
pub struct RingHeader {
    /// Magic number for integrity verification.
    pub magic: u32,
    /// Layout version.
    pub version: u32,
    /// Number of slots (equal to [`RING_SLOTS`] in a valid segment).
    pub slot_count: u32,
    /// Maximum payload bytes per slot (equal to [`MAX_SLOT_PAYLOAD`]).
    pub max_payload: u32,
    /// Sequence of the last message written.
    pub write_seq: u64,
    /// Reserved padding to reach 128 bytes.
    pub _pad: [u8; 104],
}

/// The values of a slot header.
pub struct SlotHeader {
    /// Sequence number of the message written into this slot.
    pub sequence: u64,
    /// Actual payload length in bytes.
    pub payload_len: u32,
    /// Reserved.
    pub _pad: [u8; 4],
}

impl RingHeader {
    /// The header of a freshly created segment: current magic, version and
    /// geometry, nothing written yet.
    pub fn init() -> (h: RingHeader)
        ensures
            h.magic == MAGIC,
            h.version == LAYOUT_VERSION,
            h.slot_count == RING_SLOTS,
            h.max_payload == MAX_SLOT_PAYLOAD,
            h.write_seq == 0,
            forall|i: int| 0 <= i < 104 ==> h._pad@[i] == 0,
    {
        RingHeader {
            magic: MAGIC,
            version: LAYOUT_VERSION,
            slot_count: 64,
            max_payload: 65_536,
            write_seq: 0,
            _pad: [0u8; 104],
        }
    }

    /// Validate an existing header (subscriber side): the magic, the
    /// layout version, the number of slots and the slot size must all be
    /// this build's, checked in that order; the first that differs is
    /// reported with the value found and the value expected.
    pub fn validate(&self) -> (r: Result<(), ShmError>)
        ensures
            match r {
                Ok(()) => self.magic == MAGIC && self.version == LAYOUT_VERSION && self.slot_count
                    == RING_SLOTS && self.max_payload == MAX_SLOT_PAYLOAD,
                Err(ShmError::LayoutMismatch { found, expected }) => if self.magic != MAGIC {
                    found == self.magic && expected == MAGIC
                } else if self.version != LAYOUT_VERSION {
                    found == self.version && expected == LAYOUT_VERSION
                } else if self.slot_count != RING_SLOTS {
                    found == self.slot_count && expected == RING_SLOTS
                } else {
                    self.max_payload != MAX_SLOT_PAYLOAD && found == self.max_payload && expected
                        == MAX_SLOT_PAYLOAD
                },
                Err(_) => false,
            },
    {
        if self.magic != MAGIC {
            return Err(ShmError::LayoutMismatch { found: self.magic, expected: MAGIC });
        }
        if self.version != LAYOUT_VERSION {
            return Err(ShmError::LayoutMismatch { found: self.version, expected: LAYOUT_VERSION });
        }
        if self.slot_count != 64 {
            return Err(ShmError::LayoutMismatch { found: self.slot_count, expected: 64 });
        }
        if self.max_payload != 65_536 {
            return Err(ShmError::LayoutMismatch { found: self.max_payload, expected: 65_536 });
        }
        Ok(())
    }
}

/// The sequence that follows `seq` (wrapping at the end of the range).
pub open spec fn spec_next_seq(seq: u64) -> u64 {
    seq.wrapping_add(1)
}

/// The slot that holds message `seq`.
pub open spec fn spec_slot_of(seq: u64) -> int {
    (seq % (RING_SLOTS as u64)) as int
}

/// Whether the publisher may write message `next_seq` into a slot that
/// holds `slot_seq`, when the slowest attached subscriber has read up to
/// `slowest_read_seq`: the slot was never written, or what it holds is a
/// full lap older and every subscriber has read it.
pub open spec fn spec_slot_writable(slot_seq: u64, next_seq: u64, slowest_read_seq: u64) -> bool {
    slot_seq == EMPTY_SLOT_SEQ || (slot_seq.wrapping_add(RING_SLOTS as u64) <= next_seq && slot_seq
        <= slowest_read_seq)
}

/// The position of the slowest subscriber among the positions `readers`
/// (free entries left out), where the publisher's cursor is `write_seq`:
/// with no subscriber, everything written counts as read.
pub open spec fn spec_slowest(write_seq: u64, readers: Seq<u64>) -> u64
    decreases readers.len(),
{
    if readers.len() == 0 {
        write_seq
    } else {
        let rest = spec_slowest(write_seq, readers.drop_last());
        let r = readers.last();
        if r != READER_FREE && r < rest {
            r
        } else {
            rest
        }
    }
}

/// The slowest position is at most the publisher's cursor and at most every
/// held position, and it is one of them.
pub proof fn lemma_slowest_is_minimum(write_seq: u64, readers: Seq<u64>)
    ensures
        spec_slowest(write_seq, readers) <= write_seq,
        forall|i: int|
            0 <= i < readers.len() && readers[i] != READER_FREE ==> spec_slowest(write_seq, readers)
                <= #[trigger] readers[i],
        spec_slowest(write_seq, readers) == write_seq || exists|i: int|
            0 <= i < readers.len() && readers[i] != READER_FREE && #[trigger] readers[i]
                == spec_slowest(write_seq, readers),
    decreases readers.len(),
{
    if readers.len() > 0 {
        let front = readers.drop_last();
        lemma_slowest_is_minimum(write_seq, front);
        let rest = spec_slowest(write_seq, front);
        assert forall|i: int|
            0 <= i < readers.len() && readers[i] != READER_FREE implies spec_slowest(
            write_seq,
            readers,
        ) <= #[trigger] readers[i] by {
            if i < readers.len() - 1 {
                assert(readers[i] == front[i]);
            }
        }
        if spec_slowest(write_seq, readers) != write_seq {
            if readers.last() != READER_FREE && readers.last() < rest {
                assert(readers[readers.len() - 1] == readers.last());
            } else {
                let i = choose|i: int|
                    0 <= i < front.len() && front[i] != READER_FREE && #[trigger] front[i] == rest;
                assert(readers[i] == front[i]);
            }
        }
    }
}

/// Where the publisher writes its next message.
#[derive(Debug, Clone, Copy, PartialEq, Eq, Structural)]
pub struct PublishPlan {
    /// The sequence of the message.
    pub seq: u64,
    /// The slot it goes to.
    pub slot: usize,
}

/// Where a subscriber looks for its next message.
#[derive(Debug, Clone, Copy, PartialEq, Eq, Structural)]
pub struct RecvPlan {
    /// The sequence the subscriber expects.
    pub seq: u64,
    /// The slot it looks in.
    pub slot: usize,
}

/// The slot that holds message `seq`.
pub fn slot_of(seq: u64) -> (slot: usize)
    ensures
        slot == spec_slot_of(seq),
        slot < RING_SLOTS,
{
    (seq % 64) as usize
}

/// The first decision of a publish: reject a payload larger than a slot,
/// else place the message that follows the cursor `write_seq`.
pub fn plan_publish(payload_len: usize, write_seq: u64) -> (r: Result<PublishPlan, ShmError>)
    ensures
        match r {
            Ok(plan) => payload_len <= MAX_SLOT_PAYLOAD && plan.seq == spec_next_seq(write_seq)
                && plan.slot == spec_slot_of(plan.seq),
            Err(ShmError::PayloadTooLarge { len }) => payload_len > MAX_SLOT_PAYLOAD && len
                == payload_len,
            Err(_) => false,
        },
{
    if payload_len > MAX_SLOT_PAYLOAD {
        return Err(ShmError::PayloadTooLarge { len: payload_len });
    }
    let seq = write_seq.wrapping_add(1);
    Ok(PublishPlan { seq, slot: slot_of(seq) })
}

/// The position of the slowest subscriber among the positions `readers`
/// read from the segment (free entries are left out; with none held, the
/// publisher's cursor `write_seq`).
pub fn slowest_reader(write_seq: u64, readers: &[u64]) -> (s: u64)
    ensures
        s == spec_slowest(write_seq, readers@),
        s <= write_seq,
        forall|i: int|
            0 <= i < readers@.len() && readers@[i] != READER_FREE ==> s <= #[trigger] readers@[i],
{
    let mut s = write_seq;
    let mut i: usize = 0;
    while i < readers.len()
        invariant
            i <= readers@.len(),
            s == spec_slowest(write_seq, readers@.subrange(0, i as int)),
        decreases readers@.len() - i,
    {
        let ghost prefix = readers@.subrange(0, i + 1);
        assert(prefix.drop_last() =~= readers@.subrange(0, i as int));
        let r = readers[i];
        if r != READER_FREE && r < s {
            s = r;
        }
        i = i + 1;
    }
    assert(readers@.subrange(0, i as int) =~= readers@);
    proof {
        lemma_slowest_is_minimum(write_seq, readers@);
    }
    s
}

/// The second decision of a publish, on the sequence `slot_seq` found in
/// the planned slot and the position `slowest_read_seq` of the slowest
/// attached subscriber: write there, or report the ring full because a
/// subscriber has yet to read what the slot holds.
pub fn claim_slot(plan: &PublishPlan, slot_seq: u64, slowest_read_seq: u64) -> (r: Result<
    (),
    ShmError,
>)
    ensures
        match r {
            Ok(()) => spec_slot_writable(slot_seq, plan.seq, slowest_read_seq),
            Err(e) => !spec_slot_writable(slot_seq, plan.seq, slowest_read_seq) && e is RingFull,
        },
{
    if slot_seq != EMPTY_SLOT_SEQ && (slot_seq.wrapping_add(64) > plan.seq || slot_seq
        > slowest_read_seq) {
        return Err(ShmError::RingFull);
    }
    Ok(())
}

/// A subscriber's position in the ring: the sequence of the last message
/// it read. The subscriber keeps it, and shows it to the publisher in its
/// entry of the segment's subscriber table.
#[derive(Debug, Clone, Copy, PartialEq, Eq, Structural)]
pub struct RecvCursor {
    /// Sequence of the last message read.
    pub read_seq: u64,
}

impl RecvCursor {
    /// A subscriber that joins now: it has read everything up to the
    /// publisher's cursor `write_seq`, and sees only later messages.
    pub fn starting_at(write_seq: u64) -> (c: RecvCursor)
        ensures
            c.read_seq == write_seq,
    {
        RecvCursor { read_seq: write_seq }
    }

    /// Where this subscriber looks for its next message.
    pub fn plan(&self) -> (plan: RecvPlan)
        ensures
            plan.seq == spec_next_seq(self.read_seq),
            plan.slot == spec_slot_of(plan.seq),
    {
        let seq = self.read_seq.wrapping_add(1);
        RecvPlan { seq, slot: slot_of(seq) }
    }

    /// The decision on the planned slot, holding `slot_seq`: if it holds
    /// the expected message, the subscriber takes it and moves to it;
    /// otherwise there is no data and the position is kept.
    pub fn accept(&mut self, plan: &RecvPlan, slot_seq: u64) -> (r: Result<(), ShmError>)
        requires
            plan.seq == spec_next_seq(old(self).read_seq),
        ensures
            match r {
                Ok(()) => slot_seq == plan.seq && final(self).read_seq == plan.seq,
                Err(e) => slot_seq != plan.seq && e is NoData && final(self).read_seq == old(
                    self,
                ).read_seq,
            },
    {
        if slot_seq != plan.seq {
            return Err(ShmError::NoData);
        }
        self.read_seq = plan.seq;
        Ok(())
    }
}

/// The contents of a ring as the protocol sees them: the publisher's cursor
/// and, for each slot, the sequence and payload it holds.
pub ghost struct RingModel {
    /// Sequence of the last message written.
    pub write_seq: u64,
    /// Slot index to the sequence stored in that slot.
    pub seqs: Map<int, u64>,
    /// Slot index to the payload stored in that slot.
    pub payloads: Map<int, Seq<u8>>,
}

/// Whether `m` has an entry for every slot.
pub open spec fn spec_model_complete(m: RingModel) -> bool {
    &&& forall|i: int| 0 <= i < RING_SLOTS ==> #[trigger] m.seqs.dom().contains(i)
    &&& forall|i: int| 0 <= i < RING_SLOTS ==> #[trigger] m.payloads.dom().contains(i)
}

/// The ring of a freshly created segment.
pub open spec fn spec_model_init() -> RingModel {
    RingModel {
        write_seq: 0,
        seqs: Map::new(|i: int| 0 <= i < RING_SLOTS, |i: int| EMPTY_SLOT_SEQ),
        payloads: Map::new(|i: int| 0 <= i < RING_SLOTS, |i: int| Seq::<u8>::empty()),
    }
}

/// The ring after a publish of `payload` while the slowest subscriber is at
/// `slowest_read_seq`, or `None` when the publish is refused (payload too
/// large, or ring full).
pub open spec fn spec_model_publish(m: RingModel, payload: Seq<u8>, slowest_read_seq: u64) -> Option<
    RingModel,
> {
    let seq = spec_next_seq(m.write_seq);
    let slot = spec_slot_of(seq);
    if payload.len() > MAX_SLOT_PAYLOAD || !spec_slot_writable(m.seqs[slot], seq, slowest_read_seq) {
        None
    } else {
        Some(
            RingModel {
                write_seq: seq,
                seqs: m.seqs.insert(slot, seq),
                payloads: m.payloads.insert(slot, payload),
            },
        )
    }
}

/// What a subscriber that has read up to `read_seq` receives: the payload
/// and its new position, or `None` when no new message is there.
pub open spec fn spec_model_recv(m: RingModel, read_seq: u64) -> Option<(Seq<u8>, u64)> {
    let seq = spec_next_seq(read_seq);
    let slot = spec_slot_of(seq);
    if m.seqs[slot] == seq {
        Some((m.payloads[slot], seq))
    } else {
        None
    }
}

/// The state a ring is in when one publisher has written it from a fresh
/// segment: every slot is either never written or holds a message of the
/// last lap, in the slot of its sequence.
pub open spec fn spec_model_inv(m: RingModel) -> bool {
    &&& spec_model_complete(m)
    &&& forall|i: int|
        0 <= i < RING_SLOTS ==> {
            let s = #[trigger] m.seqs[i];
            s == EMPTY_SLOT_SEQ || (spec_slot_of(s) == i && s <= m.write_seq && m.write_seq < s
                + RING_SLOTS)
        }
}

/// Whether message `s` is in the ring: its slot holds it.
pub open spec fn spec_holds(m: RingModel, s: int) -> bool {
    m.seqs[s % (RING_SLOTS as int)] == s
}

/// Whether every message a subscriber at position `read_seq` has yet to
/// read is still in the ring.
pub open spec fn spec_model_retains(m: RingModel, read_seq: u64) -> bool {
    forall|s: int| read_seq < s <= m.write_seq ==> #[trigger] spec_holds(m, s)
}

/// Two sequences less than a lap apart go to different slots; a full lap
/// apart, to the same one.
proof fn lemma_slots_within_lap(a: u64, b: u64)
    requires
        a < b,
        b <= a + RING_SLOTS,
    ensures
        spec_slot_of(a) == spec_slot_of(b) <==> b == a + RING_SLOTS,
{
    assert(a < b && b <= a + 64 ==> ((a % 64 == b % 64) <==> b == a + 64)) by (nonlinear_arith);
}

/// A fresh ring is in the publisher's state, and holds nothing that a
/// subscriber at its start could miss.
pub proof fn lemma_model_init_inv()
    ensures
        spec_model_inv(spec_model_init()),
        spec_model_retains(spec_model_init(), 0),
{
}

/// A successful publish keeps the ring in the publisher's state.
pub proof fn lemma_model_publish_keeps_inv(m: RingModel, payload: Seq<u8>, slowest_read_seq: u64)
    requires
        spec_model_inv(m),
        spec_model_publish(m, payload, slowest_read_seq) is Some,
        m.write_seq < EMPTY_SLOT_SEQ - RING_SLOTS,
    ensures
        spec_model_inv(spec_model_publish(m, payload, slowest_read_seq)->0),
{
    let seq = spec_next_seq(m.write_seq);
    assert(seq == m.write_seq + 1);
    let slot = spec_slot_of(seq);
    let m2 = spec_model_publish(m, payload, slowest_read_seq)->0;
    assert forall|i: int| 0 <= i < RING_SLOTS implies {
        let t = #[trigger] m2.seqs[i];
        t == EMPTY_SLOT_SEQ || (spec_slot_of(t) == i && t <= m2.write_seq && m2.write_seq < t
            + RING_SLOTS)
    } by {
        if i != slot {
            let t = m.seqs[i];
            if t != EMPTY_SLOT_SEQ {
                lemma_slots_within_lap(t, seq);
            }
        }
    }
}

/// No message is lost: a publish that succeeds keeps in the ring every
/// message that a subscriber at `read_seq`, at or after the slowest
/// position the publisher took into account, has yet to read. A subscriber
/// can miss a message only if a publish overwrote it, and a publish that
/// would overwrite an unread message is refused as ring full.
pub proof fn lemma_model_publish_keeps_unread(
    m: RingModel,
    payload: Seq<u8>,
    slowest_read_seq: u64,
    read_seq: u64,
)
    requires
        spec_model_publish(m, payload, slowest_read_seq) is Some,
        spec_model_retains(m, read_seq),
        slowest_read_seq <= read_seq,
        read_seq <= m.write_seq,
        m.write_seq < EMPTY_SLOT_SEQ - RING_SLOTS,
    ensures
        spec_model_retains(spec_model_publish(m, payload, slowest_read_seq)->0, read_seq),
{
    let w = m.write_seq;
    let seq = spec_next_seq(w);
    assert(seq == w + 1);
    let slot = spec_slot_of(seq);
    let m2 = spec_model_publish(m, payload, slowest_read_seq)->0;
    assert forall|s: int| read_seq < s <= m2.write_seq implies #[trigger] spec_holds(m2, s) by {
        if s <= w {
            assert(spec_holds(m, s));
            let k = s % (RING_SLOTS as int);
            if k == slot {
                let t = m.seqs[slot];
                assert(t == s);
                assert(t.wrapping_add(RING_SLOTS as u64) == t + RING_SLOTS);
                assert(t <= slowest_read_seq);
            }
        }
    }
}

/// The ring is full exactly when the slowest subscriber has a whole lap of
/// unread messages: on a ring in the publisher's state that still holds
/// everything the slowest subscriber has yet to read, a publish of a
/// payload that fits is refused if and only if that subscriber is a lap
/// behind.
pub proof fn lemma_model_full_iff_lap_behind(m: RingModel, payload: Seq<u8>, slowest_read_seq: u64)
    requires
        spec_model_inv(m),
        spec_model_retains(m, slowest_read_seq),
        slowest_read_seq <= m.write_seq,
        payload.len() <= MAX_SLOT_PAYLOAD,
        m.write_seq < EMPTY_SLOT_SEQ - RING_SLOTS,
    ensures
        (spec_model_publish(m, payload, slowest_read_seq) is None) == (m.write_seq
            - slowest_read_seq >= RING_SLOTS),
{
    let w = m.write_seq;
    let seq = spec_next_seq(w);
    assert(seq == w + 1);
    let slot = spec_slot_of(seq);
    let t = m.seqs[slot];
    if w - slowest_read_seq >= RING_SLOTS {
        let s0 = w + 1 - RING_SLOTS;
        assert(spec_holds(m, s0));
        let n = w + 1;
        assert(slot == n % 64);
        assert((n - 64) % 64 == n % 64) by (nonlinear_arith)
            requires
                n >= 64,
        ;
        assert(t == s0);
    } else {
        if t != EMPTY_SLOT_SEQ {
            lemma_slots_within_lap(t, seq);
            assert(t + RING_SLOTS == seq);
            assert(t.wrapping_add(RING_SLOTS as u64) == t + RING_SLOTS);
        }
    }
}

/// A subscriber whose unread messages are all in the ring receives the
/// next one and moves to it, and all that it still has to read stays in
/// the ring.
pub proof fn lemma_model_recv_retained(m: RingModel, read_seq: u64)
    requires
        spec_model_retains(m, read_seq),
        read_seq < m.write_seq,
    ensures
        spec_model_recv(m, read_seq) == Some(
            (m.payloads[spec_slot_of((read_seq + 1) as u64)], (read_seq + 1) as u64),
        ),
        spec_model_retains(m, (read_seq + 1) as u64),
{
    let s = read_seq + 1;
    assert(spec_holds(m, s));
    assert(s % (RING_SLOTS as int) == spec_slot_of(s as u64));
}

/// A subscriber that has read everything published finds no data: a
/// subscriber that joins at the publisher's cursor never receives a message
/// published before it joined.
pub proof fn lemma_model_caught_up_no_data(m: RingModel)
    requires
        spec_model_inv(m),
        m.write_seq < EMPTY_SLOT_SEQ - 1,
    ensures
        spec_model_recv(m, m.write_seq) is None,
{
    let seq = spec_next_seq(m.write_seq);
    assert(seq == m.write_seq + 1);
    let slot = spec_slot_of(seq);
    let t = m.seqs[slot];
    assert(t == EMPTY_SLOT_SEQ || t <= m.write_seq);
}

/// A caught-up subscriber receives the next message published, and its
/// position advances to that message.
pub proof fn lemma_model_delivers_next(m: RingModel, payload: Seq<u8>, slowest_read_seq: u64)
    requires
        spec_model_complete(m),
        spec_model_publish(m, payload, slowest_read_seq) is Some,
    ensures
        spec_model_recv(spec_model_publish(m, payload, slowest_read_seq)->0, m.write_seq) == Some(
            (payload, spec_next_seq(m.write_seq)),
        ),
{
}

/// A subscriber only ever receives the message whose sequence follows its
/// position, taken from the slot of that sequence; its position then moves
/// to that message.
pub proof fn lemma_model_recv_exact(m: RingModel, read_seq: u64)
    requires
        spec_model_recv(m, read_seq) is Some,
    ensures
        ({
            let (payload, seq) = spec_model_recv(m, read_seq)->0;
            &&& seq == spec_next_seq(read_seq)
            &&& m.seqs[spec_slot_of(seq)] == seq
            &&& payload == m.payloads[spec_slot_of(seq)]
        }),
{
}

/// The ring after publishing the payloads `ps` in order while no subscriber
/// moves past `slowest_read_seq`, or `None` when one of the publishes is
/// refused.
pub open spec fn spec_model_publish_all(m: RingModel, ps: Seq<Seq<u8>>, slowest_read_seq: u64) -> Option<
    RingModel,
>
    decreases ps.len(),
{
    if ps.len() == 0 {
        Some(m)
    } else {
        match spec_model_publish_all(m, ps.drop_last(), slowest_read_seq) {
            None => None,
            Some(m1) => spec_model_publish(m1, ps.last(), slowest_read_seq),
        }
    }
}

/// What a subscriber at position `read_seq` receives in `n` successive
/// non-blocking reads, or `None` when one of them finds no data.
pub open spec fn spec_model_recv_n(m: RingModel, read_seq: u64, n: nat) -> Option<Seq<Seq<u8>>>
    decreases n,
{
    if n == 0 {
        Some(Seq::empty())
    } else {
        match spec_model_recv(m, read_seq) {
            None => None,
            Some((p, next)) => match spec_model_recv_n(m, next, (n - 1) as nat) {
                None => None,
                Some(rest) => Some(seq![p] + rest),
            },
        }
    }
}

/// One more read after `n` successful ones appends what that read gets.
proof fn lemma_recv_n_snoc(m: RingModel, read_seq: u64, n: nat, p: Seq<u8>)
    requires
        read_seq + n < EMPTY_SLOT_SEQ,
        spec_model_recv_n(m, read_seq, n) is Some,
        spec_model_recv(m, (read_seq + n) as u64) == Some((p, (read_seq + n + 1) as u64)),
    ensures
        spec_model_recv_n(m, read_seq, n + 1) == Some(
            spec_model_recv_n(m, read_seq, n)->0.push(p),
        ),
    decreases n,
{
    if n == 0 {
        assert(spec_model_recv_n(m, (read_seq + 1) as u64, 0) == Some(Seq::<Seq<u8>>::empty()));
        assert(seq![p] + Seq::<Seq<u8>>::empty() =~= Seq::<Seq<u8>>::empty().push(p));
    } else {
        let (p0, s0) = spec_model_recv(m, read_seq)->0;
        assert(s0 == read_seq + 1);
        lemma_recv_n_snoc(m, s0, (n - 1) as nat, p);
        let rest = spec_model_recv_n(m, s0, (n - 1) as nat)->0;
        assert((seq![p0] + rest).push(p) =~= seq![p0] + rest.push(p));
    }
}

/// A publish leaves unchanged what a subscriber receives in reads that all
/// fall within the last lap before it.
proof fn lemma_publish_keeps_recv_n(
    m: RingModel,
    payload: Seq<u8>,
    slowest_read_seq: u64,
    read_seq: u64,
    n: nat,
)
    requires
        spec_model_complete(m),
        spec_model_publish(m, payload, slowest_read_seq) is Some,
        read_seq + n <= m.write_seq,
        m.write_seq - read_seq < RING_SLOTS,
        m.write_seq < EMPTY_SLOT_SEQ,
    ensures
        spec_model_recv_n(spec_model_publish(m, payload, slowest_read_seq)->0, read_seq, n)
            == spec_model_recv_n(m, read_seq, n),
    decreases n,
{
    if n > 0 {
        let seq = spec_next_seq(m.write_seq);
        let want = spec_next_seq(read_seq);
        assert(seq == m.write_seq + 1);
        assert(want == read_seq + 1);
        lemma_slots_within_lap(want, seq);
        lemma_publish_keeps_recv_n(m, payload, slowest_read_seq, want, (n - 1) as nat);
    }
}

/// Whether every payload of `ps` fits in a slot.
pub open spec fn spec_payloads_fit(ps: Seq<Seq<u8>>) -> bool {
    forall|i: int| 0 <= i < ps.len() ==> #[trigger] ps[i].len() <= MAX_SLOT_PAYLOAD
}

/// Delivery in order: on a ring in the publisher's state, up to a lap of
/// publishes after a subscriber has read everything all succeed while that
/// subscriber does not read; the subscriber then receives exactly the
/// published payloads, in publish order, and after them finds no data
/// (until the sequence range is nearly exhausted).
pub proof fn lemma_model_fifo_delivery(m: RingModel, ps: Seq<Seq<u8>>)
    requires
        spec_model_inv(m),
        ps.len() <= RING_SLOTS,
        spec_payloads_fit(ps),
        m.write_seq < EMPTY_SLOT_SEQ - 2 * RING_SLOTS,
    ensures
        spec_model_publish_all(m, ps, m.write_seq) is Some,
        spec_model_inv(spec_model_publish_all(m, ps, m.write_seq)->0),
        spec_model_retains(spec_model_publish_all(m, ps, m.write_seq)->0, m.write_seq),
        spec_model_publish_all(m, ps, m.write_seq)->0.write_seq == m.write_seq + ps.len(),
        spec_model_recv_n(spec_model_publish_all(m, ps, m.write_seq)->0, m.write_seq, ps.len())
            == Some(ps),
        spec_model_recv(
            spec_model_publish_all(m, ps, m.write_seq)->0,
            spec_model_publish_all(m, ps, m.write_seq)->0.write_seq,
        ) is None,
    decreases ps.len(),
{
    let w0 = m.write_seq;
    if ps.len() == 0 {
        lemma_model_caught_up_no_data(m);
    } else {
        let front = ps.drop_last();
        let p = ps.last();
        assert(spec_payloads_fit(front)) by {
            assert forall|i: int| 0 <= i < front.len() implies #[trigger] front[i].len()
                <= MAX_SLOT_PAYLOAD by {
                assert(front[i] == ps[i]);
            }
        }
        assert(p == ps[ps.len() - 1]);
        lemma_model_fifo_delivery(m, front);
        let m1 = spec_model_publish_all(m, front, w0)->0;
        lemma_model_full_iff_lap_behind(m1, p, w0);
        lemma_model_publish_keeps_inv(m1, p, w0);
        lemma_model_publish_keeps_unread(m1, p, w0, w0);
        let m2 = spec_model_publish(m1, p, w0)->0;
        lemma_publish_keeps_recv_n(m1, p, w0, w0, front.len());
        lemma_model_delivers_next(m1, p, w0);
        lemma_recv_n_snoc(m2, w0, front.len(), p);
        lemma_model_caught_up_no_data(m2);
        assert(front.push(p) =~= ps);
    }
}

} // verus!
