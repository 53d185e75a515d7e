//! The event channel: telemetry records as bytes, and a per-CPU ring that carries
//! them from a hook to the dispatcher.
use std::collections::VecDeque;
use crate::record::{action_code, PacketLog, Verdict};
use vstd::prelude::*;

verus! {

/// Size of an encoded telemetry record.
pub const RECORD_LEN: usize = 8;

/// Little-endian bytes of `x`.
pub open spec fn le_bytes(x: u32) -> Seq<u8> {
    seq![
        (x & 0xff) as u8,
        ((x >> 8u32) & 0xff) as u8,
        ((x >> 16u32) & 0xff) as u8,
        ((x >> 24u32) & 0xff) as u8,
    ]
}

/// The little-endian `u32` at `off` in `s`.
pub open spec fn le_u32_at(s: Seq<u8>, off: int) -> u32 {
    s[off] as u32 | (s[off + 1] as u32) << 8u32 | (s[off + 2] as u32) << 16u32 | (s[off + 3] as u32)
        << 24u32
}

/// The bytes of a record: the address, then the action code (0 deny, 1 permit), each
/// as a little-endian `u32`.
pub open spec fn encode_spec(r: PacketLog) -> Seq<u8> {
    le_bytes(r.ipv4_address) + le_bytes(action_code(r.action))
}

/// The record that starts `s`: `None` when `s` is shorter than a record or its
/// action code is neither 0 nor 1. Bytes past the record are ignored.
pub open spec fn decode_spec(s: Seq<u8>) -> Option<PacketLog> {
    if s.len() < RECORD_LEN {
        None
    } else {
        let code = le_u32_at(s, 4);
        if code == 0 {
            Some(PacketLog { ipv4_address: le_u32_at(s, 0), action: Verdict::Deny })
        } else if code == 1 {
            Some(PacketLog { ipv4_address: le_u32_at(s, 0), action: Verdict::Permit })
        } else {
            None
        }
    }
}

fn push_le_u32(out: &mut Vec<u8>, x: u32)
    ensures
        final(out)@ == old(out)@ + le_bytes(x),
{
    out.push((x & 0xff) as u8);
    out.push(((x >> 8u32) & 0xff) as u8);
    out.push(((x >> 16u32) & 0xff) as u8);
    out.push(((x >> 24u32) & 0xff) as u8);
    assert(final(out)@ =~= old(out)@ + le_bytes(x));
}

fn read_le_u32(s: &[u8], off: usize) -> (r: u32)
    requires
        off + 4 <= s@.len(),
    ensures
        r == le_u32_at(s@, off as int),
{
    s[off] as u32 | (s[off + 1] as u32) << 8u32 | (s[off + 2] as u32) << 16u32 | (s[off + 3] as u32)
        << 24u32
}

/// Encodes a record for the channel.
pub fn encode(r: &PacketLog) -> (out: Vec<u8>)
    ensures
        out@ == encode_spec(*r),
        out@.len() == RECORD_LEN,
{
    let mut out: Vec<u8> = Vec::new();
    push_le_u32(&mut out, r.ipv4_address);
    push_le_u32(&mut out, r.action_code());
    out
}

/// Decodes the record at the start of a buffer read from the channel.
pub fn decode(buf: &[u8]) -> (r: Option<PacketLog>)
    ensures
        r == decode_spec(buf@),
{
    if buf.len() < RECORD_LEN {
        return None;
    }
    let address = read_le_u32(buf, 0);
    let code = read_le_u32(buf, 4);
    if code == 0 {
        Some(PacketLog { ipv4_address: address, action: Verdict::Deny })
    } else if code == 1 {
        Some(PacketLog { ipv4_address: address, action: Verdict::Permit })
    } else {
        None
    }
}

/// Reading back the little-endian bytes of `x` gives `x`.
pub proof fn lemma_le_round_trip(x: u32)
    ensures
        le_u32_at(le_bytes(x), 0) == x,
{
    let b0 = (x & 0xff) as u8;
    let b1 = ((x >> 8u32) & 0xff) as u8;
    let b2 = ((x >> 16u32) & 0xff) as u8;
    let b3 = ((x >> 24u32) & 0xff) as u8;
    assert(b0 as u32 | (b1 as u32) << 8u32 | (b2 as u32) << 16u32 | (b3 as u32) << 24u32 == x)
        by (bit_vector)
        requires
            b0 == (x & 0xff) as u8,
            b1 == ((x >> 8u32) & 0xff) as u8,
            b2 == ((x >> 16u32) & 0xff) as u8,
            b3 == ((x >> 24u32) & 0xff) as u8,
    ;
}

/// A record encoded for the channel decodes to the same address and verdict.
pub proof fn lemma_record_round_trip(r: PacketLog)
    ensures
        decode_spec(encode_spec(r)) == Some(r),
{
    let s = encode_spec(r);
    lemma_le_round_trip(r.ipv4_address);
    lemma_le_round_trip(action_code(r.action));
    assert(s.subrange(0, 4) =~= le_bytes(r.ipv4_address));
    assert(s.subrange(4, 8) =~= le_bytes(action_code(r.action)));
    assert(le_u32_at(s, 0) == le_u32_at(le_bytes(r.ipv4_address), 0));
    assert(le_u32_at(s, 4) == le_u32_at(le_bytes(action_code(r.action)), 0));
}

/// One CPU's ring of encoded records, oldest first, holding at most `capacity` of them.
pub struct EventRing {
    slots: VecDeque<Vec<u8>>,
    capacity: usize,
}

impl View for EventRing {
    type V = Seq<Seq<u8>>;

    closed spec fn view(&self) -> Seq<Seq<u8>> {
        self.slots@.map_values(|b: Vec<u8>| b@)
    }
}

impl EventRing {
    pub closed spec fn capacity(&self) -> nat {
        self.capacity as nat
    }

    /// The ring holds no more records than its capacity.
    pub closed spec fn wf(&self) -> bool {
        self.slots@.len() <= self.capacity
    }

    /// An empty ring for `capacity` records.
    pub fn new(capacity: usize) -> (r: EventRing)
        ensures
            r.wf(),
            r@ == Seq::<Seq<u8>>::empty(),
            r.capacity() == capacity,
    {
        let r = EventRing { slots: VecDeque::new(), capacity };
        assert(r@ =~= Seq::<Seq<u8>>::empty());
        r
    }

    /// Number of records waiting.
    pub fn len(&self) -> (r: usize)
        ensures
            r == self@.len(),
    {
        self.slots.len()
    }

    /// Hands a record to the ring without waiting: when the ring is full the record is
    /// dropped. Returns whether it was kept.
    pub fn emit(&mut self, record: &PacketLog) -> (kept: bool)
        requires
            old(self).wf(),
        ensures
            final(self).wf(),
            final(self).capacity() == old(self).capacity(),
            kept == (old(self)@.len() < old(self).capacity()),
            kept ==> final(self)@ == old(self)@.push(encode_spec(*record)),
            !kept ==> final(self)@ == old(self)@,
    {
        if self.slots.len() >= self.capacity {
            return false;
        }
        let bytes = encode(record);
        self.slots.push_back(bytes);
        assert(self@ =~= old(self)@.push(encode_spec(*record)));
        true
    }

    /// Takes up to `max` of the oldest records, in the order they were emitted.
    pub fn read_events(&mut self, max: usize) -> (out: Vec<Vec<u8>>)
        requires
            old(self).wf(),
        ensures
            final(self).wf(),
            final(self).capacity() == old(self).capacity(),
            ({
                let n = if max < old(self)@.len() { max as int } else { old(self)@.len() as int };
                &&& out@.map_values(|b: Vec<u8>| b@) == old(self)@.take(n)
                &&& final(self)@ == old(self)@.skip(n)
            }),
    {
        let mut out: Vec<Vec<u8>> = Vec::new();
        let ghost start = self@;
        let ghost n = if max < start.len() { max as int } else { start.len() as int };
        while out.len() < max && self.slots.len() > 0
            invariant
                self.wf(),
                self.capacity() == old(self).capacity(),
                start == old(self)@,
                n == (if max < start.len() { max as int } else { start.len() as int }),
                out@.len() <= n,
                out@.map_values(|b: Vec<u8>| b@) == start.take(out@.len() as int),
                self@ == start.skip(out@.len() as int),
            decreases self.slots@.len(),
        {
            let ghost k = out@.len() as int;
            let ghost before = self.slots@;
            let ghost prev_out = out@;
            assert(self@ == before.map_values(|b: Vec<u8>| b@));
            match self.slots.pop_front() {
                Some(b) => {
                    assert(b@ == start[k]) by {
                        assert(start.skip(k)[0] == before.map_values(|b: Vec<u8>| b@)[0]);
                    }
                    out.push(b);
                    assert(out@ == prev_out.push(b));
                    assert(prev_out.map_values(|b: Vec<u8>| b@) == start.take(k));
                    assert(out@.map_values(|b: Vec<u8>| b@) =~= start.take(k + 1));
                    assert(self.slots@ == before.subrange(1, before.len() as int));
                    assert forall|j: int| 0 <= j < self@.len() implies self@[j] == start.skip(k + 1)[j] by {
                        assert(self@[j] == self.slots@[j]@);
                        assert(self.slots@[j] == before[j + 1]);
                        assert(before.map_values(|b: Vec<u8>| b@)[j + 1] == start.skip(k)[j + 1]);
                    }
                    assert(self@ =~= start.skip(k + 1));
                },
                None => {},
            }
        }
        out
    }
}

/// How many records a read of at most `max` takes from a ring holding `q`.
pub open spec fn taken(q: Seq<Seq<u8>>, max: nat) -> int {
    if max < q.len() { max as int } else { q.len() as int }
}

/// What one poll of every ring, at most `max` records from each, returns: the rings
/// in CPU order, each one's records oldest first.
pub open spec fn polled(rings: Seq<Seq<Seq<u8>>>, max: nat) -> Seq<Seq<u8>>
    decreases rings.len(),
{
    if rings.len() == 0 {
        Seq::empty()
    } else {
        polled(rings.drop_last(), max) + rings.last().take(taken(rings.last(), max))
    }
}

/// The event channel: one ring per logical CPU.
pub struct EventChannel {
    rings: Vec<EventRing>,
}

impl View for EventChannel {
    type V = Seq<Seq<Seq<u8>>>;

    closed spec fn view(&self) -> Seq<Seq<Seq<u8>>> {
        self.rings@.map_values(|r: EventRing| r@)
    }
}

impl EventChannel {
    /// Capacity of each ring.
    pub closed spec fn ring_capacity(&self) -> nat {
        if self.rings@.len() == 0 { 0 } else { self.rings@[0].capacity() }
    }

    /// Every ring is well formed and has the same capacity.
    pub closed spec fn wf(&self) -> bool {
        forall|c: int| 0 <= c < self.rings@.len() ==> {
            &&& (#[trigger] self.rings@[c]).wf()
            &&& self.rings@[c].capacity() == self.rings@[0].capacity()
        }
    }

    /// A channel of `cpus` empty rings, each for `capacity` records.
    pub fn new(cpus: usize, capacity: usize) -> (r: EventChannel)
        ensures
            r.wf(),
            r@.len() == cpus,
            forall|c: int| 0 <= c < cpus ==> (#[trigger] r@[c]) == Seq::<Seq<u8>>::empty(),
            cpus > 0 ==> r.ring_capacity() == capacity,
    {
        let mut rings: Vec<EventRing> = Vec::new();
        let mut i: usize = 0;
        while i < cpus
            invariant
                i <= cpus,
                rings@.len() == i,
                forall|c: int| 0 <= c < i ==> {
                    &&& (#[trigger] rings@[c]).wf()
                    &&& rings@[c].capacity() == capacity
                    &&& rings@[c]@ == Seq::<Seq<u8>>::empty()
                },
            decreases cpus - i,
        {
            rings.push(EventRing::new(capacity));
            i = i + 1;
        }
        EventChannel { rings }
    }

    /// Number of CPUs the channel has a ring for.
    pub fn cpus(&self) -> (r: usize)
        ensures
            r == self@.len(),
    {
        self.rings.len()
    }

    /// Hands a record to the ring of `cpu` without waiting; it is dropped when that
    /// ring is full. Returns whether it was kept. The other rings are untouched.
    pub fn emit(&mut self, cpu: usize, record: &PacketLog) -> (kept: bool)
        requires
            old(self).wf(),
            cpu < old(self)@.len(),
        ensures
            final(self).wf(),
            final(self).ring_capacity() == old(self).ring_capacity(),
            kept == (old(self)@[cpu as int].len() < old(self).ring_capacity()),
            final(self)@ == old(self)@.update(
                cpu as int,
                if kept {
                    old(self)@[cpu as int].push(encode_spec(*record))
                } else {
                    old(self)@[cpu as int]
                },
            ),
    {
        let ghost before = self.rings@;
        let mut ring = self.rings.remove(cpu);
        let kept = ring.emit(record);
        self.rings.insert(cpu, ring);
        proof {
            assert(self.rings@ == before.update(cpu as int, ring));
            assert(self.rings@[0].capacity() == before[0].capacity());
        }
        assert(self@ =~= old(self)@.update(
            cpu as int,
            if kept {
                old(self)@[cpu as int].push(encode_spec(*record))
            } else {
                old(self)@[cpu as int]
            },
        ));
        kept
    }

    /// Takes up to `max` of the oldest records of every ring: the rings in CPU order,
    /// each one's records in the order they were emitted.
    pub fn poll_all(&mut self, max: usize) -> (out: Vec<Vec<u8>>)
        requires
            old(self).wf(),
        ensures
            final(self).wf(),
            final(self).ring_capacity() == old(self).ring_capacity(),
            out@.map_values(|b: Vec<u8>| b@) == polled(old(self)@, max as nat),
            final(self)@.len() == old(self)@.len(),
            forall|c: int|
                0 <= c < old(self)@.len() ==> (#[trigger] final(self)@[c]) == old(self)@[c].skip(
                    taken(old(self)@[c], max as nat),
                ),
    {
        let ghost start = self.rings@;
        let ghost views = self@;
        let mut done: Vec<EventRing> = Vec::new();
        let mut out: Vec<Vec<u8>> = Vec::new();
        while self.rings.len() > 0
            invariant
                done@.len() + self.rings@.len() == start.len(),
                self.rings@ == start.skip(done@.len() as int),
                views == start.map_values(|r: EventRing| r@),
                forall|c: int| 0 <= c < start.len() ==> {
                    &&& (#[trigger] start[c]).wf()
                    &&& start[c].capacity() == start[0].capacity()
                },
                forall|c: int| 0 <= c < done@.len() ==> {
                    &&& (#[trigger] done@[c]).wf()
                    &&& done@[c].capacity() == start[c].capacity()
                    &&& done@[c]@ == start[c]@.skip(taken(start[c]@, max as nat))
                },
                out@.map_values(|b: Vec<u8>| b@) == polled(views.take(done@.len() as int), max as nat),
            decreases self.rings@.len(),
        {
            let ghost k = done@.len() as int;
            let ghost out_before = out@;
            let mut ring = self.rings.remove(0);
            assert(ring == start[k]);
            let mut got = ring.read_events(max);
            let ghost got_v = got@;
            out.append(&mut got);
            done.push(ring);
            proof {
                assert(self.rings@ =~= start.skip(k + 1));
                let t = views.take(k + 1);
                assert(t.drop_last() =~= views.take(k));
                assert(t.last() == start[k]@);
                assert(out@ == out_before + got_v);
                assert(out@.map_values(|b: Vec<u8>| b@) =~= out_before.map_values(|b: Vec<u8>| b@)
                    + got_v.map_values(|b: Vec<u8>| b@));
            }
        }
        self.rings = done;
        proof {
            assert(views.take(start.len() as int) =~= views);
        }
        assert(final(self)@.len() == old(self)@.len());
        out
    }
}

/// Decodes each buffer read from a ring into the dispatcher's log line; a buffer that
/// holds no record gives `None`.
pub fn dispatch_lines(bufs: &Vec<Vec<u8>>) -> (lines: Vec<Option<String>>)
    ensures
        lines@.len() == bufs@.len(),
        forall|i: int|
            0 <= i < bufs@.len() ==> match decode_spec(#[trigger] bufs@[i]@) {
                Some(r) => lines@[i] is Some && lines@[i]->0@ == crate::record::dispatch_log_text(r),
                None => lines@[i] is None,
            },
{
    let mut lines: Vec<Option<String>> = Vec::new();
    let mut i: usize = 0;
    while i < bufs.len()
        invariant
            i <= bufs@.len(),
            lines@.len() == i,
            forall|j: int|
                0 <= j < i ==> match decode_spec(#[trigger] bufs@[j]@) {
                    Some(r) => lines@[j] is Some && lines@[j]->0@ == crate::record::dispatch_log_text(r),
                    None => lines@[j] is None,
                },
        decreases bufs@.len() - i,
    {
        let line = match decode(bufs[i].as_slice()) {
            Some(r) => Some(r.dispatch_line()),
            None => None,
        };
        lines.push(line);
        i = i + 1;
    }
    lines
}

} // verus!
