//! The figures that the kprobe demo reports for each event it receives: how
//! long after the last hard and soft interrupt a packet was seen, and the
//! packet's addresses.
use vstd::prelude::*;

use crate::bytes::{
    byte_range, decode_uint, decoding, encode_uint, encoding, lemma_decoding_range, lemma_encode_decode, ByteOrder,
};

verus! {

/// One event as the kprobe program submits it.
pub struct IrqEvent {
    /// The event type the program tags the event with.
    pub kind: u64,
    /// When the packet was seen, in nanoseconds.
    pub ts: u64,
    /// When the last soft interrupt was taken, in nanoseconds.
    pub softirq_ts: u64,
    /// When the last hard interrupt was taken, in nanoseconds.
    pub hardirq_ts: u64,
    /// The command name of the current task, as raw bytes.
    pub comm: Vec<u8>,
    /// The source IPv4 address, as the field holds it (network byte order in
    /// memory).
    pub sip: u32,
    /// The destination IPv4 address, as the field holds it.
    pub dip: u32,
}

/// The line of figures reported for one event.
pub struct EventSummary {
    pub cpu: i32,
    pub kind: u64,
    pub ts: u64,
    pub softirq_ts: u64,
    pub hardirq_ts: u64,
    /// Time from the last hard interrupt to the packet.
    pub hard_delta: u64,
    /// Time from the last soft interrupt to the packet.
    pub soft_delta: u64,
    pub comm: Vec<u8>,
    /// The four octets of the source address, in the order they are written.
    pub source: Vec<u8>,
    /// The four octets of the destination address.
    pub destination: Vec<u8>,
}

/// The time from `since` to `ts`; `u64::MAX` stands for "no earlier
/// interrupt" when `ts` is not after `since`.
pub open spec fn delta_spec(ts: u64, since: u64) -> u64 {
    if ts > since {
        (ts - since) as u64
    } else {
        u64::MAX
    }
}

/// The value that converting `raw` from big-endian to the machine's byte
/// order gives on a machine of byte order `order`: the bytes `raw` occupies in
/// memory, read most significant first.
pub open spec fn from_big_endian(raw: u32, order: ByteOrder) -> nat {
    decoding(encoding(raw as nat, 4, order), ByteOrder::Big)
}

/// The time from `since` to `ts`, or `u64::MAX` when `ts` is not after
/// `since`.
pub fn irq_delta(ts: u64, since: u64) -> (d: u64)
    ensures
        d == delta_spec(ts, since),
{
    if ts > since {
        ts - since
    } else {
        u64::MAX
    }
}

/// The four octets of an IPv4 address held in network byte order by a `u32`
/// field, on a machine of byte order `order`: the octets of the address
/// whose number is the field converted from big-endian, which are the field's
/// bytes in memory order.
pub fn ipv4_octets(raw: u32, order: ByteOrder) -> (octets: Vec<u8>)
    ensures
        octets@ == encoding(from_big_endian(raw, order), 4, ByteOrder::Big),
        octets@ == encoding(raw as nat, 4, order),
{
    let octets = encode_uint(raw as u64, 4, order);
    proof {
        lemma_encode_decode(octets@, ByteOrder::Big);
    }
    octets
}

/// The figures reported for `event`, received on CPU `cpu`.
pub fn summarize(cpu: i32, event: IrqEvent, order: ByteOrder) -> (s: EventSummary)
    ensures
        s.cpu == cpu,
        s.kind == event.kind,
        s.ts == event.ts,
        s.softirq_ts == event.softirq_ts,
        s.hardirq_ts == event.hardirq_ts,
        s.hard_delta == delta_spec(event.ts, event.hardirq_ts),
        s.soft_delta == delta_spec(event.ts, event.softirq_ts),
        s.comm@ == event.comm@,
        s.source@ == encoding(from_big_endian(event.sip, order), 4, ByteOrder::Big),
        s.destination@ == encoding(from_big_endian(event.dip, order), 4, ByteOrder::Big),
{
    let hard_delta = irq_delta(event.ts, event.hardirq_ts);
    let soft_delta = irq_delta(event.ts, event.softirq_ts);
    let source = ipv4_octets(event.sip, order);
    let destination = ipv4_octets(event.dip, order);
    EventSummary {
        cpu,
        kind: event.kind,
        ts: event.ts,
        softirq_ts: event.softirq_ts,
        hardirq_ts: event.hardirq_ts,
        hard_delta,
        soft_delta,
        comm: event.comm,
        source,
        destination,
    }
}

/// A delta is the exact elapsed time whenever the interrupt came first, and
/// the marker `u64::MAX` otherwise; a real delta is never the marker unless
/// the interrupt came at time 0 and the packet at `u64::MAX`.
pub proof fn law_delta(ts: u64, since: u64)
    ensures
        since < ts ==> delta_spec(ts, since) + since == ts,
        ts <= since ==> delta_spec(ts, since) == u64::MAX,
        delta_spec(ts, since) == u64::MAX ==> ts <= since || (since == 0 && ts == u64::MAX),
{
}

/// The size in bytes of the event record the kprobe program submits. Its
/// layout, in the machine's byte order: the type as a 4-byte integer at 0,
/// 4 bytes of padding, the packet time at 8, the soft and hard interrupt
/// times at 16 and 24 (8 bytes each), the 16-byte command name at 32, and the
/// source and destination addresses at 48 and 52 (4 bytes each).
pub const EVENT_SIZE: usize = 56;

/// The bytes of `data` from `start` (inclusive) to `end` (exclusive).
pub open spec fn field(data: Seq<u8>, start: int, end: int) -> Seq<u8> {
    data.subrange(start, end)
}

/// Reads an event record from the start of `data`, on a machine of byte
/// order `order`; `None` when `data` is too short to hold one. Bytes past the
/// record are not read.
pub fn decode_event(data: &[u8], order: ByteOrder) -> (r: Option<IrqEvent>)
    ensures
        r is Some <==> data@.len() >= EVENT_SIZE,
        r matches Some(e) ==> {
            &&& e.kind == decoding(field(data@, 0, 4), order)
            &&& e.ts == decoding(field(data@, 8, 16), order)
            &&& e.softirq_ts == decoding(field(data@, 16, 24), order)
            &&& e.hardirq_ts == decoding(field(data@, 24, 32), order)
            &&& e.comm@ == field(data@, 32, 48)
            &&& e.sip == decoding(field(data@, 48, 52), order)
            &&& e.dip == decoding(field(data@, 52, 56), order)
        },
{
    if data.len() < EVENT_SIZE {
        return None;
    }
    let kind = decode_uint(data, 0, 4, order);
    let ts = decode_uint(data, 8, 8, order);
    let softirq_ts = decode_uint(data, 16, 8, order);
    let hardirq_ts = decode_uint(data, 24, 8, order);
    let sip = decode_uint(data, 48, 4, order);
    let dip = decode_uint(data, 52, 4, order);
    proof {
        assert(byte_range(4) == 0x1_0000_0000) by {
            reveal_with_fuel(byte_range, 5);
        }
        lemma_decoding_range(data@.subrange(48, 52), order);
        lemma_decoding_range(data@.subrange(52, 56), order);
    }
    let mut comm: Vec<u8> = Vec::new();
    let mut i: usize = 32;
    while i < 48
        invariant
            32 <= i <= 48,
            data@.len() >= 56,
            comm@ == data@.subrange(32, i as int),
        decreases 48 - i,
    {
        comm.push(data[i]);
        i = i + 1;
        assert(comm@ =~= data@.subrange(32, i as int));
    }
    Some(IrqEvent { kind, ts, softirq_ts, hardirq_ts, comm, sip: sip as u32, dip: dip as u32 })
}

} // verus!
