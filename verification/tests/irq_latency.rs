use ebpf_examples::bytes::encode_uint;
use ebpf_examples::irq_latency::decode_event;
use ebpf_examples::bytes::ByteOrder;
use ebpf_examples::irq_latency::{ipv4_octets, irq_delta, summarize, IrqEvent};

#[test]
fn delta_when_interrupt_came_first() {
    assert_eq!(irq_delta(1_000, 400), 600);
    assert_eq!(irq_delta(u64::MAX, 0), u64::MAX);
}

#[test]
fn delta_marker_when_interrupt_not_earlier() {
    assert_eq!(irq_delta(400, 400), u64::MAX);
    assert_eq!(irq_delta(399, 400), u64::MAX);
    assert_eq!(irq_delta(0, 0), u64::MAX);
}

#[test]
fn octets_are_memory_bytes() {
    let raw = u32::from_ne_bytes([127, 0, 0, 1]);
    let order = if u16::from_ne_bytes([1, 0]) == 1 { ByteOrder::Little } else { ByteOrder::Big };
    assert_eq!(ipv4_octets(raw, order), vec![127, 0, 0, 1]);
    assert_eq!(
        ipv4_octets(raw, order),
        u32::from_be(raw).to_be_bytes().to_vec()
    );
}

#[test]
fn octets_in_each_byte_order() {
    assert_eq!(ipv4_octets(0x0100_007F, ByteOrder::Little), vec![127, 0, 0, 1]);
    assert_eq!(ipv4_octets(0xC0A8_0001, ByteOrder::Big), vec![192, 168, 0, 1]);
}

#[test]
fn summary_of_event() {
    let event = IrqEvent {
        kind: 2,
        ts: 5_000,
        softirq_ts: 4_000,
        hardirq_ts: 6_000,
        comm: b"swapper/0\0\0\0\0\0\0\0".to_vec(),
        sip: 0x0100_007F,
        dip: 0x0201_A8C0,
    };
    let s = summarize(3, event, ByteOrder::Little);
    assert_eq!(s.cpu, 3);
    assert_eq!(s.kind, 2);
    assert_eq!(s.ts, 5_000);
    assert_eq!(s.softirq_ts, 4_000);
    assert_eq!(s.hardirq_ts, 6_000);
    assert_eq!(s.soft_delta, 1_000);
    assert_eq!(s.hard_delta, u64::MAX);
    assert_eq!(s.comm, b"swapper/0\0\0\0\0\0\0\0".to_vec());
    assert_eq!(s.source, vec![127, 0, 0, 1]);
    assert_eq!(s.destination, vec![192, 168, 1, 2]);
}

fn record(order: ByteOrder) -> Vec<u8> {
    let mut data = Vec::new();
    data.extend(encode_uint(2, 4, order));
    data.extend([0u8; 4]);
    data.extend(encode_uint(5_000, 8, order));
    data.extend(encode_uint(4_000, 8, order));
    data.extend(encode_uint(6_000, 8, order));
    data.extend(b"swapper/0\0\0\0\0\0\0\0");
    data.extend([127, 0, 0, 1]);
    data.extend([192, 168, 1, 2]);
    data
}

#[test]
fn decode_event_reads_every_field() {
    for order in [ByteOrder::Little, ByteOrder::Big] {
        let data = record(order);
        assert_eq!(data.len(), 56);
        let e = decode_event(&data, order).expect("a whole record");
        assert_eq!(e.kind, 2);
        assert_eq!(e.ts, 5_000);
        assert_eq!(e.softirq_ts, 4_000);
        assert_eq!(e.hardirq_ts, 6_000);
        assert_eq!(e.comm, b"swapper/0\0\0\0\0\0\0\0".to_vec());
        let s = summarize(0, e, order);
        assert_eq!(s.source, vec![127, 0, 0, 1]);
        assert_eq!(s.destination, vec![192, 168, 1, 2]);
    }
}

#[test]
fn decode_event_needs_a_whole_record() {
    let data = record(ByteOrder::Little);
    assert!(decode_event(&data[..55], ByteOrder::Little).is_none());
    assert!(decode_event(&[], ByteOrder::Little).is_none());
    let mut longer = data.clone();
    longer.extend([9u8; 8]);
    assert_eq!(decode_event(&longer, ByteOrder::Little).unwrap().ts, 5_000);
}
