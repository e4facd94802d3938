use ebpf_examples::bytes::decode_uint;
use ebpf_examples::bytes::{encode_uint, ByteOrder};
use ebpf_examples::sockmap::{port_entry, socket_entry};

fn host_order() -> ByteOrder {
    if u16::from_ne_bytes([1, 0]) == 1 {
        ByteOrder::Little
    } else {
        ByteOrder::Big
    }
}

#[test]
fn encode_little_endian_widths() {
    assert_eq!(encode_uint(0xAB, 1, ByteOrder::Little), vec![0xAB]);
    assert_eq!(encode_uint(0x1234, 2, ByteOrder::Little), vec![0x34, 0x12]);
    assert_eq!(encode_uint(0x0102_0304, 4, ByteOrder::Little), vec![4, 3, 2, 1]);
    assert_eq!(
        encode_uint(0x0102_0304_0506_0708, 8, ByteOrder::Little),
        vec![8, 7, 6, 5, 4, 3, 2, 1]
    );
}

#[test]
fn encode_big_endian_widths() {
    assert_eq!(encode_uint(0x1234, 2, ByteOrder::Big), vec![0x12, 0x34]);
    assert_eq!(encode_uint(0x0102_0304, 4, ByteOrder::Big), vec![1, 2, 3, 4]);
    assert_eq!(encode_uint(u64::MAX, 8, ByteOrder::Big), vec![0xFF; 8]);
}

#[test]
fn encode_zero_width_and_truncation() {
    assert_eq!(encode_uint(99, 0, ByteOrder::Little), Vec::<u8>::new());
    assert_eq!(encode_uint(0x1_0203, 2, ByteOrder::Little), vec![0x03, 0x02]);
}

#[test]
fn encode_matches_native_bytes() {
    let order = host_order();
    assert_eq!(encode_uint(5202, 2, order), 5202u16.to_ne_bytes().to_vec());
    assert_eq!(encode_uint(1, 4, order), 1u32.to_ne_bytes().to_vec());
    assert_eq!(encode_uint(42, 8, order), 42u64.to_ne_bytes().to_vec());
}

#[test]
fn port_entry_layout() {
    let e = port_entry(5202, 0, ByteOrder::Little);
    assert_eq!(e.key, vec![0x52, 0x14]);
    assert_eq!(e.value, vec![0]);
    let b = port_entry(5202, 7, ByteOrder::Big);
    assert_eq!(b.key, vec![0x14, 0x52]);
    assert_eq!(b.value, vec![7]);
}

#[test]
fn socket_entry_layout() {
    let e = socket_entry(1, 7, ByteOrder::Little);
    assert_eq!(e.key, vec![1, 0, 0, 0]);
    assert_eq!(e.value, vec![7, 0, 0, 0, 0, 0, 0, 0]);
    let b = socket_entry(1, 7, ByteOrder::Big);
    assert_eq!(b.key, vec![0, 0, 0, 1]);
    assert_eq!(b.value, vec![0, 0, 0, 0, 0, 0, 0, 7]);
}

#[test]
fn distinct_slots_have_distinct_keys() {
    for order in [ByteOrder::Little, ByteOrder::Big] {
        let first = socket_entry(0, 9, order);
        let second = socket_entry(1, 9, order);
        assert_ne!(first.key, second.key);
        assert_eq!(first.value, second.value);
    }
}

#[test]
fn decode_uint_reads_each_order() {
    let data = [0xAA, 0x01, 0x02, 0x03, 0x04, 0xBB];
    assert_eq!(decode_uint(&data, 1, 4, ByteOrder::Little), 0x0403_0201);
    assert_eq!(decode_uint(&data, 1, 4, ByteOrder::Big), 0x0102_0304);
    assert_eq!(decode_uint(&data, 0, 1, ByteOrder::Big), 0xAA);
    assert_eq!(decode_uint(&data, 3, 0, ByteOrder::Little), 0);
    let all = [0xFFu8; 8];
    assert_eq!(decode_uint(&all, 0, 8, ByteOrder::Little), u64::MAX);
}

#[test]
fn decode_uint_undoes_encode_uint() {
    for order in [ByteOrder::Little, ByteOrder::Big] {
        let bytes = encode_uint(0x0123_4567_89AB_CDEF, 8, order);
        assert_eq!(decode_uint(&bytes, 0, 8, order), 0x0123_4567_89AB_CDEF);
    }
}
