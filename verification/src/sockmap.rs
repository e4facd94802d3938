//! The key and value bytes that the demo programs write into their BPF maps.
//!
//! BPF maps take keys and values as raw bytes in the machine's own byte
//! order; the caller says which order that is.
use vstd::prelude::*;

use crate::bytes::{encode_uint, encoding, law_encoding_injective, ByteOrder};

verus! {

/// One key/value pair to be written into a BPF map.
pub struct MapEntry {
    pub key: Vec<u8>,
    pub value: Vec<u8>,
}

/// The entry of a port map (`u16` port -> `u8` flag) that the socket-lookup
/// program consults to decide which destination ports to steer.
pub fn port_entry(port: u16, flag: u8, order: ByteOrder) -> (entry: MapEntry)
    ensures
        entry.key@ == encoding(port as nat, 2, order),
        entry.value@ == encoding(flag as nat, 1, order),
        entry.key@.len() == 2,
        entry.value@.len() == 1,
{
    let key = encode_uint(port as u64, 2, order);
    let value = encode_uint(flag as u64, 1, order);
    MapEntry { key, value }
}

/// The entry of a socket map (`u32` slot -> `u64` socket descriptor) that
/// places the socket `fd` at index `slot`.
pub fn socket_entry(slot: u32, fd: u64, order: ByteOrder) -> (entry: MapEntry)
    ensures
        entry.key@ == encoding(slot as nat, 4, order),
        entry.value@ == encoding(fd as nat, 8, order),
        entry.key@.len() == 4,
        entry.value@.len() == 8,
{
    let key = encode_uint(slot as u64, 4, order);
    let value = encode_uint(fd, 8, order);
    MapEntry { key, value }
}

/// Socket-map entries for distinct slots have distinct keys, so installing
/// the two ends of a connection at slots 0 and 1 never overwrites one with
/// the other.
pub proof fn law_distinct_slots_distinct_keys(a: u32, b: u32, order: ByteOrder)
    requires
        a != b,
    ensures
        encoding(a as nat, 4, order) != encoding(b as nat, 4, order),
{
    assert(crate::bytes::byte_range(4) == 0x1_0000_0000) by {
        reveal_with_fuel(crate::bytes::byte_range, 5);
    }
    if encoding(a as nat, 4, order) == encoding(b as nat, 4, order) {
        law_encoding_injective(a as nat, b as nat, 4, order);
    }
}

} // verus!
