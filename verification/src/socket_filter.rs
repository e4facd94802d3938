//! Binding a socket-filter program to an accepted socket through the
//! `SO_ATTACH_BPF` socket option.
use vstd::prelude::*;

use crate::bytes::{encode_uint, encoding, ByteOrder};

verus! {

/// Why a program could not be bound to a socket.
#[derive(Clone, Copy, Debug, PartialEq, Eq, Structural)]
pub enum FilterError {
    /// The kernel refused the socket option with this status.
    Refused { status: i32 },
}

/// The option value handed to the kernel: the program's descriptor as a
/// 4-byte integer in the machine's byte order (`order`).
pub fn attach_option(prog_fd: i32, order: ByteOrder) -> (value: Vec<u8>)
    ensures
        value@ == encoding(prog_fd as u32 as nat, 4, order),
        value@.len() == 4,
{
    encode_uint(prog_fd as u32 as u64, 4, order)
}

/// What the status returned by setting the socket option means: 0 is
/// success, anything else a refusal.
pub fn attach_status(status: i32) -> (r: Result<(), FilterError>)
    ensures
        r is Ok <==> status == 0,
        r is Err ==> r == Err::<(), FilterError>(FilterError::Refused { status }),
{
    if status == 0 {
        Ok(())
    } else {
        Err(FilterError::Refused { status })
    }
}

} // verus!
