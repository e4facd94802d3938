//! Verified decision logic for a set of small eBPF demo programs: the byte
//! layout of the map entries they install, the handling of stream reads in
//! their echo and relay servers, the figures derived from kprobe events, and
//! the open / load / attach sequence that every program drives.
use vstd::prelude::*;

pub mod bytes;
pub mod connection;
pub mod irq_latency;
pub mod iter;
pub mod lifecycle;
pub mod socket_filter;
pub mod sockmap;

pub use iter::{attach, load, run};
