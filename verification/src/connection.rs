//! What the demo servers do with each read from a TCP stream.
//!
//! Every server reads into a fixed buffer in a loop; a read of zero bytes
//! means the peer closed the stream. What happens to the bytes read depends
//! on the server's role.
use vstd::prelude::*;

verus! {

/// The part a stream reader plays.
#[derive(Clone, Copy, Debug, PartialEq, Eq, Structural)]
pub enum StreamRole {
    /// Writes back to the peer whatever it read.
    Echo,
    /// Shows what it read and forwards the bytes read to a backend.
    Proxy,
    /// Shows what it read; when `announce_close` holds it also says so when
    /// the peer closes the stream.
    Monitor { announce_close: bool },
}

/// What to do after one read.
#[derive(Clone, Copy, Debug, PartialEq, Eq, Structural)]
pub enum ReadReply {
    /// The peer closed the stream: stop reading, saying so when `announce`
    /// holds.
    Close { announce: bool },
    /// Write the first `len` bytes of the buffer back to the peer.
    EchoBack { len: usize },
    /// Show the text of the first `shown` bytes of the buffer and write its
    /// first `forward` bytes to the backend.
    Relay { shown: usize, forward: usize },
    /// Show the text of the first `shown` bytes of the buffer.
    Show { shown: usize },
}

/// The reply of a reader in role `role` to a read of `bytes_read` bytes into
/// a buffer of `capacity` bytes. What is shown is the whole buffer, as the
/// servers print it, so bytes left from an earlier, longer read are shown
/// again after the new ones.
pub open spec fn reply_spec(role: StreamRole, bytes_read: nat, capacity: nat) -> ReadReply {
    if bytes_read == 0 {
        ReadReply::Close {
            announce: match role {
                StreamRole::Echo => false,
                StreamRole::Proxy => true,
                StreamRole::Monitor { announce_close } => announce_close,
            },
        }
    } else {
        match role {
            StreamRole::Echo => ReadReply::EchoBack { len: bytes_read as usize },
            StreamRole::Proxy => ReadReply::Relay { shown: capacity as usize, forward: bytes_read as usize },
            StreamRole::Monitor { .. } => ReadReply::Show { shown: capacity as usize },
        }
    }
}

/// Decides what a reader in role `role` does after a read of `bytes_read`
/// bytes into a buffer of `capacity` bytes.
pub fn on_read(role: StreamRole, bytes_read: usize, capacity: usize) -> (reply: ReadReply)
    requires
        bytes_read <= capacity,
    ensures
        reply == reply_spec(role, bytes_read as nat, capacity as nat),
        bytes_read == 0 <==> reply is Close,
        bytes_read > 0 && role == StreamRole::Echo ==> reply == (ReadReply::EchoBack { len: bytes_read }),
        bytes_read > 0 && role == StreamRole::Proxy ==> reply == (ReadReply::Relay {
            shown: capacity,
            forward: bytes_read,
        }),
        bytes_read > 0 && role is Monitor ==> reply == (ReadReply::Show { shown: capacity }),
{
    if bytes_read == 0 {
        let announce = match role {
            StreamRole::Echo => false,
            StreamRole::Proxy => true,
            StreamRole::Monitor { announce_close } => announce_close,
        };
        ReadReply::Close { announce }
    } else {
        match role {
            StreamRole::Echo => ReadReply::EchoBack { len: bytes_read },
            StreamRole::Proxy => ReadReply::Relay { shown: capacity, forward: bytes_read },
            StreamRole::Monitor { .. } => ReadReply::Show { shown: capacity },
        }
    }
}

/// A reader stops exactly on an empty read, and it never writes out more
/// bytes than it has just read: echoed and forwarded bytes are exactly the
/// bytes of the last read, and whatever is shown lies within the buffer.
pub proof fn law_reply_bounds(role: StreamRole, bytes_read: nat, capacity: nat)
    requires
        bytes_read <= capacity,
        capacity <= usize::MAX,
    ensures
        (reply_spec(role, bytes_read, capacity) is Close) <==> bytes_read == 0,
        reply_spec(role, bytes_read, capacity) matches ReadReply::EchoBack { len } ==> len == bytes_read,
        reply_spec(role, bytes_read, capacity) matches ReadReply::Relay { shown, forward } ==> forward
            == bytes_read && shown <= capacity,
        reply_spec(role, bytes_read, capacity) matches ReadReply::Show { shown } ==> shown <= capacity,
{
}

/// Each role answers a non-empty read in its own way only: an echo server
/// writes back exactly the bytes read, a proxy shows the whole buffer and
/// forwards exactly the bytes read, and a monitor only shows the whole
/// buffer and never writes to any stream. Only an echo server echoes, only a
/// proxy relays, only a monitor merely shows.
pub proof fn law_role_replies(role: StreamRole, bytes_read: nat, capacity: nat)
    requires
        0 < bytes_read <= capacity,
        capacity <= usize::MAX,
    ensures
        role == StreamRole::Echo ==> reply_spec(role, bytes_read, capacity) == (ReadReply::EchoBack {
            len: bytes_read as usize,
        }),
        role == StreamRole::Proxy ==> reply_spec(role, bytes_read, capacity) == (ReadReply::Relay {
            shown: capacity as usize,
            forward: bytes_read as usize,
        }),
        role is Monitor ==> reply_spec(role, bytes_read, capacity) == (ReadReply::Show {
            shown: capacity as usize,
        }),
        reply_spec(role, bytes_read, capacity) is EchoBack ==> role == StreamRole::Echo,
        reply_spec(role, bytes_read, capacity) is Relay ==> role == StreamRole::Proxy,
        reply_spec(role, bytes_read, capacity) is Show ==> role is Monitor,
{
}

/// An empty read closes the stream in every role; the close is announced by
/// a proxy, never by an echo server, and by a monitor exactly when it was
/// set to announce it.
pub proof fn law_close_announcement(role: StreamRole, capacity: nat)
    ensures
        reply_spec(role, 0, capacity) is Close,
        role == StreamRole::Echo ==> reply_spec(role, 0, capacity) == (ReadReply::Close { announce: false }),
        role == StreamRole::Proxy ==> reply_spec(role, 0, capacity) == (ReadReply::Close { announce: true }),
        role matches StreamRole::Monitor { announce_close } ==> reply_spec(role, 0, capacity) == (
        ReadReply::Close { announce: announce_close }),
{
}

} // verus!
