use ebpf_examples::connection::{on_read, ReadReply, StreamRole};
use ebpf_examples::socket_filter::{attach_option, attach_status, FilterError};
use ebpf_examples::bytes::ByteOrder;

#[test]
fn echo_writes_back_what_was_read() {
    assert_eq!(on_read(StreamRole::Echo, 11, 1024), ReadReply::EchoBack { len: 11 });
    assert_eq!(on_read(StreamRole::Echo, 1024, 1024), ReadReply::EchoBack { len: 1024 });
}

#[test]
fn empty_read_closes_each_role() {
    assert_eq!(on_read(StreamRole::Echo, 0, 1024), ReadReply::Close { announce: false });
    assert_eq!(on_read(StreamRole::Proxy, 0, 1024), ReadReply::Close { announce: true });
    assert_eq!(
        on_read(StreamRole::Monitor { announce_close: true }, 0, 1024),
        ReadReply::Close { announce: true }
    );
    assert_eq!(
        on_read(StreamRole::Monitor { announce_close: false }, 0, 1024),
        ReadReply::Close { announce: false }
    );
}

#[test]
fn proxy_shows_buffer_and_forwards_read_bytes() {
    assert_eq!(
        on_read(StreamRole::Proxy, 10, 1024),
        ReadReply::Relay { shown: 1024, forward: 10 }
    );
}

#[test]
fn monitor_shows_whole_buffer() {
    assert_eq!(
        on_read(StreamRole::Monitor { announce_close: true }, 10, 1024),
        ReadReply::Show { shown: 1024 }
    );
}

#[test]
fn attach_status_zero_is_success() {
    assert_eq!(attach_status(0), Ok(()));
}

#[test]
fn attach_status_nonzero_is_refusal() {
    assert_eq!(attach_status(-1), Err(FilterError::Refused { status: -1 }));
    assert_eq!(attach_status(13), Err(FilterError::Refused { status: 13 }));
}

#[test]
fn attach_option_is_descriptor_bytes() {
    assert_eq!(attach_option(5, ByteOrder::Little), vec![5, 0, 0, 0]);
    assert_eq!(attach_option(5, ByteOrder::Big), vec![0, 0, 0, 5]);
    assert_eq!(attach_option(-1, ByteOrder::Little), vec![0xFF; 4]);
}
