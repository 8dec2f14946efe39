//! Tests for the correlated transport and its FIFO buffering.

use g935::error::Error;
use g935::transport::frame_correlates;
use g935::transport::Transport;

fn request() -> Vec<u8> {
    let mut frame = vec![0x11, 0xff, 0x06, 0x01];
    frame.extend(vec![0u8; 16]);
    frame
}

#[test]
fn correlation_is_first_four_bytes() {
    let req = request();
    let mut reply = vec![0x11, 0xff, 0x06, 0x01];
    reply.extend(vec![0xaa; 16]);
    assert!(frame_correlates(&req, &reply));

    let other = vec![0x11, 0xff, 0x07, 0x01, 0xaa];
    assert!(!frame_correlates(&req, &other));
    let short = vec![0x11, 0xff, 0x06];
    assert!(!frame_correlates(&req, &short));
}

#[test]
fn reply_returned_and_queue_untouched() {
    let mut transport = Transport::new();
    let req = request();
    let mut reply = vec![0x11, 0xff, 0x06, 0x01];
    reply.extend(vec![0x42; 16]);
    let r = transport.handle_read(&req, reply.clone(), false);
    assert_eq!(r, Ok(Some(reply)));
    assert_eq!(transport.buffered_len(), 0);
}

#[test]
fn uncorrelated_frame_never_returned_as_reply() {
    // A frame whose first four bytes differ from the request's must not be
    // the reply; it must appear later among the unsolicited messages.
    let mut transport = Transport::new();
    let req = request();
    let stray = vec![0x11, 0xff, 0x09, 0x00, 0x07];
    let r = transport.handle_read(&req, stray.clone(), false);
    assert_eq!(r, Ok(None));
    assert_eq!(transport.buffered_len(), 1);
    assert_eq!(transport.pop_buffered(), Some(stray));
}

#[test]
fn buffered_frames_come_back_in_arrival_order() {
    let mut transport = Transport::new();
    let req = request();
    let first = vec![0x08, 0x10];
    let second = vec![0x01, 0x02, 0x00, 0x00, 0x00];
    let third = vec![0x08, 0x01];
    assert_eq!(transport.handle_read(&req, first.clone(), false), Ok(None));
    assert_eq!(transport.handle_read(&req, second.clone(), false), Ok(None));
    assert_eq!(transport.handle_read(&req, third.clone(), false), Ok(None));
    assert_eq!(transport.buffered_len(), 3);

    assert_eq!(transport.pop_buffered(), Some(first));
    assert_eq!(transport.pop_buffered(), Some(second));
    assert_eq!(transport.pop_buffered(), Some(third));
    assert_eq!(transport.pop_buffered(), None);
}

#[test]
fn empty_read_is_no_data_not_a_message() {
    let mut transport = Transport::new();
    let req = request();
    assert_eq!(transport.handle_read(&req, Vec::new(), false), Ok(None));
    assert_eq!(transport.buffered_len(), 0);
}

#[test]
fn deadline_exceeded_times_out() {
    let mut transport = Transport::new();
    let req = request();
    assert_eq!(transport.handle_read(&req, Vec::new(), true), Err(Error::Timeout));
    // A late unsolicited frame is still preserved even on the timing-out read.
    let stray = vec![0x08, 0x20];
    assert_eq!(transport.handle_read(&req, stray.clone(), true), Err(Error::Timeout));
    assert_eq!(transport.pop_buffered(), Some(stray));
}
