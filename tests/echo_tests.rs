use ssh_probe::echo::{EchoSession, Reception, Teardown};
use ssh_probe::frame::Frame;

fn echo_of(seq: u64, payload: u64) -> Vec<u8> {
    let mut f = Frame::new(payload);
    f.set_seq(seq);
    f.as_slice().to_vec()
}

#[test]
fn echo_in_order() {
    let mut s = EchoSession::new(2, 4);
    assert_eq!(s.frame_len(), 12);
    assert_eq!(s.send_next(100), Some(0));
    assert_eq!(s.frame(), echo_of(0, 4).as_slice());
    assert_eq!(s.send_next(250), Some(1));
    assert_eq!(s.frame(), echo_of(1, 4).as_slice());
    assert!(s.sender_done());
    assert_eq!(s.send_next(300), None);
    assert_eq!(s.receive(&echo_of(0, 4), 130), Reception::Matched { seq: 0, rtt: 30 });
    assert_eq!(s.receive(&echo_of(1, 4), 400), Reception::Matched { seq: 1, rtt: 150 });
    assert!(s.receiver_done());
    assert_eq!(s.samples(), &[30, 150]);
    assert_eq!(s.outstanding(), 0);
    assert_eq!(s.teardown(), Teardown::CloseInputAndWait);
}

#[test]
fn echo_out_of_order() {
    let mut s = EchoSession::new(10, 8);
    for t in 0..6u64 {
        assert_eq!(s.send_next(1000 * t), Some(t));
    }
    assert_eq!(s.outstanding(), 6);
    assert_eq!(s.receive(&echo_of(5, 8), 5_400), Reception::Matched { seq: 5, rtt: 400 });
    assert_eq!(s.receive(&echo_of(3, 8), 5_500), Reception::Matched { seq: 3, rtt: 2_500 });
    assert_eq!(s.samples(), &[400, 2_500]);
    assert_eq!(s.outstanding(), 4);
    assert_eq!(s.unexpected(), 0);
}

#[test]
fn echo_duplicate_is_unexpected() {
    let mut s = EchoSession::new(3, 4);
    s.send_next(10);
    assert_eq!(s.receive(&echo_of(0, 4), 25), Reception::Matched { seq: 0, rtt: 15 });
    assert_eq!(s.receive(&echo_of(0, 4), 40), Reception::Unexpected { seq: 0 });
    assert_eq!(s.unexpected(), 1);
    assert_eq!(s.samples(), &[15]);
    assert_eq!(s.outstanding(), 0);
}

#[test]
fn echo_never_sent_is_unexpected() {
    let mut s = EchoSession::new(3, 4);
    s.send_next(10);
    assert_eq!(s.receive(&echo_of(77, 4), 20), Reception::Unexpected { seq: 77 });
    assert_eq!(s.samples(), &[] as &[u64]);
    assert_eq!(s.outstanding(), 1);
}

#[test]
fn echo_clock_behind_send_time() {
    let mut s = EchoSession::new(1, 1);
    s.send_next(500);
    assert_eq!(s.receive(&echo_of(0, 1), 400), Reception::Matched { seq: 0, rtt: 0 });
}

#[test]
fn echo_cancel_mid_run() {
    let mut s = EchoSession::new(100, 4);
    s.send_next(0);
    s.send_next(10);
    s.receive(&echo_of(0, 4), 7);
    assert_eq!(s.cancel(), Teardown::Disconnect);
    assert!(s.sender_done());
    assert!(s.receiver_done());
    assert_eq!(s.send_next(20), None);
    assert_eq!(s.samples(), &[7]);
    assert_eq!(s.outstanding(), 1);
    assert_eq!(s.teardown(), Teardown::Disconnect);
}

#[test]
fn echo_zero_count() {
    let mut s = EchoSession::new(0, 4);
    assert!(s.sender_done());
    assert!(s.receiver_done());
    assert_eq!(s.send_next(1), None);
}
