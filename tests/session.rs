use probe_relay::bus::FanoutBus;
use probe_relay::session::{Flow, ForwardStep, Frame, Session};

#[test]
fn session_forwards_published_readings() {
    let mut bus = FanoutBus::new(10);
    let mut s = Session::open(7, &bus);
    assert_eq!(s.id(), 7);
    assert!(s.is_live());
    assert_eq!(s.forward(&bus), ForwardStep::Wait);
    bus.publish(String::from("a"));
    assert_eq!(s.forward(&bus), ForwardStep::Send(String::from("a")));
    assert_eq!(s.on_send(true), Flow::Continue);
    assert_eq!(s.forward(&bus), ForwardStep::Wait);
}

#[test]
fn send_failure_ends_only_that_session() {
    let mut bus = FanoutBus::new(10);
    let mut a = Session::open(1, &bus);
    let mut b = Session::open(2, &bus);
    bus.publish(String::from("r1"));
    assert_eq!(a.forward(&bus), ForwardStep::Send(String::from("r1")));
    assert_eq!(b.forward(&bus), ForwardStep::Send(String::from("r1")));
    assert_eq!(a.on_send(false), Flow::Stop);
    assert!(!a.is_live());
    assert_eq!(b.on_send(true), Flow::Continue);
    bus.publish(String::from("r2"));
    assert_eq!(a.forward(&bus), ForwardStep::Stop);
    assert_eq!(b.forward(&bus), ForwardStep::Send(String::from("r2")));
    assert!(b.is_live());
}

#[test]
fn lagging_session_reports_gap_and_continues() {
    let mut bus = FanoutBus::new(2);
    let mut s = Session::open(1, &bus);
    for i in 0..5 {
        bus.publish(format!("{}", i));
    }
    assert_eq!(s.forward(&bus), ForwardStep::Skipped(3));
    assert!(s.is_live());
    assert_eq!(s.forward(&bus), ForwardStep::Send(String::from("3")));
}

#[test]
fn closed_bus_ends_session() {
    let mut bus = FanoutBus::new(2);
    let mut s = Session::open(1, &bus);
    bus.close();
    assert_eq!(s.forward(&bus), ForwardStep::Stop);
    assert!(!s.is_live());
}

#[test]
fn inbound_frames_are_discarded_until_close() {
    let bus = FanoutBus::new(2);
    let mut s = Session::open(1, &bus);
    assert_eq!(s.on_frame(Frame::Text(String::from("hello"))), Flow::Continue);
    assert_eq!(s.on_frame(Frame::Binary), Flow::Continue);
    assert_eq!(s.on_frame(Frame::Ping), Flow::Continue);
    assert_eq!(s.on_frame(Frame::Pong), Flow::Continue);
    assert!(s.is_live());
    assert_eq!(s.on_frame(Frame::Close), Flow::Stop);
    assert!(!s.is_live());
}

#[test]
fn broken_read_ends_session_and_nothing_is_sent_after() {
    let mut bus = FanoutBus::new(2);
    let mut s = Session::open(1, &bus);
    assert_eq!(s.on_frame(Frame::Broken), Flow::Stop);
    bus.publish(String::from("late"));
    assert_eq!(s.forward(&bus), ForwardStep::Stop);
    assert_eq!(s.on_frame(Frame::Text(String::from("x"))), Flow::Stop);
}

#[test]
fn terminate_stops_forwarding() {
    let mut bus = FanoutBus::new(2);
    let mut s = Session::open(3, &bus);
    s.terminate();
    bus.publish(String::from("x"));
    assert_eq!(s.forward(&bus), ForwardStep::Stop);
    assert_eq!(s.on_send(true), Flow::Stop);
}
