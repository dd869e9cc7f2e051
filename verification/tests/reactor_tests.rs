use media_relay::reactor::{notified, received, sent_whole, RECEIVE_BUFFER, TIMER_TOKEN};
use media_relay::{
    Action, Datagram, Endpoint, Notified, Output, Received, ServersRunner, StartError,
};

fn v4(last: u8, port: u16) -> Endpoint {
    Endpoint { v6: false, ip: 0x7f00_0000 + last as u128, port, flowinfo: 0, scope_id: 0 }
}

fn runner(n: u8) -> ServersRunner {
    let hosts: Vec<Endpoint> = (0..n).map(|i| v4(i + 1, 4433)).collect();
    match ServersRunner::new(hosts) {
        Ok(r) => r,
        Err(_) => panic!("there are hosts"),
    }
}

/// Asks for expired timeouts until one comes out, and gives up after a
/// great many tries.
fn next_fired(r: &mut ServersRunner) -> Option<usize> {
    let mut tries: u64 = 0;
    while tries < 400_000_000 {
        if let Some(inx) = r.process_timeout() {
            return Some(inx);
        }
        tries += 1;
    }
    None
}

/// Asks for expired timeouts many more times and lists what came out.
fn stragglers(r: &mut ServersRunner) -> Vec<usize> {
    let mut fired = Vec::new();
    let mut tries: u64 = 0;
    while tries < 2_000_000 {
        if let Some(inx) = r.process_timeout() {
            fired.push(inx);
        }
        tries += 1;
    }
    fired
}

fn dgram(source: Endpoint, data: Vec<u8>) -> Datagram {
    Datagram { source, destination: v4(200, 999), data }
}

#[test]
fn no_hosts_no_reactor() {
    assert!(matches!(ServersRunner::new(Vec::new()), Err(StartError::NoHosts)));
}

#[test]
fn new_reactor_is_idle() {
    let r = runner(3);
    assert_eq!(r.socket_count(), 3);
    assert!(r.active_sockets().is_empty());
    assert_eq!(r.poll_wait(), None);
    assert!(r.has_socket(2));
    assert!(!r.has_socket(3));
}

#[test]
fn socket_is_found_by_its_address() {
    let r = runner(3);
    assert_eq!(r.find_socket(v4(1, 4433)), 0);
    assert_eq!(r.find_socket(v4(2, 4433)), 1);
    assert_eq!(r.find_socket(v4(3, 4433)), 2);
}

#[test]
fn unknown_address_falls_back_to_the_first_socket() {
    let r = runner(3);
    assert_eq!(r.find_socket(v4(9, 4433)), 0);
    assert_eq!(r.find_socket(v4(2, 4434)), 0);
    let other = Endpoint { v6: true, ip: 0x7f00_0002, port: 4433, flowinfo: 0, scope_id: 0 };
    assert_eq!(r.find_socket(other), 0);
}

#[test]
fn datagram_is_sent_from_its_source_socket() {
    let mut r = runner(3);
    let step = r.process(0, Output::Datagram(dgram(v4(3, 4433), vec![1, 2, 3])));
    assert!(step.active);
    match step.action {
        Action::Send { socket, datagram } => {
            assert_eq!(socket, 2);
            assert_eq!(datagram.data, vec![1, 2, 3]);
            assert_eq!(datagram.source, v4(3, 4433));
            assert_eq!(datagram.destination, v4(200, 999));
        }
        _ => panic!("a datagram came out"),
    }
    assert!(r.active_sockets().is_empty());
}

#[test]
fn quiet_output_does_nothing() {
    let mut r = runner(2);
    let step = r.process(1, Output::Quiet);
    assert!(!step.active);
    assert!(matches!(step.action, Action::Idle));
}

#[test]
fn idle_timer_never_fires() {
    let mut r = runner(2);
    assert!(stragglers(&mut r).is_empty());
}

#[test]
fn callback_arms_the_timer() {
    let mut r = runner(2);
    let step = r.process(1, Output::Callback(5));
    assert!(!step.active);
    assert!(matches!(step.action, Action::Idle));
    assert_eq!(next_fired(&mut r), Some(1));
    assert!(stragglers(&mut r).is_empty());
}

#[test]
fn only_the_second_of_two_requests_fires() {
    let mut r = runner(3);
    r.process(1, Output::Callback(1));
    r.process(2, Output::Callback(20));
    assert_eq!(next_fired(&mut r), Some(2));
    assert!(stragglers(&mut r).is_empty());
}

#[test]
fn second_request_for_the_same_socket_replaces_the_first() {
    let mut r = runner(1);
    r.process(0, Output::Callback(3));
    r.process(0, Output::Callback(1));
    assert_eq!(next_fired(&mut r), Some(0));
    assert!(stragglers(&mut r).is_empty());
}

#[test]
fn request_after_a_wake_up_fires_again() {
    let mut r = runner(2);
    r.process(0, Output::Callback(2));
    assert_eq!(next_fired(&mut r), Some(0));
    r.process(1, Output::Callback(2));
    assert_eq!(next_fired(&mut r), Some(1));
    assert!(stragglers(&mut r).is_empty());
}

#[test]
fn datagram_leaves_the_pending_wake_up_alone() {
    let mut r = runner(2);
    r.process(1, Output::Callback(5));
    r.process(0, Output::Datagram(dgram(v4(1, 4433), vec![1])));
    r.process(0, Output::Quiet);
    assert_eq!(next_fired(&mut r), Some(1));
    assert!(stragglers(&mut r).is_empty());
}

#[test]
fn active_sockets_are_handed_out_once_each() {
    let mut r = runner(3);
    r.mark_active(2);
    r.mark_active(0);
    r.mark_active(2);
    assert_eq!(r.active_sockets(), vec![2, 0]);
    assert_eq!(r.poll_wait(), Some(0));
    assert_eq!(r.process_active_conns(), vec![2, 0]);
    assert!(r.active_sockets().is_empty());
    assert_eq!(r.poll_wait(), None);
    assert!(r.process_active_conns().is_empty());
}

#[test]
fn index_without_socket_is_not_marked() {
    let mut r = runner(2);
    r.mark_active(2);
    r.mark_active(usize::MAX);
    assert!(r.active_sockets().is_empty());
}

#[test]
fn datagram_after_events_marks_the_socket() {
    let mut r = runner(2);
    let a = r.process_after_events(1, Output::Datagram(dgram(v4(2, 4433), vec![9])));
    assert!(matches!(a, Action::Send { socket: 1, .. }));
    assert_eq!(r.active_sockets(), vec![1]);
    let b = r.process_after_events(0, Output::Quiet);
    assert!(matches!(b, Action::Idle));
    let c = r.process_after_events(0, Output::Callback(4));
    assert!(matches!(c, Action::Idle));
    assert_eq!(r.active_sockets(), vec![1]);
    assert_eq!(next_fired(&mut r), Some(0));
}

#[test]
fn receives_are_sorted() {
    assert_eq!(received(0, 2048), Received::Empty);
    assert_eq!(received(1, 2048), Received::Deliver);
    assert_eq!(received(2047, 2048), Received::Deliver);
    assert_eq!(received(2048, 2048), Received::Oversized);
    assert_eq!(received(0, 0), Received::Empty);
}

#[test]
fn short_send_is_noticed() {
    let d = dgram(v4(1, 1), vec![1, 2, 3]);
    assert!(sent_whole(3, &d));
    assert!(!sent_whole(2, &d));
    assert!(!sent_whole(0, &d));
}

#[test]
fn notifications_are_sorted_by_token() {
    assert_eq!(TIMER_TOKEN, 0xffff_ffff);
    assert_eq!(notified(TIMER_TOKEN, true), Notified::Timer);
    assert_eq!(notified(TIMER_TOKEN, false), Notified::Timer);
    assert_eq!(notified(0, true), Notified::Socket(0));
    assert_eq!(notified(3, true), Notified::Socket(3));
    assert_eq!(notified(3, false), Notified::Ignored);
}

#[test]
fn receive_buffer_holds_2048_bytes() {
    assert_eq!(RECEIVE_BUFFER, 2048);
    assert_eq!(received(RECEIVE_BUFFER, RECEIVE_BUFFER), Received::Oversized);
    assert_eq!(received(RECEIVE_BUFFER - 1, RECEIVE_BUFFER), Received::Deliver);
}
