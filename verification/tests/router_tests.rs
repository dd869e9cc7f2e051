use media_relay::router::{find_path, rejection_headers};
use media_relay::role::classify;
use media_relay::{Header, MyHandler, Response, Route, SessionEvent, WebTransportServer};

fn header(name: &str, value: &str) -> Header {
    Header { name: name.to_string(), value: value.to_string() }
}

fn request(path: &str) -> Vec<Header> {
    vec![header(":method", "CONNECT"), header(":path", path), header(":scheme", "https")]
}

fn pairs(h: &[Header]) -> Vec<(String, String)> {
    h.iter().map(|x| (x.name.clone(), x.value.clone())).collect()
}

#[test]
fn path_table() {
    assert_eq!(classify(&"/video/stream".to_string()), Route::Role(MyHandler::PublishVideo));
    assert_eq!(classify(&"/video/view".to_string()), Route::Role(MyHandler::SubscribeVideo));
    assert_eq!(classify(&"/audio/stream".to_string()), Route::Role(MyHandler::PublishAudio));
    assert_eq!(classify(&"/audio/view".to_string()), Route::Role(MyHandler::SubscribeAudio));
    assert_eq!(classify(&"/chat".to_string()), Route::Passthrough);
    assert_eq!(classify(&"/foo".to_string()), Route::Unknown);
    assert_eq!(classify(&"".to_string()), Route::Unknown);
    assert_eq!(classify(&"/video/stream/".to_string()), Route::Unknown);
    assert_eq!(classify(&"/Video/View".to_string()), Route::Unknown);
}

#[test]
fn first_path_header_counts() {
    let h = vec![header("a", "b"), header(":path", "/one"), header(":path", "/two")];
    assert_eq!(find_path(&h), Some("/one".to_string()));
    assert_eq!(find_path(&vec![header("path", "/x")]), None);
    assert_eq!(find_path(&Vec::new()), None);
}

#[test]
fn rejection_carries_status_and_draft_marker() {
    let h = rejection_headers();
    assert_eq!(
        pairs(&h),
        vec![
            (":status".to_string(), "404".to_string()),
            ("sec-webtransport-http3-draft".to_string(), "draft02".to_string()),
        ]
    );
}

#[test]
fn viewer_is_subscribed_on_acceptance() {
    let mut r = WebTransportServer::new();
    assert!(matches!(r.new_session(1, &request("/video/view")), Response::Accept));
    assert!(r.video().is_subscribed(1));
    assert!(!r.audio().is_subscribed(1));
    assert_eq!(r.role_of(1), Some(MyHandler::SubscribeVideo));
}

#[test]
fn video_publisher_is_not_a_subscriber() {
    let mut r = WebTransportServer::new();
    assert!(matches!(r.new_session(1, &request("/video/stream")), Response::Accept));
    assert!(!r.video().is_subscribed(1));
    assert!(!r.audio().is_subscribed(1));
    assert_eq!(r.role_of(1), Some(MyHandler::PublishVideo));
    r.data(1, 4, vec![1], false);
    r.data(1, 4, Vec::new(), true);
    assert!(!r.video().is_subscribed(1));
}

#[test]
fn audio_roles() {
    let mut r = WebTransportServer::new();
    assert!(matches!(r.new_session(1, &request("/audio/stream")), Response::Accept));
    assert!(matches!(r.new_session(2, &request("/audio/view")), Response::Accept));
    assert_eq!(r.role_of(1), Some(MyHandler::PublishAudio));
    assert_eq!(r.role_of(2), Some(MyHandler::SubscribeAudio));
    assert_eq!(r.audio().subscribers(), vec![2]);
    assert!(r.video().subscribers().is_empty());
}

#[test]
fn chat_is_accepted_without_a_role() {
    let mut r = WebTransportServer::new();
    assert!(matches!(r.new_session(1, &request("/chat")), Response::Accept));
    assert_eq!(r.role_of(1), None);
    assert!(r.video().subscribers().is_empty());
    assert!(r.audio().subscribers().is_empty());
    assert!(matches!(r.data(1, 0, b"hello".to_vec(), false), Response::Nothing));
    assert!(matches!(r.data(1, 0, Vec::new(), true), Response::Nothing));
    assert_eq!(r.video().buffered(0), None);
    assert_eq!(r.audio().buffered(0), None);
}

#[test]
fn unknown_path_is_rejected_once_and_changes_nothing() {
    let mut r = WebTransportServer::new();
    r.new_session(5, &request("/video/view"));
    match r.new_session(1, &request("/foo")) {
        Response::Reject(h) => {
            assert_eq!(h.len(), 2);
            assert_eq!(h[0].name, ":status");
            assert_eq!(h[0].value, "404");
            assert_eq!(h[1].name, "sec-webtransport-http3-draft");
            assert_eq!(h[1].value, "draft02");
        }
        _ => panic!("the path is not in the table"),
    }
    assert_eq!(r.role_of(1), None);
    assert_eq!(r.video().subscribers(), vec![5]);
    assert!(r.audio().subscribers().is_empty());
}

#[test]
fn request_without_path_is_incomplete() {
    let mut r = WebTransportServer::new();
    let h = vec![header(":method", "CONNECT")];
    assert!(matches!(r.new_session(1, &h), Response::Incomplete));
    assert_eq!(r.role_of(1), None);
    assert!(r.video().subscribers().is_empty());
    assert!(r.audio().subscribers().is_empty());
}

#[test]
fn two_subscribers_each_get_the_whole_unit() {
    let mut r = WebTransportServer::new();
    r.process_event(SessionEvent::NewSession { session: 1, headers: request("/video/stream") });
    r.process_event(SessionEvent::NewSession { session: 2, headers: request("/video/view") });
    r.process_event(SessionEvent::NewSession { session: 3, headers: request("/video/view") });
    let a = r.process_event(SessionEvent::Data {
        session: 1,
        stream_id: 7,
        data: b"AB".to_vec(),
        fin: false,
    });
    assert!(matches!(a, Response::Nothing));
    let b = r.process_event(SessionEvent::Data {
        session: 1,
        stream_id: 7,
        data: b"CD".to_vec(),
        fin: false,
    });
    assert!(matches!(b, Response::Nothing));
    let c = r.process_event(SessionEvent::Data {
        session: 1,
        stream_id: 7,
        data: Vec::new(),
        fin: true,
    });
    match c {
        Response::Deliver(d) => {
            assert_eq!(d.len(), 2);
            assert_eq!(d[0].session, 2);
            assert_eq!(d[0].payload, b"ABCD".to_vec());
            assert_eq!(d[1].session, 3);
            assert_eq!(d[1].payload, b"ABCD".to_vec());
        }
        _ => panic!("the unit was finished"),
    }
    assert_eq!(r.video().buffered(7), None);
}

#[test]
fn audio_and_video_do_not_mix() {
    let mut r = WebTransportServer::new();
    r.new_session(1, &request("/audio/stream"));
    r.new_session(2, &request("/video/view"));
    r.new_session(3, &request("/audio/view"));
    r.data(1, 7, b"la".to_vec(), false);
    assert_eq!(r.video().buffered(7), None);
    assert_eq!(r.audio().buffered(7), Some(b"la".to_vec()));
    match r.data(1, 7, Vec::new(), true) {
        Response::Deliver(d) => {
            assert_eq!(d.len(), 1);
            assert_eq!(d[0].session, 3);
            assert_eq!(d[0].payload, b"la".to_vec());
        }
        _ => panic!("the unit was finished"),
    }
}

#[test]
fn data_from_a_subscriber_or_a_stranger_is_dropped() {
    let mut r = WebTransportServer::new();
    r.new_session(2, &request("/video/view"));
    assert!(matches!(r.data(2, 1, vec![1], false), Response::Nothing));
    assert!(matches!(r.data(2, 1, vec![1], true), Response::Nothing));
    assert!(matches!(r.data(99, 1, vec![1], false), Response::Nothing));
    assert_eq!(r.video().buffered(1), None);
    assert_eq!(r.audio().buffered(1), None);
}

#[test]
fn final_chunk_without_buffer_is_reported() {
    let mut r = WebTransportServer::new();
    r.new_session(1, &request("/video/stream"));
    r.new_session(2, &request("/video/view"));
    assert!(matches!(r.data(1, 7, Vec::new(), true), Response::MissingBuffer));
}

#[test]
fn closing_a_publisher_discards_its_buffer() {
    let mut r = WebTransportServer::new();
    r.new_session(1, &request("/video/stream"));
    r.new_session(2, &request("/video/view"));
    r.data(1, 7, b"half".to_vec(), false);
    let closed = r.process_event(SessionEvent::SessionClosed { session: 1, stream_id: 7 });
    assert!(matches!(closed, Response::Nothing));
    assert_eq!(r.video().buffered(7), None);
    assert_eq!(r.role_of(1), None);
    assert!(matches!(r.data(1, 7, Vec::new(), true), Response::Nothing));
    r.new_session(3, &request("/video/stream"));
    assert!(matches!(r.data(3, 7, Vec::new(), true), Response::MissingBuffer));
    assert_eq!(r.video().subscribers(), vec![2]);
}

#[test]
fn closing_a_subscriber_takes_it_out_of_its_channel() {
    let mut r = WebTransportServer::new();
    r.new_session(1, &request("/video/stream"));
    r.new_session(2, &request("/video/view"));
    r.new_session(3, &request("/video/view"));
    r.data(1, 7, b"xy".to_vec(), false);
    r.session_closed(2, 0);
    assert_eq!(r.role_of(2), None);
    assert_eq!(r.video().subscribers(), vec![3]);
    assert_eq!(r.video().buffered(7), Some(b"xy".to_vec()));
    match r.data(1, 7, Vec::new(), true) {
        Response::Deliver(d) => {
            assert_eq!(d.len(), 1);
            assert_eq!(d[0].session, 3);
            assert_eq!(d[0].payload, b"xy".to_vec());
        }
        _ => panic!("the unit was finished"),
    }
}

#[test]
fn closing_an_unknown_session_changes_nothing() {
    let mut r = WebTransportServer::new();
    r.new_session(1, &request("/audio/stream"));
    r.new_session(2, &request("/audio/view"));
    r.data(1, 7, vec![1], false);
    r.session_closed(9, 7);
    assert_eq!(r.audio().buffered(7), Some(vec![1]));
    assert_eq!(r.audio().subscribers(), vec![2]);
    assert_eq!(r.role_of(1), Some(MyHandler::PublishAudio));
}

#[test]
fn other_events_are_ignored() {
    let mut r = WebTransportServer::new();
    r.new_session(2, &request("/video/view"));
    assert!(matches!(r.process_event(SessionEvent::NewStream), Response::Nothing));
    assert!(matches!(r.process_event(SessionEvent::Other), Response::Nothing));
    assert_eq!(r.video().subscribers(), vec![2]);
    assert_eq!(r.role_of(2), Some(MyHandler::SubscribeVideo));
}
