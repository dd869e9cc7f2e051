//! The session router: it gives each new session its role by the path it
//! asked for, hands a publisher's chunks to its channel, and cleans up when
//! a session closes.

use crate::publisher::{
    broadcast_of, deliveries_view, ingested, joined, lemma_joined, lemma_leave_spares_the_rest,
    lemma_parted_no_duplicates, parted, Delivery, PublishOutcome, Publisher, PublisherView,
};
use crate::role::{classify, lemma_route_table, route_of, MyHandler, Route};
use std::collections::HashMap;
use vstd::prelude::*;
use vstd::string::StringExecFns;

verus! {

broadcast use vstd::std_specs::hash::group_hash_axioms;

/// One key/value pair of a request's metadata.
pub struct Header {
    pub name: String,
    pub value: String,
}

impl View for Header {
    type V = (Seq<char>, Seq<char>);

    open spec fn view(&self) -> (Seq<char>, Seq<char>) {
        (self.name@, self.value@)
    }
}

/// The headers of a list, each as its name and its value.
pub open spec fn headers_view(h: Seq<Header>) -> Seq<(Seq<char>, Seq<char>)> {
    Seq::new(h.len(), |i: int| h[i]@)
}

/// The value of the first header named `:path` at or after position `i`.
pub open spec fn path_from(h: Seq<(Seq<char>, Seq<char>)>, i: int) -> Option<Seq<char>>
    decreases h.len() - i,
{
    if i < 0 || i >= h.len() {
        None
    } else if h[i].0 == ":path"@ {
        Some(h[i].1)
    } else {
        path_from(h, i + 1)
    }
}

/// The path a request asks for: the value of its first `:path` header.
pub open spec fn requested_path(h: Seq<(Seq<char>, Seq<char>)>) -> Option<Seq<char>> {
    path_from(h, 0)
}

/// The headers of the answer to a path that is not in the table: a 404
/// status and the marker of the protocol draft.
pub open spec fn rejection() -> Seq<(Seq<char>, Seq<char>)> {
    seq![(":status"@, "404"@), ("sec-webtransport-http3-draft"@, "draft02"@)]
}

/// What the engine reports.
pub enum SessionEvent {
    /// A peer asks for a session, with its request's metadata.
    NewSession { session: u64, headers: Vec<Header> },
    /// A peer opened a stream. Buffers are made when data comes, so there
    /// is nothing to do.
    NewStream,
    /// A session ended; `stream_id` is the stream the session itself ran on.
    SessionClosed { session: u64, stream_id: u64 },
    /// Bytes came in on a stream of a session.
    Data { session: u64, stream_id: u64, data: Vec<u8>, fin: bool },
    /// Any other event.
    Other,
}

/// What the engine is asked to do in answer to an event.
pub enum Response {
    /// Accept the session.
    Accept,
    /// Answer the request with these headers instead of accepting it.
    Reject(Vec<Header>),
    /// Cancel the request as incomplete: it named no path.
    Incomplete,
    /// Open one fresh outgoing stream per delivery, write the payload, close
    /// the sending side.
    Deliver(Vec<Delivery>),
    /// A final chunk came for a stream without a buffer: a fault of that
    /// stream alone, to be noted.
    MissingBuffer,
    /// Nothing.
    Nothing,
}

/// An event as mathematics.
pub enum EventView {
    NewSession { session: u64, headers: Seq<(Seq<char>, Seq<char>)> },
    NewStream,
    SessionClosed { session: u64, stream_id: u64 },
    Data { session: u64, stream_id: u64, data: Seq<u8>, fin: bool },
    Other,
}

/// A response as mathematics.
pub enum ResponseView {
    Accept,
    Reject(Seq<(Seq<char>, Seq<char>)>),
    Incomplete,
    Deliver(Seq<(u64, Seq<u8>)>),
    MissingBuffer,
    Nothing,
}

impl View for SessionEvent {
    type V = EventView;

    open spec fn view(&self) -> EventView {
        match *self {
            SessionEvent::NewSession { session, headers } => EventView::NewSession {
                session,
                headers: headers_view(headers@),
            },
            SessionEvent::NewStream => EventView::NewStream,
            SessionEvent::SessionClosed { session, stream_id } => EventView::SessionClosed {
                session,
                stream_id,
            },
            SessionEvent::Data { session, stream_id, data, fin } => EventView::Data {
                session,
                stream_id,
                data: data@,
                fin,
            },
            SessionEvent::Other => EventView::Other,
        }
    }
}

impl View for Response {
    type V = ResponseView;

    open spec fn view(&self) -> ResponseView {
        match *self {
            Response::Accept => ResponseView::Accept,
            Response::Reject(h) => ResponseView::Reject(headers_view(h@)),
            Response::Incomplete => ResponseView::Incomplete,
            Response::Deliver(d) => ResponseView::Deliver(deliveries_view(d@)),
            Response::MissingBuffer => ResponseView::MissingBuffer,
            Response::Nothing => ResponseView::Nothing,
        }
    }
}

/// The router as mathematics: the role of each session that has one, and
/// the two channels.
pub struct RouterView {
    pub roles: Map<u64, MyHandler>,
    pub video: PublisherView,
    pub audio: PublisherView,
}

/// A channel with one more subscriber.
pub open spec fn with_member(p: PublisherView, session: u64) -> PublisherView {
    PublisherView { members: joined(p.members, session), buffers: p.buffers }
}

/// A channel with one subscriber less.
pub open spec fn without_member(p: PublisherView, session: u64) -> PublisherView {
    PublisherView { members: parted(p.members, session), buffers: p.buffers }
}

/// A channel with one buffer less.
pub open spec fn without_buffer(p: PublisherView, stream_id: u64) -> PublisherView {
    PublisherView { members: p.members, buffers: p.buffers.remove(stream_id) }
}

/// The router after a session was routed: a role is written down, a
/// subscriber joins its channel at once, and nothing else changes.
pub open spec fn routed(v: RouterView, session: u64, route: Route) -> RouterView {
    match route {
        Route::Role(MyHandler::PublishVideo) => RouterView {
            roles: v.roles.insert(session, MyHandler::PublishVideo),
            video: v.video,
            audio: v.audio,
        },
        Route::Role(MyHandler::SubscribeVideo) => RouterView {
            roles: v.roles.insert(session, MyHandler::SubscribeVideo),
            video: with_member(v.video, session),
            audio: v.audio,
        },
        Route::Role(MyHandler::PublishAudio) => RouterView {
            roles: v.roles.insert(session, MyHandler::PublishAudio),
            video: v.video,
            audio: v.audio,
        },
        Route::Role(MyHandler::SubscribeAudio) => RouterView {
            roles: v.roles.insert(session, MyHandler::SubscribeAudio),
            video: v.video,
            audio: with_member(v.audio, session),
        },
        Route::Passthrough => v,
        Route::Unknown => v,
    }
}

/// The router after a session closed: a publisher's buffer on the session's
/// stream is dropped, a subscriber leaves its channel, and the session's
/// role is forgotten in every case.
pub open spec fn closed(v: RouterView, session: u64, stream_id: u64) -> RouterView {
    let roles = v.roles.remove(session);
    if !v.roles.contains_key(session) {
        RouterView { roles, video: v.video, audio: v.audio }
    } else {
        match v.roles[session] {
            MyHandler::PublishVideo => RouterView {
                roles,
                video: without_buffer(v.video, stream_id),
                audio: v.audio,
            },
            MyHandler::PublishAudio => RouterView {
                roles,
                video: v.video,
                audio: without_buffer(v.audio, stream_id),
            },
            MyHandler::SubscribeVideo => RouterView {
                roles,
                video: without_member(v.video, session),
                audio: v.audio,
            },
            MyHandler::SubscribeAudio => RouterView {
                roles,
                video: v.video,
                audio: without_member(v.audio, session),
            },
        }
    }
}

/// The router after one event.
pub open spec fn stepped(v: RouterView, e: EventView) -> RouterView {
    match e {
        EventView::NewSession { session, headers } => match requested_path(headers) {
            Some(path) => routed(v, session, route_of(path)),
            None => v,
        },
        EventView::SessionClosed { session, stream_id } => closed(v, session, stream_id),
        EventView::Data { session, stream_id, data, fin } => {
            if v.roles.contains_key(session) && v.roles[session] == MyHandler::PublishVideo {
                RouterView {
                    roles: v.roles,
                    video: ingested(v.video, stream_id, data, fin),
                    audio: v.audio,
                }
            } else if v.roles.contains_key(session) && v.roles[session]
                == MyHandler::PublishAudio {
                RouterView {
                    roles: v.roles,
                    video: v.video,
                    audio: ingested(v.audio, stream_id, data, fin),
                }
            } else {
                v
            }
        },
        EventView::NewStream => v,
        EventView::Other => v,
    }
}

/// What a final chunk on a channel is answered with.
pub open spec fn finished(p: PublisherView, stream_id: u64) -> ResponseView {
    match broadcast_of(p, stream_id) {
        Some(d) => ResponseView::Deliver(d),
        None => ResponseView::MissingBuffer,
    }
}

/// The answer to one event.
pub open spec fn answered(v: RouterView, e: EventView) -> ResponseView {
    match e {
        EventView::NewSession { session, headers } => match requested_path(headers) {
            Some(path) => if route_of(path) == Route::Unknown {
                ResponseView::Reject(rejection())
            } else {
                ResponseView::Accept
            },
            None => ResponseView::Incomplete,
        },
        EventView::Data { session, stream_id, data, fin } => {
            if !fin || !v.roles.contains_key(session) {
                ResponseView::Nothing
            } else if v.roles[session] == MyHandler::PublishVideo {
                finished(v.video, stream_id)
            } else if v.roles[session] == MyHandler::PublishAudio {
                finished(v.audio, stream_id)
            } else {
                ResponseView::Nothing
            }
        },
        EventView::SessionClosed { session, stream_id } => ResponseView::Nothing,
        EventView::NewStream => ResponseView::Nothing,
        EventView::Other => ResponseView::Nothing,
    }
}

/// Finds the value of the first header named `:path`.
pub fn find_path(headers: &Vec<Header>) -> (path: Option<String>)
    ensures
        match path {
            Some(p) => requested_path(headers_view(headers@)) == Some(p@),
            None => requested_path(headers_view(headers@)) is None,
        },
{
    let key = String::from_str(":path");
    let ghost h = headers_view(headers@);
    let mut i: usize = 0;
    while i < headers.len()
        invariant
            i <= headers.len(),
            key@ == ":path"@,
            h == headers_view(headers@),
            path_from(h, 0) == path_from(h, i as int),
        decreases headers.len() - i,
    {
        assert(h[i as int] == headers@[i as int]@);
        if headers[i].name == key {
            return Some(headers[i].value.clone());
        }
        i += 1;
    }
    None
}

/// The headers that answer a path outside the table.
pub fn rejection_headers() -> (h: Vec<Header>)
    ensures
        headers_view(h@) == rejection(),
{
    let mut h: Vec<Header> = Vec::new();
    h.push(Header { name: String::from_str(":status"), value: String::from_str("404") });
    h.push(
        Header {
            name: String::from_str("sec-webtransport-http3-draft"),
            value: String::from_str("draft02"),
        },
    );
    proof {
        assert(headers_view(h@) =~= rejection());
    }
    h
}

pub struct WebTransportServer {
    handler: HashMap<u64, MyHandler>,
    video_publisher: Publisher,
    audio_publisher: Publisher,
}

impl View for WebTransportServer {
    type V = RouterView;

    closed spec fn view(&self) -> RouterView {
        RouterView {
            roles: self.handler@,
            video: self.video_publisher@,
            audio: self.audio_publisher@,
        }
    }
}

impl WebTransportServer {
    /// In neither channel is a session listed twice.
    pub open spec fn wf(&self) -> bool {
        self@.video.members.no_duplicates() && self@.audio.members.no_duplicates()
    }

    /// A router that knows no session, with two empty channels.
    pub fn new() -> (s: WebTransportServer)
        ensures
            s.wf(),
            s@.roles == Map::<u64, MyHandler>::empty(),
            s@.video.members == Seq::<u64>::empty(),
            s@.video.buffers == Map::<u64, Seq<u8>>::empty(),
            s@.audio.members == Seq::<u64>::empty(),
            s@.audio.buffers == Map::<u64, Seq<u8>>::empty(),
    {
        WebTransportServer {
            handler: HashMap::new(),
            video_publisher: Publisher::new(),
            audio_publisher: Publisher::new(),
        }
    }

    /// The role of a session, where it has one.
    pub fn role_of(&self, session: u64) -> (role: Option<MyHandler>)
        ensures
            match role {
                Some(r) => self@.roles.contains_key(session) && self@.roles[session] == r,
                None => !self@.roles.contains_key(session),
            },
    {
        match self.handler.get(&session) {
            Some(r) => Some(*r),
            None => None,
        }
    }

    /// The video channel.
    pub fn video(&self) -> (p: &Publisher)
        ensures
            p@ == self@.video,
    {
        &self.video_publisher
    }

    /// The audio channel.
    pub fn audio(&self) -> (p: &Publisher)
        ensures
            p@ == self@.audio,
    {
        &self.audio_publisher
    }

    /// Routes a new session by the path its request names.
    ///
    /// A request without a path is cancelled as incomplete; a path outside
    /// the table is answered with the rejection headers; both leave the
    /// router as it was. Any other session is accepted, and a subscriber is
    /// in its channel before this returns.
    pub fn new_session(&mut self, session: u64, headers: &Vec<Header>) -> (response: Response)
        requires
            old(self).wf(),
        ensures
            final(self).wf(),
            final(self)@ == stepped(
                old(self)@,
                EventView::NewSession { session, headers: headers_view(headers@) },
            ),
            response@ == answered(
                old(self)@,
                EventView::NewSession { session, headers: headers_view(headers@) },
            ),
    {
        match find_path(headers) {
            None => Response::Incomplete,
            Some(path) => match classify(&path) {
                Route::Role(role) => {
                    self.handler.insert(session, role);
                    match role {
                        MyHandler::SubscribeVideo => self.video_publisher.subscribe(session),
                        MyHandler::SubscribeAudio => self.audio_publisher.subscribe(session),
                        MyHandler::PublishVideo => {},
                        MyHandler::PublishAudio => {},
                    }
                    Response::Accept
                },
                Route::Passthrough => Response::Accept,
                Route::Unknown => Response::Reject(rejection_headers()),
            },
        }
    }

    /// Cleans up after a session that closed.
    pub fn session_closed(&mut self, session: u64, stream_id: u64)
        requires
            old(self).wf(),
        ensures
            final(self).wf(),
            final(self)@ == closed(old(self)@, session, stream_id),
    {
        match self.handler.remove(&session) {
            Some(MyHandler::PublishVideo) => self.video_publisher.stop(stream_id),
            Some(MyHandler::PublishAudio) => self.audio_publisher.stop(stream_id),
            Some(MyHandler::SubscribeVideo) => self.video_publisher.leave(session),
            Some(MyHandler::SubscribeAudio) => self.audio_publisher.leave(session),
            None => {},
        }
    }

    /// Hands a chunk to the channel its session publishes on. A chunk from
    /// a session that publishes nothing is dropped.
    pub fn data(&mut self, session: u64, stream_id: u64, data: Vec<u8>, fin: bool) -> (response:
        Response)
        requires
            old(self).wf(),
        ensures
            final(self).wf(),
            final(self)@ == stepped(
                old(self)@,
                EventView::Data { session, stream_id, data: data@, fin },
            ),
            response@ == answered(
                old(self)@,
                EventView::Data { session, stream_id, data: data@, fin },
            ),
    {
        let outcome = match self.role_of(session) {
            Some(MyHandler::PublishVideo) => self.video_publisher.publish(stream_id, data, fin),
            Some(MyHandler::PublishAudio) => self.audio_publisher.publish(stream_id, data, fin),
            _ => {
                return Response::Nothing;
            },
        };
        match outcome {
            PublishOutcome::Buffered => Response::Nothing,
            PublishOutcome::Broadcast(d) => Response::Deliver(d),
            PublishOutcome::MissingBuffer => Response::MissingBuffer,
        }
    }

    /// Takes one event of the engine and says what to answer.
    pub fn process_event(&mut self, event: SessionEvent) -> (response: Response)
        requires
            old(self).wf(),
        ensures
            final(self).wf(),
            final(self)@ == stepped(old(self)@, event@),
            response@ == answered(old(self)@, event@),
    {
        match event {
            SessionEvent::NewSession { session, headers } => self.new_session(session, &headers),
            SessionEvent::SessionClosed { session, stream_id } => {
                self.session_closed(session, stream_id);
                Response::Nothing
            },
            SessionEvent::Data { session, stream_id, data, fin } => self.data(
                session,
                stream_id,
                data,
                fin,
            ),
            SessionEvent::NewStream => Response::Nothing,
            SessionEvent::Other => Response::Nothing,
        }
    }
}

/// Every subscriber of a channel holds the subscriber role of that
/// channel, and no channel lists a session twice.
pub open spec fn consistent(v: RouterView) -> bool {
    &&& v.video.members.no_duplicates()
    &&& v.audio.members.no_duplicates()
    &&& forall|s: u64| #[trigger]
        v.video.members.contains(s) ==> v.roles.contains_key(s) && v.roles[s]
            == MyHandler::SubscribeVideo
    &&& forall|s: u64| #[trigger]
        v.audio.members.contains(s) ==> v.roles.contains_key(s) && v.roles[s]
            == MyHandler::SubscribeAudio
}

/// A session that asks for `/video/view` is a video subscriber as soon as
/// it is accepted, before any data; one that asks for `/video/stream`
/// leaves the video subscribers as they were.
pub proof fn lemma_viewer_joins_at_once(
    v: RouterView,
    session: u64,
    headers: Seq<(Seq<char>, Seq<char>)>,
)
    ensures
        requested_path(headers) == Some("/video/view"@) ==> stepped(
            v,
            EventView::NewSession { session, headers },
        ).video.members.contains(session),
        requested_path(headers) == Some("/video/stream"@) ==> stepped(
            v,
            EventView::NewSession { session, headers },
        ).video == v.video,
{
    lemma_route_table();
    let m = v.video.members;
    if !m.contains(session) {
        assert(m.push(session)[m.len() as int] == session);
    }
}

/// Where every new session is one that has no role yet, the channels and
/// the roles stay in step through every event. So a session that publishes
/// video is never among the video subscribers.
pub proof fn lemma_step_keeps_consistent(v: RouterView, e: EventView)
    requires
        consistent(v),
        e matches EventView::NewSession { session, .. } ==> !v.roles.contains_key(session),
    ensures
        consistent(stepped(v, e)),
        forall|s: u64|
            v.roles.contains_key(s) && v.roles[s] == MyHandler::PublishVideo
                ==> !#[trigger] v.video.members.contains(s),
{
    let w = stepped(v, e);
    match e {
        EventView::NewSession { session, headers } => {
            lemma_joined(v.video.members, session);
            lemma_joined(v.audio.members, session);
        },
        EventView::SessionClosed { session, stream_id } => {
            lemma_leave_spares_the_rest(v.video.members, session, seq![]);
            lemma_leave_spares_the_rest(v.audio.members, session, seq![]);
            lemma_parted_no_duplicates(v.video.members, session);
            lemma_parted_no_duplicates(v.audio.members, session);
        },
        _ => {},
    }
}

/// When a publishing session closes, the buffer on its stream is dropped
/// and nothing is sent. A final chunk that comes afterwards for the same
/// stream is not broadcast: from the closed session it is answered with
/// nothing, and on the channel the stream has no buffer.
pub proof fn lemma_close_then_final(v: RouterView, session: u64, stream_id: u64, chunk: Seq<u8>)
    requires
        v.roles.contains_key(session),
        v.roles[session] == MyHandler::PublishVideo || v.roles[session]
            == MyHandler::PublishAudio,
    ensures
        answered(v, EventView::SessionClosed { session, stream_id }) == ResponseView::Nothing,
        answered(
            closed(v, session, stream_id),
            EventView::Data { session, stream_id, data: chunk, fin: true },
        ) == ResponseView::Nothing,
        v.roles[session] == MyHandler::PublishVideo ==> finished(
            closed(v, session, stream_id).video,
            stream_id,
        ) == ResponseView::MissingBuffer,
        v.roles[session] == MyHandler::PublishAudio ==> finished(
            closed(v, session, stream_id).audio,
            stream_id,
        ) == ResponseView::MissingBuffer,
{
}

} // verus!
