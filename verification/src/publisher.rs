//! One channel's publisher: the chunks of each in-flight stream, and the
//! sessions that are owed every finished unit.

use std::collections::HashMap;
use vstd::prelude::*;

verus! {

broadcast use vstd::std_specs::hash::group_hash_axioms;

/// One outgoing stream owed to a subscriber: a fresh stream on `session`
/// that carries `payload` whole and is then closed for sending.
pub struct Delivery {
    pub session: u64,
    pub payload: Vec<u8>,
}

impl View for Delivery {
    type V = (u64, Seq<u8>);

    open spec fn view(&self) -> (u64, Seq<u8>) {
        (self.session, self.payload@)
    }
}

/// The deliveries of a list, each as its session and its bytes.
pub open spec fn deliveries_view(d: Seq<Delivery>) -> Seq<(u64, Seq<u8>)> {
    Seq::new(d.len(), |i: int| d[i]@)
}

/// What one chunk led to.
pub enum PublishOutcome {
    /// A chunk that is not final was added to its stream's buffer.
    Buffered,
    /// A final chunk closed its unit: one delivery per subscriber.
    Broadcast(Vec<Delivery>),
    /// A final chunk came for a stream that has no buffer. Nothing is sent
    /// and nothing changes.
    MissingBuffer,
}

/// A publisher as mathematics: the subscribers in the order in which they
/// joined, and the bytes gathered so far for each stream.
pub struct PublisherView {
    pub members: Seq<u64>,
    pub buffers: Map<u64, Seq<u8>>,
}

/// The bytes gathered so far for a stream; none where it has no buffer.
pub open spec fn pending(v: PublisherView, stream_id: u64) -> Seq<u8> {
    if v.buffers.contains_key(stream_id) {
        v.buffers[stream_id]
    } else {
        Seq::empty()
    }
}

/// One delivery per member, in the members' order, each with the whole
/// payload.
pub open spec fn fan_out(members: Seq<u64>, payload: Seq<u8>) -> Seq<(u64, Seq<u8>)> {
    Seq::new(members.len(), |i: int| (members[i], payload))
}

/// The publisher after one chunk: a chunk that is not final is appended to
/// its stream's buffer, a final one removes the buffer.
pub open spec fn ingested(v: PublisherView, stream_id: u64, chunk: Seq<u8>, fin: bool)
    -> PublisherView {
    if fin {
        PublisherView { members: v.members, buffers: v.buffers.remove(stream_id) }
    } else {
        PublisherView {
            members: v.members,
            buffers: v.buffers.insert(stream_id, pending(v, stream_id) + chunk),
        }
    }
}

/// What a final chunk on a stream sends: the buffer to every member, or
/// nothing at all where the stream has no buffer.
pub open spec fn broadcast_of(v: PublisherView, stream_id: u64) -> Option<Seq<(u64, Seq<u8>)>> {
    if v.buffers.contains_key(stream_id) {
        Some(fan_out(v.members, v.buffers[stream_id]))
    } else {
        None
    }
}

/// The members after a session has joined: it is added at the end unless it
/// is there already.
pub open spec fn joined(members: Seq<u64>, session: u64) -> Seq<u64> {
    if members.contains(session) {
        members
    } else {
        members.push(session)
    }
}

/// The members after a session has left: its one entry is taken out, the
/// others keep their order.
pub open spec fn parted(members: Seq<u64>, session: u64) -> Seq<u64> {
    if members.contains(session) {
        members.remove(members.index_of(session))
    } else {
        members
    }
}

/// The publisher after a run of chunks on one stream, none of them final.
pub open spec fn ingested_all(v: PublisherView, stream_id: u64, chunks: Seq<Seq<u8>>)
    -> PublisherView
    decreases chunks.len(),
{
    if chunks.len() == 0 {
        v
    } else {
        ingested(ingested_all(v, stream_id, chunks.drop_last()), stream_id, chunks.last(), false)
    }
}

/// The chunks of a run, joined in order.
pub open spec fn concat(chunks: Seq<Seq<u8>>) -> Seq<u8>
    decreases chunks.len(),
{
    if chunks.len() == 0 {
        Seq::empty()
    } else {
        concat(chunks.drop_last()) + chunks.last()
    }
}

pub struct Publisher {
    members: Vec<u64>,
    buf: HashMap<u64, Vec<u8>>,
}

impl View for Publisher {
    type V = PublisherView;

    closed spec fn view(&self) -> PublisherView {
        PublisherView {
            members: self.members@,
            buffers: Map::new(|k: u64| self.buf@.contains_key(k), |k: u64| self.buf@[k]@),
        }
    }
}

impl Publisher {
    /// No session is listed twice. (That a stream has at most one buffer is
    /// what a map is.)
    pub open spec fn wf(&self) -> bool {
        self@.members.no_duplicates()
    }

    /// A publisher without subscribers and without buffers.
    pub fn new() -> (p: Publisher)
        ensures
            p.wf(),
            p@.members == Seq::<u64>::empty(),
            p@.buffers == Map::<u64, Seq<u8>>::empty(),
    {
        let p = Publisher { members: Vec::new(), buf: HashMap::new() };
        proof {
            assert(p@.buffers =~= Map::<u64, Seq<u8>>::empty());
        }
        p
    }

    /// Whether a session is among the subscribers.
    pub fn is_subscribed(&self, session: u64) -> (found: bool)
        ensures
            found == self@.members.contains(session),
    {
        let mut i: usize = 0;
        while i < self.members.len()
            invariant
                i <= self.members.len(),
                forall|j: int| 0 <= j < i ==> self.members@[j] != session,
            decreases self.members.len() - i,
        {
            if self.members[i] == session {
                return true;
            }
            i += 1;
        }
        false
    }

    /// The subscribers, in the order in which they joined.
    pub fn subscribers(&self) -> (list: Vec<u64>)
        ensures
            list@ == self@.members,
    {
        self.members.clone()
    }

    /// The bytes gathered so far for a stream, where it has a buffer.
    pub fn buffered(&self, stream_id: u64) -> (bytes: Option<Vec<u8>>)
        ensures
            match bytes {
                Some(b) => self@.buffers.contains_key(stream_id) && b@ == self@.buffers[stream_id],
                None => !self@.buffers.contains_key(stream_id),
            },
    {
        match self.buf.get(&stream_id) {
            Some(b) => Some(b.clone()),
            None => None,
        }
    }

    /// Adds a session to the subscribers. A session that is one already
    /// stays where it is.
    pub fn subscribe(&mut self, session: u64)
        requires
            old(self).wf(),
        ensures
            final(self).wf(),
            final(self)@.members == joined(old(self)@.members, session),
            final(self)@.buffers == old(self)@.buffers,
    {
        if !self.is_subscribed(session) {
            self.members.push(session);
        }
    }

    /// Takes a session out of the subscribers, if it is one.
    pub fn leave(&mut self, session: u64)
        requires
            old(self).wf(),
        ensures
            final(self).wf(),
            final(self)@.members == parted(old(self)@.members, session),
            final(self)@.buffers == old(self)@.buffers,
    {
        let mut i: usize = 0;
        while i < self.members.len()
            invariant
                i <= self.members.len(),
                *self == *old(self),
                self.wf(),
                forall|j: int| 0 <= j < i ==> self.members@[j] != session,
            decreases self.members.len() - i,
        {
            if self.members[i] == session {
                let ghost before = self.members@;
                proof {
                    assert(before[i as int] == session);
                    assert(before.contains(session));
                    let k = before.index_of(session);
                    assert(before[k] == session);
                    assert(k == i);
                }
                self.members.remove(i);
                proof {
                    lemma_parted_no_duplicates(before, session);
                }
                return ;
            }
            i += 1;
        }
    }

    /// Takes in one chunk of a stream.
    ///
    /// A chunk that is not final is appended to the stream's buffer, which
    /// starts empty. A final chunk removes the buffer and owes it, whole, to
    /// every subscriber; its own bytes are not part of the unit. A final
    /// chunk for a stream without a buffer changes nothing.
    pub fn publish(&mut self, stream_id: u64, data: Vec<u8>, fin: bool) -> (outcome: PublishOutcome)
        requires
            old(self).wf(),
        ensures
            final(self).wf(),
            final(self)@ == ingested(old(self)@, stream_id, data@, fin),
            match outcome {
                PublishOutcome::Buffered => !fin,
                PublishOutcome::MissingBuffer => fin && broadcast_of(old(self)@, stream_id)
                    is None,
                PublishOutcome::Broadcast(d) => fin && broadcast_of(old(self)@, stream_id)
                    == Some(deliveries_view(d@)),
            },
    {
        let prev = self.buf.remove(&stream_id);
        if fin {
            proof {
                assert(self@.buffers =~= old(self)@.buffers.remove(stream_id));
            }
            match prev {
                None => PublishOutcome::MissingBuffer,
                Some(payload) => {
                    let mut out: Vec<Delivery> = Vec::new();
                    let mut i: usize = 0;
                    while i < self.members.len()
                        invariant
                            i <= self.members.len(),
                            out.len() == i,
                            forall|j: int|
                                0 <= j < i ==> (#[trigger] out@[j])@ == (
                                    self.members@[j],
                                    payload@,
                                ),
                        decreases self.members.len() - i,
                    {
                        let copy = payload.clone();
                        assert(copy@ =~= payload@);
                        out.push(Delivery { session: self.members[i], payload: copy });
                        i += 1;
                    }
                    proof {
                        assert(deliveries_view(out@) =~= fan_out(self.members@, payload@));
                    }
                    PublishOutcome::Broadcast(out)
                },
            }
        } else {
            let mut whole = match prev {
                Some(b) => b,
                None => Vec::new(),
            };
            let mut rest = data;
            whole.append(&mut rest);
            self.buf.insert(stream_id, whole);
            proof {
                assert(self@.buffers =~= old(self)@.buffers.insert(
                    stream_id,
                    pending(old(self)@, stream_id) + data@,
                ));
            }
            PublishOutcome::Buffered
        }
    }

    /// Discards a stream's buffer, if it has one, without sending anything.
    pub fn stop(&mut self, stream_id: u64)
        requires
            old(self).wf(),
        ensures
            final(self).wf(),
            final(self)@.members == old(self)@.members,
            final(self)@.buffers == old(self)@.buffers.remove(stream_id),
    {
        self.buf.remove(&stream_id);
        proof {
            assert(self@.buffers =~= old(self)@.buffers.remove(stream_id));
        }
    }
}

/// A list without repeats has none after a session joined, and holds then
/// that session and what it held before.
pub proof fn lemma_joined(members: Seq<u64>, session: u64)
    requires
        members.no_duplicates(),
    ensures
        joined(members, session).no_duplicates(),
        forall|s: u64| #[trigger]
            joined(members, session).contains(s) <==> (s == session || members.contains(s)),
{
    let after = joined(members, session);
    if !members.contains(session) {
        assert(after[members.len() as int] == session);
        assert forall|s: u64| #[trigger] after.contains(s) implies (s == session
            || members.contains(s)) by {
            let i = after.index_of(s);
            assert(after[i] == s);
            if i < members.len() {
                assert(members[i] == s);
            }
        }
        assert forall|s: u64| members.contains(s) implies #[trigger] after.contains(s) by {
            let i = members.index_of(s);
            assert(members[i] == s);
            assert(after[i] == s);
        }
    }
}

/// A list without repeats has none after a session left.
pub proof fn lemma_parted_no_duplicates(members: Seq<u64>, session: u64)
    requires
        members.no_duplicates(),
    ensures
        parted(members, session).no_duplicates(),
{
    if members.contains(session) {
        let k = members.index_of(session);
        let rest = members.remove(k);
        assert forall|a: int, b: int|
            0 <= a < rest.len() && 0 <= b < rest.len() && a != b implies rest[a] != rest[b] by {
            let a0 = if a < k { a } else { a + 1 };
            let b0 = if b < k { b } else { b + 1 };
            assert(rest[a] == members[a0]);
            assert(rest[b] == members[b0]);
        }
    }
}

/// A run of one or more chunks that are not final, followed by a final
/// chunk, sends to every subscriber what the stream had gathered before the
/// run and then the chunks of the run, joined in their order, as one
/// payload. The final chunk's own bytes are not part of it. Afterwards the
/// stream has no buffer and everything else is as before.
pub proof fn lemma_chunks_then_final(
    v: PublisherView,
    stream_id: u64,
    chunks: Seq<Seq<u8>>,
    last: Seq<u8>,
)
    requires
        chunks.len() > 0,
    ensures
        ingested_all(v, stream_id, chunks).members == v.members,
        ingested_all(v, stream_id, chunks).buffers == v.buffers.insert(
            stream_id,
            pending(v, stream_id) + concat(chunks),
        ),
        broadcast_of(ingested_all(v, stream_id, chunks), stream_id) == Some(
            fan_out(v.members, pending(v, stream_id) + concat(chunks)),
        ),
        ingested(ingested_all(v, stream_id, chunks), stream_id, last, true) == (PublisherView {
            members: v.members,
            buffers: v.buffers.remove(stream_id),
        }),
    decreases chunks.len(),
{
    let head = chunks.drop_last();
    let w = ingested_all(v, stream_id, head);
    let whole = pending(v, stream_id) + concat(chunks);
    if chunks.len() == 1 {
        assert(head.len() == 0);
        assert(w == v);
        assert(concat(head) =~= Seq::<u8>::empty());
        assert(concat(chunks) =~= chunks.last());
    } else {
        lemma_chunks_then_final(v, stream_id, head, last);
        assert(pending(w, stream_id) == pending(v, stream_id) + concat(head));
        assert(pending(w, stream_id) + chunks.last() =~= whole);
        assert(w.buffers.insert(stream_id, whole) =~= v.buffers.insert(stream_id, whole));
    }
    let done = ingested_all(v, stream_id, chunks);
    assert(done.buffers == v.buffers.insert(stream_id, whole));
    assert(done.buffers.remove(stream_id) =~= v.buffers.remove(stream_id));
}

/// A broadcast to N subscribers is N deliveries, one for each subscriber in
/// the subscribers' order, and each carries the whole payload.
pub proof fn lemma_fan_out_one_each(members: Seq<u64>, payload: Seq<u8>)
    ensures
        fan_out(members, payload).len() == members.len(),
        forall|i: int|
            0 <= i < members.len() ==> #[trigger] fan_out(members, payload)[i] == (
                members[i],
                payload,
            ),
{
}

/// A subscriber that leaves before a unit is finished takes its own
/// delivery with it and no other: the deliveries to the rest are the same,
/// in the same order.
pub proof fn lemma_leave_spares_the_rest(members: Seq<u64>, session: u64, payload: Seq<u8>)
    requires
        members.no_duplicates(),
    ensures
        !parted(members, session).contains(session),
        forall|other: u64|
            other != session ==> (#[trigger] parted(members, session).contains(other)
                <==> members.contains(other)),
        members.contains(session) ==> fan_out(parted(members, session), payload) == fan_out(
            members,
            payload,
        ).remove(members.index_of(session)),
        !members.contains(session) ==> fan_out(parted(members, session), payload) == fan_out(
            members,
            payload,
        ),
{
    if members.contains(session) {
        let k = members.index_of(session);
        let rest = members.remove(k);
        assert(members[k] == session);
        assert forall|j: int| 0 <= j < rest.len() implies rest[j] != session by {
            let j0 = if j < k { j } else { j + 1 };
            assert(rest[j] == members[j0]);
        }
        assert forall|other: u64| other != session implies (#[trigger] rest.contains(other)
            <==> members.contains(other)) by {
            if members.contains(other) {
                let i = members.index_of(other);
                assert(members[i] == other);
                let j = if i < k { i } else { i - 1 };
                assert(rest[j] == other);
            }
            if rest.contains(other) {
                let j = rest.index_of(other);
                assert(rest[j] == other);
                let j0 = if j < k { j } else { j + 1 };
                assert(members[j0] == other);
            }
        }
        assert(fan_out(rest, payload) =~= fan_out(members, payload).remove(k));
    }
}

/// Once a stream's buffer is discarded, a final chunk for that stream
/// sends nothing.
pub proof fn lemma_stop_then_final(v: PublisherView, stream_id: u64)
    ensures
        broadcast_of(
            PublisherView { members: v.members, buffers: v.buffers.remove(stream_id) },
            stream_id,
        ) is None,
{
}

} // verus!
