//! The reactor's own state: the bound addresses, the timer with its one
//! pending wake-up, and the sockets that still have follow-up work.

use mio_extras::timer::{Builder, Timeout, Timer};
use std::time::Duration;
use vstd::prelude::*;

verus! {

/// The timer of `mio_extras`: a set of timeouts, each with the state it
/// hands out when it expires.
#[verifier::external_type_specification]
#[verifier::external_body]
#[verifier::reject_recursive_types(T)]
pub struct ExTimer<T>(Timer<T>);

/// The handle that the timer gives for a timeout it has taken.
#[verifier::external_type_specification]
#[verifier::external_body]
pub struct ExTimeout(Timeout);

/// The timeouts that a timer holds and that have neither expired through
/// `poll` nor been cancelled: the state of each, by the key of its handle.
pub uninterp spec fn timer_pending(timer: Timer<usize>) -> Map<int, usize>;

/// The key of a handle: what the timer tells its timeouts apart by.
pub uninterp spec fn timeout_key(handle: Timeout) -> int;

/// `Builder::build` of `mio_extras::timer`, on a default builder with its
/// tick set to `tick_ms` milliseconds: the new timer holds no timeout. A
/// tick of zero is left out, because the timer divides by its tick.
#[verifier::external_body]
fn timer_new(tick_ms: u64) -> (fresh: Timer<usize>)
    requires
        tick_ms > 0,
    ensures
        forall|k: int| !timer_pending(fresh).contains_key(k),
{
    Builder::default().tick_duration(Duration::from_millis(tick_ms)).build::<usize>()
}

/// `Timer::set_timeout`: the timer takes one more timeout, with `state`,
/// under a key that no timeout it holds has; the others stay.
#[verifier::external_body]
fn timer_set(timer: &mut Timer<usize>, delay_ms: u64, state: usize) -> (handle: Timeout)
    ensures
        !timer_pending(*old(timer)).contains_key(timeout_key(handle)),
        timer_pending(*final(timer)) == timer_pending(*old(timer)).insert(
            timeout_key(handle),
            state,
        ),
{
    timer.set_timeout(Duration::from_millis(delay_ms), state)
}

/// `Timer::cancel_timeout`: the timeout of this handle leaves the timer,
/// if the timer still holds it, and its state is handed back; the others
/// stay.
#[verifier::external_body]
fn timer_cancel(timer: &mut Timer<usize>, handle: &Timeout) -> (state: Option<usize>)
    ensures
        timer_pending(*final(timer)) == timer_pending(*old(timer)).remove(timeout_key(*handle)),
        state == (if timer_pending(*old(timer)).contains_key(timeout_key(*handle)) {
            Some(timer_pending(*old(timer))[timeout_key(*handle)])
        } else {
            None
        }),
{
    timer.cancel_timeout(handle)
}

/// `Timer::poll`: either one timeout that the timer holds leaves it and its
/// state is handed out, or nothing changes. Which of the two depends on
/// the clock.
#[verifier::external_body]
fn timer_poll(timer: &mut Timer<usize>) -> (state: Option<usize>)
    ensures
        match state {
            Some(s) => exists|k: int|
                #![trigger timer_pending(*old(timer)).contains_key(k)]
                timer_pending(*old(timer)).contains_key(k) && timer_pending(*old(timer))[k] == s
                    && timer_pending(*final(timer)) == timer_pending(*old(timer)).remove(k),
            None => timer_pending(*final(timer)) == timer_pending(*old(timer)),
        },
{
    timer.poll()
}

/// A socket address as plain numbers. An IPv4 address fills the low 32 bits
/// of `ip` and leaves `flowinfo` and `scope_id` at zero.
#[derive(Clone, Copy, Debug, PartialEq, Eq, Structural)]
pub struct Endpoint {
    pub v6: bool,
    pub ip: u128,
    pub port: u16,
    pub flowinfo: u32,
    pub scope_id: u32,
}

/// A datagram with the local address it leaves from and the peer it goes to.
pub struct Datagram {
    pub source: Endpoint,
    pub destination: Endpoint,
    pub data: Vec<u8>,
}

/// What the engine hands back from one round of processing.
pub enum Output {
    /// A datagram to send.
    Datagram(Datagram),
    /// A request to be processed again after this many milliseconds.
    Callback(u64),
    /// Nothing.
    Quiet,
}

/// What the caller has to carry out after one round of processing.
pub enum Action {
    /// Send the datagram from the socket with this index.
    Send { socket: usize, datagram: Datagram },
    /// Nothing.
    Idle,
}

/// The result of one round: the action, and whether the engine may have
/// more to give.
pub struct Step {
    pub active: bool,
    pub action: Action,
}

/// What becomes of one receive that did not fail.
#[derive(Clone, Copy, Debug, PartialEq, Eq, Structural)]
pub enum Received {
    /// A datagram of length zero: it is noted and dropped.
    Empty,
    /// A datagram that took up the whole receive buffer, so that a part of
    /// it may have been cut off: it is noted and dropped.
    Oversized,
    /// A datagram to hand to the engine.
    Deliver,
}

/// Why a reactor could not be made.
#[derive(Clone, Copy, Debug, PartialEq, Eq, Structural)]
pub enum StartError {
    /// There is no address to listen on.
    NoHosts,
}

/// The socket that is processed again when the pending wake-up comes: the
/// state of the timeout that the slot's handle stands for, if the timer
/// still holds it.
pub open spec fn awaited_of(pending: Map<int, usize>, slot: Option<Timeout>) -> Option<usize> {
    match slot {
        Some(handle) => if pending.contains_key(timeout_key(handle)) {
            Some(pending[timeout_key(handle)])
        } else {
            None
        },
        None => None,
    }
}

/// The index of the socket that sends from `addr`: the first one after
/// socket 0 that is bound to it, and socket 0 where there is none.
pub open spec fn socket_for(hosts: Seq<Endpoint>, addr: Endpoint, r: int) -> bool {
    &&& 0 <= r < hosts.len()
    &&& r > 0 ==> hosts[r] == addr
    &&& forall|j: int| 1 <= j < hosts.len() && (r == 0 || j < r) ==> hosts[j] != addr
}

/// The sockets with follow-up work after one more is marked: it is added at
/// the end unless it is there already.
pub open spec fn marked(active: Seq<usize>, inx: usize) -> Seq<usize> {
    if active.contains(inx) {
        active
    } else {
        active.push(inx)
    }
}

/// The reactor as mathematics.
///
/// `awaited` is the socket on whose behalf a wake-up is pending, if one is.
pub struct RunnerView {
    pub hosts: Seq<Endpoint>,
    pub awaited: Option<usize>,
    pub active: Seq<usize>,
}

/// The reactor after a request for a wake-up on behalf of `inx`.
pub open spec fn rearmed(v: RunnerView, inx: usize) -> RunnerView {
    RunnerView { hosts: v.hosts, awaited: Some(inx), active: v.active }
}

/// The outcomes that asking for an expired timeout can have: the awaited
/// socket comes out, or nothing does.
pub open spec fn may_fire(v: RunnerView, fired: Option<usize>) -> bool {
    fired is None || fired == v.awaited
}

/// The reactor after it asked for an expired timeout: once the wake-up has
/// come, none is pending.
pub open spec fn polled(v: RunnerView, fired: Option<usize>) -> RunnerView {
    if fired is Some {
        RunnerView { hosts: v.hosts, awaited: None, active: v.active }
    } else {
        v
    }
}

pub struct ServersRunner {
    hosts: Vec<Endpoint>,
    timeout: Option<Timeout>,
    active_sockets: Vec<usize>,
    timer: Timer<usize>,
}

impl View for ServersRunner {
    type V = RunnerView;

    closed spec fn view(&self) -> RunnerView {
        RunnerView {
            hosts: self.hosts@,
            awaited: awaited_of(timer_pending(self.timer), self.timeout),
            active: self.active_sockets@,
        }
    }
}

/// The length of one tick of the timer, in milliseconds.
pub const TIMER_TICK: u64 = 1;

/// The poll token of the timer. The token of a socket is its index.
pub const TIMER_TOKEN: usize = 0xffff_ffff;

/// The size of the buffer that a datagram is received into.
pub const RECEIVE_BUFFER: usize = 2048;

/// What one readiness notification asks for.
#[derive(Clone, Copy, Debug, PartialEq, Eq, Structural)]
pub enum Notified {
    /// The timer: ask it for expired timeouts.
    Timer,
    /// A socket that can be read: drain it into the engine.
    Socket(usize),
    /// A socket that cannot be read: nothing to do.
    Ignored,
}

/// Sorts a readiness notification by its token.
pub fn notified(token: usize, readable: bool) -> (n: Notified)
    ensures
        n == (if token == TIMER_TOKEN {
            Notified::Timer
        } else if readable {
            Notified::Socket(token)
        } else {
            Notified::Ignored
        }),
{
    if token == TIMER_TOKEN {
        Notified::Timer
    } else if readable {
        Notified::Socket(token)
    } else {
        Notified::Ignored
    }
}

/// Sorts a receive of `size` bytes into a buffer of `capacity` bytes.
/// Neither kind of dropped datagram is a failure: draining goes on.
pub fn received(size: usize, capacity: usize) -> (r: Received)
    ensures
        r == (if size == 0 {
            Received::Empty
        } else if size >= capacity {
            Received::Oversized
        } else {
            Received::Deliver
        }),
{
    if size == 0 {
        Received::Empty
    } else if size >= capacity {
        Received::Oversized
    } else {
        Received::Deliver
    }
}

/// Whether a send took the whole datagram. A short send is noted and not
/// tried again.
pub fn sent_whole(sent: usize, datagram: &Datagram) -> (whole: bool)
    ensures
        whole == (sent == datagram.data@.len()),
{
    sent == datagram.data.len()
}

impl ServersRunner {
    /// The timer holds no timeout but the one that the slot's handle stands
    /// for.
    pub closed spec fn single_slot(&self) -> bool {
        forall|k: int| #[trigger]
            timer_pending(self.timer).contains_key(k) ==> self.timeout is Some && timeout_key(
                self.timeout.unwrap(),
            ) == k
    }

    /// The timer that the reactor holds.
    pub closed spec fn own_timer(&self) -> Timer<usize> {
        self.timer
    }

    /// There is a socket, at most one wake-up is pending, no socket is
    /// marked twice, and every mark names a socket that exists.
    pub open spec fn wf(&self) -> bool {
        &&& self.single_slot()
        &&& self@.hosts.len() > 0
        &&& self@.active.no_duplicates()
        &&& forall|i: int| 0 <= i < self@.active.len() ==> self@.active[i] < self@.hosts.len()
    }

    /// A reactor for the sockets bound to `hosts`, in their order, with no
    /// wake-up pending and no follow-up work. Without a single address there
    /// is no reactor.
    pub fn new(hosts: Vec<Endpoint>) -> (r: Result<ServersRunner, StartError>)
        ensures
            match r {
                Ok(runner) => {
                    &&& hosts@.len() > 0
                    &&& runner.wf()
                    &&& runner@.hosts == hosts@
                    &&& runner@.awaited is None
                    &&& runner@.active == Seq::<usize>::empty()
                },
                Err(e) => hosts@.len() == 0 && e == StartError::NoHosts,
            },
    {
        if hosts.len() == 0 {
            return Err(StartError::NoHosts);
        }
        Ok(
            ServersRunner {
                hosts,
                timeout: None,
                active_sockets: Vec::new(),
                timer: timer_new(TIMER_TICK),
            },
        )
    }

    /// The number of sockets.
    pub fn socket_count(&self) -> (n: usize)
        ensures
            n == self@.hosts.len(),
    {
        self.hosts.len()
    }

    /// Whether there is a socket with this index.
    pub fn has_socket(&self, inx: usize) -> (known: bool)
        ensures
            known == (inx < self@.hosts.len()),
    {
        inx < self.hosts.len()
    }

    /// The timer, to be registered with the poll. Its timeouts are set,
    /// cancelled and polled by the reactor alone.
    pub fn timer(&self) -> (timer: &Timer<usize>)
        ensures
            *timer == self.own_timer(),
    {
        &self.timer
    }

    /// The sockets with follow-up work, in the order in which they were
    /// marked.
    pub fn active_sockets(&self) -> (list: Vec<usize>)
        ensures
            list@ == self@.active,
    {
        self.active_sockets.clone()
    }

    /// Finds the socket that sends from `addr`.
    pub fn find_socket(&self, addr: Endpoint) -> (inx: usize)
        requires
            self.wf(),
        ensures
            socket_for(self@.hosts, addr, inx as int),
    {
        let mut i: usize = 1;
        while i < self.hosts.len()
            invariant
                1 <= i,
                self.hosts@.len() > 0,
                forall|j: int| 1 <= j < i && j < self.hosts@.len() ==> self.hosts@[j] != addr,
            decreases self.hosts.len() - i,
        {
            if self.hosts[i] == addr {
                return i;
            }
            i += 1;
        }
        0
    }

    /// How long the next poll may wait: `None` for as long as it takes,
    /// and not at all while a socket has follow-up work.
    pub fn poll_wait(&self) -> (wait: Option<u64>)
        ensures
            wait == (if self@.active.len() == 0 {
                None
            } else {
                Some(0u64)
            }),
    {
        if self.active_sockets.len() == 0 {
            None
        } else {
            Some(0)
        }
    }

    /// Deals with what the engine handed back for socket `inx`.
    ///
    /// A datagram is sent from the socket bound to its source address, and
    /// the engine may have more. A request for a wake-up cancels the one
    /// that was pending, whichever socket that one was for, and sets a
    /// timeout of its own: from then on the timer holds that one alone.
    pub fn process(&mut self, inx: usize, output: Output) -> (step: Step)
        requires
            old(self).wf(),
        ensures
            final(self).wf(),
            final(self)@.hosts == old(self)@.hosts,
            final(self)@.active == old(self)@.active,
            match output {
                Output::Datagram(d) => {
                    &&& final(self)@.awaited == old(self)@.awaited
                    &&& step.active
                    &&& step.action matches Action::Send { socket, datagram }
                    &&& datagram == d
                    &&& socket_for(old(self)@.hosts, d.source, socket as int)
                },
                Output::Callback(delay) => {
                    &&& final(self)@ == rearmed(old(self)@, inx)
                    &&& !step.active
                    &&& step.action == Action::Idle
                },
                Output::Quiet => {
                    &&& final(self)@.awaited == old(self)@.awaited
                    &&& !step.active
                    &&& step.action == Action::Idle
                },
            },
    {
        match output {
            Output::Datagram(d) => {
                let socket = self.find_socket(d.source);
                Step { active: true, action: Action::Send { socket, datagram: d } }
            },
            Output::Callback(delay) => {
                let slot = self.timeout.take();
                match slot {
                    Some(handle) => {
                        let _ = timer_cancel(&mut self.timer, &handle);
                    },
                    None => {},
                }
                proof {
                    // The slot's timeout was the only one, and it is gone.
                    assert(timer_pending(self.timer) =~= Map::<int, usize>::empty());
                }
                let handle = timer_set(&mut self.timer, delay, inx);
                self.timeout = Some(handle);
                Step { active: false, action: Action::Idle }
            },
            Output::Quiet => Step { active: false, action: Action::Idle },
        }
    }

    /// Deals with what the engine handed back for socket `inx` once its
    /// events were drained: as `process` does, and a socket for which a
    /// datagram came out is marked as one with follow-up work.
    pub fn process_after_events(&mut self, inx: usize, output: Output) -> (action: Action)
        requires
            old(self).wf(),
        ensures
            final(self).wf(),
            final(self)@.hosts == old(self)@.hosts,
            match output {
                Output::Datagram(d) => {
                    &&& final(self)@.awaited == old(self)@.awaited
                    &&& final(self)@.active == (if inx < old(self)@.hosts.len() {
                        marked(old(self)@.active, inx)
                    } else {
                        old(self)@.active
                    })
                    &&& action matches Action::Send { socket, datagram }
                    &&& datagram == d
                    &&& socket_for(old(self)@.hosts, d.source, socket as int)
                },
                Output::Callback(delay) => {
                    &&& final(self)@ == rearmed(old(self)@, inx)
                    &&& action == Action::Idle
                },
                Output::Quiet => {
                    &&& final(self)@.awaited == old(self)@.awaited
                    &&& final(self)@.active == old(self)@.active
                    &&& action == Action::Idle
                },
            },
    {
        let step = self.process(inx, output);
        if step.active {
            self.mark_active(inx);
        }
        step.action
    }

    /// Marks socket `inx` as one with follow-up work. An index without a
    /// socket is passed over.
    pub fn mark_active(&mut self, inx: usize)
        requires
            old(self).wf(),
        ensures
            final(self).wf(),
            final(self)@.hosts == old(self)@.hosts,
            final(self)@.awaited == old(self)@.awaited,
            final(self)@.active == (if inx < old(self)@.hosts.len() {
                marked(old(self)@.active, inx)
            } else {
                old(self)@.active
            }),
    {
        if inx >= self.hosts.len() {
            return ;
        }
        let mut i: usize = 0;
        while i < self.active_sockets.len()
            invariant
                i <= self.active_sockets.len(),
                *self == *old(self),
                self.wf(),
                inx < self.hosts.len(),
                forall|j: int| 0 <= j < i ==> self.active_sockets@[j] != inx,
            decreases self.active_sockets.len() - i,
        {
            if self.active_sockets[i] == inx {
                return ;
            }
            i += 1;
        }
        self.active_sockets.push(inx);
    }

    /// Hands out the sockets with follow-up work, each once, and leaves
    /// none marked.
    pub fn process_active_conns(&mut self) -> (list: Vec<usize>)
        requires
            old(self).wf(),
        ensures
            final(self).wf(),
            final(self)@.hosts == old(self)@.hosts,
            final(self)@.awaited == old(self)@.awaited,
            final(self)@.active == Seq::<usize>::empty(),
            list@ == old(self)@.active,
            list@.no_duplicates(),
    {
        let mut list: Vec<usize> = Vec::new();
        list.append(&mut self.active_sockets);
        list
    }

    /// Asks the timer for an expired timeout. Only the wake-up that was
    /// pending can come out, and then none is pending any more; where
    /// nothing comes out, nothing changes. The socket that comes out is to
    /// be processed again without input.
    pub fn process_timeout(&mut self) -> (fired: Option<usize>)
        requires
            old(self).wf(),
        ensures
            final(self).wf(),
            may_fire(old(self)@, fired),
            final(self)@ == polled(old(self)@, fired),
    {
        timer_poll(&mut self.timer)
    }
}

/// Of two requests for a wake-up only the second fires: after both, the
/// one socket awaited is the second's, whatever was pending before and
/// whichever sockets the two were for. What comes out of the timer then is
/// the second's socket or nothing, and once it has come out nothing is left
/// that could.
pub proof fn lemma_second_request_wins(
    v: RunnerView,
    first: usize,
    second: usize,
    fired: Option<usize>,
    later: Option<usize>,
)
    requires
        may_fire(rearmed(rearmed(v, first), second), fired),
        may_fire(polled(rearmed(rearmed(v, first), second), fired), later),
    ensures
        rearmed(rearmed(v, first), second) == rearmed(v, second),
        fired is None || fired == Some(second),
        fired is Some ==> later is None,
        first != second ==> fired != Some(first) && later != Some(first),
{
}

} // verus!
