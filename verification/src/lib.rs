//! The decision core of a real-time media relay.
//!
//! Sessions are classified by their requested path into publishers and
//! subscribers of a video or an audio channel. A publisher's chunks are
//! buffered per stream until the stream is finalized; the finished unit is
//! then owed, whole, to every subscriber of the channel. A small reactor
//! state keeps the bound addresses, the timer with its single pending
//! wake-up and the sockets that still have follow-up work.
//!
//! Nothing here touches a socket or the protocol engine: the functions
//! decide, and the caller carries the actions out.

pub mod publisher;
pub mod reactor;
pub mod role;
pub mod router;

pub use publisher::{Delivery, PublishOutcome, Publisher};
pub use reactor::{
    Action, Datagram, Endpoint, Notified, Output, Received, ServersRunner, StartError, Step,
};
pub use role::{MyHandler, Route};
pub use router::{Header, Response, SessionEvent, WebTransportServer};
