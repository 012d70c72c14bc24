//! One connected client: its private subscriber handle, a liveness mark,
//! and the decisions of its forward and inbound activities.

use crate::bus::{BusView, FanoutBus, Received, Subscriber};
use vstd::prelude::*;

verus! {

/// What the forward activity is to do next.
#[derive(Debug, PartialEq, Eq)]
pub enum ForwardStep {
    /// Send this text as one frame to the client.
    Send(String),
    /// This many readings were skipped; report it and go on.
    Skipped(u64),
    /// Nothing new yet: wait for the next publish.
    Wait,
    /// The session is over.
    Stop,
}

/// A frame read from the client.
pub enum Frame {
    Text(String),
    Binary,
    Ping,
    Pong,
    Close,
    /// The read failed or the stream ended.
    Broken,
}

/// Whether an activity goes on after an event.
#[derive(Debug, Clone, Copy, PartialEq, Eq)]
pub enum Flow {
    Continue,
    Stop,
}

/// Model of a session: its identifier, its subscriber's cursor, and whether
/// it is still live.
pub struct SessionView {
    pub id: u64,
    pub cursor: nat,
    pub live: bool,
}

impl SessionView {
    /// The session and the forward activity's step after one receive on `bus`.
    pub open spec fn forward(self, bus: BusView) -> (SessionView, ForwardStep) {
        if !self.live {
            (self, ForwardStep::Stop)
        } else {
            let (got, cursor) = bus.outcome(self.cursor);
            match got {
                Received::Item(s) => (SessionView { cursor, ..self }, ForwardStep::Send(s)),
                Received::Lagged(n) => (SessionView { cursor, ..self }, ForwardStep::Skipped(n)),
                Received::Empty => (self, ForwardStep::Wait),
                Received::Closed => (SessionView { live: false, ..self }, ForwardStep::Stop),
            }
        }
    }

    /// The session after a send that succeeded (`ok`) or failed.
    pub open spec fn after_send(self, ok: bool) -> (SessionView, Flow) {
        if ok && self.live {
            (self, Flow::Continue)
        } else {
            (SessionView { live: false, ..self }, Flow::Stop)
        }
    }

    /// The session after a frame from the client: a close or a broken read
    /// ends it, anything else is discarded.
    pub open spec fn after_frame(self, frame: Frame) -> (SessionView, Flow) {
        match frame {
            Frame::Close | Frame::Broken => (SessionView { live: false, ..self }, Flow::Stop),
            _ => if self.live {
                (self, Flow::Continue)
            } else {
                (self, Flow::Stop)
            },
        }
    }
}

/// A client session bound to the bus through its own subscriber.
pub struct Session {
    id: u64,
    sub: Subscriber,
    live: bool,
}

impl View for Session {
    type V = SessionView;

    closed spec fn view(&self) -> SessionView {
        SessionView { id: self.id, cursor: self.sub.position(), live: self.live }
    }
}

impl Session {
    /// A live session with a fresh subscriber at the bus's tail.
    pub fn open(id: u64, bus: &FanoutBus) -> (r: Session)
        requires
            bus.wf(),
        ensures
            r@ == (SessionView { id, cursor: bus@.log.len(), live: true }),
    {
        Session { id, sub: bus.subscribe(), live: true }
    }

    pub fn id(&self) -> (r: u64)
        ensures
            r == self@.id,
    {
        self.id
    }

    /// Index of the next reading this session's subscriber will read.
    pub fn cursor(&self) -> (r: u64)
        ensures
            r as nat == self@.cursor,
    {
        self.sub.cursor()
    }

    pub fn is_live(&self) -> (r: bool)
        ensures
            r == self@.live,
    {
        self.live
    }

    /// One step of the forward activity: receive from the bus and say what
    /// to send. A session that is no longer live sends nothing.
    pub fn forward(&mut self, bus: &FanoutBus) -> (r: ForwardStep)
        requires
            bus.wf(),
            old(self)@.cursor <= bus@.log.len(),
        ensures
            (final(self)@, r) == old(self)@.forward(bus@),
            final(self)@.cursor <= bus@.log.len(),
    {
        if !self.live {
            return ForwardStep::Stop;
        }
        match bus.receive(&mut self.sub) {
            Received::Item(s) => ForwardStep::Send(s),
            Received::Lagged(n) => ForwardStep::Skipped(n),
            Received::Empty => ForwardStep::Wait,
            Received::Closed => {
                self.live = false;
                ForwardStep::Stop
            },
        }
    }

    /// Records how sending a frame went; a failed send ends this session.
    pub fn on_send(&mut self, ok: bool) -> (r: Flow)
        ensures
            (final(self)@, r) == old(self)@.after_send(ok),
    {
        if ok && self.live {
            Flow::Continue
        } else {
            self.live = false;
            Flow::Stop
        }
    }

    /// One step of the inbound activity.
    pub fn on_frame(&mut self, frame: Frame) -> (r: Flow)
        ensures
            (final(self)@, r) == old(self)@.after_frame(frame),
    {
        match frame {
            Frame::Close | Frame::Broken => {
                self.live = false;
                Flow::Stop
            },
            _ => if self.live {
                Flow::Continue
            } else {
                Flow::Stop
            },
        }
    }

    /// Ends the session, as when its other activity stopped.
    pub fn terminate(&mut self)
        ensures
            final(self)@ == (SessionView { live: false, ..old(self)@ }),
    {
        self.live = false;
    }
}

} // verus!
