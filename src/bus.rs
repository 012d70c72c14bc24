//! The fanout bus: a bounded window over the sequence of published payloads,
//! read by any number of subscribers through private cursors.

use std::collections::VecDeque;
use vstd::prelude::*;

verus! {

/// What one call of `FanoutBus::receive` observed.
#[derive(Debug, PartialEq, Eq)]
pub enum Received {
    /// The next payload at the subscriber's cursor.
    Item(String),
    /// The cursor had fallen behind the retained window; this many payloads
    /// were skipped and the cursor now points at the oldest retained one.
    Lagged(u64),
    /// The bus has been closed; terminal for the subscriber.
    Closed,
    /// Nothing new has been published since the cursor.
    Empty,
}

/// Mathematical model of a bus: everything ever published, in order, the
/// capacity of the retained window, and whether the bus was closed.
pub struct BusView {
    pub log: Seq<String>,
    pub capacity: nat,
    pub closed: bool,
}

impl BusView {
    /// Index (into `log`) of the oldest payload still retained.
    pub open spec fn oldest(self) -> nat {
        if self.log.len() > self.capacity {
            (self.log.len() - self.capacity) as nat
        } else {
            0
        }
    }

    /// The payloads still retained, oldest first.
    pub open spec fn retained(self) -> Seq<String> {
        self.log.subrange(self.oldest() as int, self.log.len() as int)
    }

    /// The bus after publishing `item`: appended unless the bus is closed.
    pub open spec fn after_publish(self, item: String) -> BusView {
        if self.closed {
            self
        } else {
            BusView { log: self.log.push(item), ..self }
        }
    }

    /// The bus after `close`.
    pub open spec fn after_close(self) -> BusView {
        BusView { closed: true, ..self }
    }

    /// What a receive at `cursor` observes, with the cursor afterwards.
    pub open spec fn outcome(self, cursor: nat) -> (Received, nat) {
        if self.closed {
            (Received::Closed, cursor)
        } else if cursor < self.oldest() {
            (Received::Lagged((self.oldest() - cursor) as u64), self.oldest())
        } else if cursor < self.log.len() {
            (Received::Item(self.log[cursor as int]), cursor + 1)
        } else {
            (Received::Empty, cursor)
        }
    }
}

/// One operation on a bus as seen by a single subscriber: somebody publishes,
/// or the subscriber receives.
pub enum BusOp {
    Publish(String),
    Receive,
}

impl BusView {
    /// The bus, the subscriber's cursor, and what it observed, after `op`.
    pub open spec fn step(self, cursor: nat, op: BusOp) -> (BusView, nat, Seq<Received>) {
        match op {
            BusOp::Publish(x) => (self.after_publish(x), cursor, Seq::empty()),
            BusOp::Receive => {
                let (r, c) = self.outcome(cursor);
                (self, c, seq![r])
            },
        }
    }
}

/// The bus, the subscriber's cursor, and everything it observed, after the
/// operations `ops` in order.
pub open spec fn run(v: BusView, cursor: nat, ops: Seq<BusOp>) -> (BusView, nat, Seq<Received>)
    decreases ops.len(),
{
    if ops.len() == 0 {
        (v, cursor, Seq::empty())
    } else {
        let (v1, c1, rs1) = run(v, cursor, ops.drop_last());
        let (v2, c2, rs2) = v1.step(c1, ops.last());
        (v2, c2, rs1 + rs2)
    }
}

/// The payloads among a sequence of observations, in order.
pub open spec fn items(rs: Seq<Received>) -> Seq<String>
    decreases rs.len(),
{
    if rs.len() == 0 {
        Seq::empty()
    } else {
        match rs.last() {
            Received::Item(s) => items(rs.drop_last()).push(s),
            _ => items(rs.drop_last()),
        }
    }
}

/// True when none of the observations is a lag notice.
pub open spec fn never_lagged(rs: Seq<Received>) -> bool {
    forall|i: int| 0 <= i < rs.len() ==> !(#[trigger] rs[i] is Lagged)
}

/// A consumer handle: its own read cursor into the bus's sequence.
pub struct Subscriber {
    cursor: u64,
}

impl Subscriber {
    pub closed spec fn position(&self) -> nat {
        self.cursor as nat
    }

    /// Index of the next payload this subscriber will read.
    pub fn cursor(&self) -> (r: u64)
        ensures
            r == self.position(),
    {
        self.cursor
    }
}

/// Bounded broadcast channel: publishing never blocks and never waits for a
/// subscriber; a subscriber that falls behind the window skips forward.
pub struct FanoutBus {
    window: VecDeque<String>,
    capacity: usize,
    published: u64,
    closed: bool,
    log: Ghost<Seq<String>>,
}

impl View for FanoutBus {
    type V = BusView;

    closed spec fn view(&self) -> BusView {
        BusView { log: self.log@, capacity: self.capacity as nat, closed: self.closed }
    }
}

impl FanoutBus {
    /// The window holds exactly the retained suffix of the log.
    pub closed spec fn wf(&self) -> bool {
        &&& self.capacity > 0
        &&& self.log@.len() == self.published as nat
        &&& self.window@ == self@.retained()
    }

    /// A bus retaining at most `capacity` payloads, with nothing published.
    pub fn new(capacity: usize) -> (r: FanoutBus)
        requires
            capacity > 0,
        ensures
            r.wf(),
            r@.log == Seq::<String>::empty(),
            r@.capacity == capacity as nat,
            !r@.closed,
    {
        let r = FanoutBus {
            window: VecDeque::new(),
            capacity,
            published: 0,
            closed: false,
            log: Ghost(Seq::empty()),
        };
        assert(r.window@ =~= r@.retained());
        r
    }

    /// Number of payloads published so far.
    pub fn published(&self) -> (r: u64)
        requires
            self.wf(),
        ensures
            r as nat == self@.log.len(),
    {
        self.published
    }

    /// Capacity of the retained window.
    pub fn capacity(&self) -> (r: usize)
        ensures
            r as nat == self@.capacity,
    {
        self.capacity
    }

    pub fn is_closed(&self) -> (r: bool)
        ensures
            r == self@.closed,
    {
        self.closed
    }

    /// Appends `item`, dropping the oldest retained payload when the window
    /// is full. Constant time; it neither fails nor depends on subscribers.
    /// After `close` the bus is left as it is.
    pub fn publish(&mut self, item: String)
        requires
            old(self).wf(),
            old(self)@.log.len() < u64::MAX,
        ensures
            final(self).wf(),
            final(self)@ == old(self)@.after_publish(item),
    {
        if self.closed {
            return;
        }
        let ghost before = self@;
        if self.window.len() == self.capacity {
            self.window.pop_front();
        }
        self.window.push_back(item);
        self.published = self.published + 1;
        self.log = Ghost(self.log@.push(item));
        assert(self.window@ =~= self@.retained()) by {
            assert(self@.log == before.log.push(item));
        }
    }

    /// A new subscriber whose cursor starts at the current tail: it sees only
    /// what is published after this call.
    pub fn subscribe(&self) -> (r: Subscriber)
        requires
            self.wf(),
        ensures
            r.position() == self@.log.len(),
    {
        Subscriber { cursor: self.published }
    }

    /// Reads at the subscriber's cursor without waiting: the closed mark
    /// first, then lag (skip forward to the oldest retained payload), then
    /// the next payload, else `Empty`.
    pub fn receive(&self, sub: &mut Subscriber) -> (r: Received)
        requires
            self.wf(),
            old(sub).position() <= self@.log.len(),
        ensures
            (r, final(sub).position()) == self@.outcome(old(sub).position()),
            final(sub).position() <= self@.log.len(),
    {
        if self.closed {
            return Received::Closed;
        }
        let oldest: u64 = self.published - self.window.len() as u64;
        assert(oldest as nat == self@.oldest());
        if sub.cursor < oldest {
            let skipped: u64 = oldest - sub.cursor;
            sub.cursor = oldest;
            Received::Lagged(skipped)
        } else if sub.cursor < self.published {
            let idx: usize = (sub.cursor - oldest) as usize;
            let item = self.window[idx].clone();
            assert(item == self@.log[sub.cursor as int]);
            sub.cursor = sub.cursor + 1;
            Received::Item(item)
        } else {
            Received::Empty
        }
    }

    /// Marks the bus closed; every later receive returns `Closed`.
    /// Idempotent.
    pub fn close(&mut self)
        requires
            old(self).wf(),
        ensures
            final(self).wf(),
            final(self)@ == old(self)@.after_close(),
    {
        self.closed = true;
    }
}

} // verus!
