//! Decisions of the broker ingestor: decoding inbound payloads, forwarding
//! them to the bus, backing off after a lost connection, and resubscribing
//! once the broker acknowledges a new connection.

use vstd::prelude::*;
use vstd::utf8::{decode_utf8, valid_utf8};

verus! {

/// Why an inbound payload was dropped.
#[derive(Debug, Clone, Copy, PartialEq, Eq)]
pub enum PayloadError {
    /// The bytes are not valid UTF-8.
    InvalidUtf8,
    /// The text is not a JSON object with the fields of a reading.
    Malformed,
}

/// An event pulled from the broker connection.
pub enum BrokerEvent {
    /// The broker acknowledged the current connection attempt.
    ConnAck,
    /// A message arrived on `topic`; `body` is its text, or why it was not
    /// a reading.
    Message { topic: String, body: Result<String, PayloadError> },
    /// The connection failed or was closed; `jitter` is a random number
    /// drawn for the retry delay.
    ConnectionLost { jitter: u64 },
    /// Any other protocol event.
    Other,
}

/// What the event loop is to do next.
#[derive(Debug, PartialEq, Eq)]
pub enum IngestAction {
    /// Issue a subscription to this topic.
    Subscribe(String),
    /// Publish this reading's text on the bus.
    Forward(String),
    /// Drop the message and report why.
    Discard(PayloadError),
    /// Wait this long before polling (and so reconnecting) again.
    Retry { delay_ms: u64 },
    /// Nothing to do.
    Ignore,
}

/// First retry delay bound, in milliseconds.
pub const BACKOFF_START_MS: u64 = 1000;

/// Largest retry delay, in milliseconds.
pub const BACKOFF_CAP_MS: u64 = 30000;

/// Upper bound of the delay before retry number `attempt` (counting from
/// zero): it starts at one second and doubles up to the cap.
pub open spec fn backoff_ceiling(attempt: nat) -> nat
    decreases attempt,
{
    if attempt == 0 {
        BACKOFF_START_MS as nat
    } else {
        let doubled = 2 * backoff_ceiling((attempt - 1) as nat);
        if doubled < BACKOFF_CAP_MS {
            doubled
        } else {
            BACKOFF_CAP_MS as nat
        }
    }
}

/// The delay before retry number `attempt`: the upper half of the range up
/// to the ceiling, placed within it by `jitter`.
pub open spec fn backoff_delay(attempt: nat, jitter: nat) -> nat {
    let half = backoff_ceiling(attempt) / 2;
    half + jitter % (half + 1)
}

proof fn lemma_ceiling_stays_capped(from: nat, attempt: nat)
    requires
        from <= attempt,
        backoff_ceiling(from) == BACKOFF_CAP_MS,
    ensures
        backoff_ceiling(attempt) == BACKOFF_CAP_MS,
    decreases attempt - from,
{
    if from < attempt {
        lemma_ceiling_stays_capped(from, (attempt - 1) as nat);
    }
}

/// The ceiling of the delay before retry number `attempt`.
pub fn backoff_ceiling_ms(attempt: u32) -> (r: u64)
    ensures
        r == backoff_ceiling(attempt as nat),
        BACKOFF_START_MS <= r <= BACKOFF_CAP_MS,
{
    let mut cur: u64 = BACKOFF_START_MS;
    let mut i: u32 = 0;
    while i < attempt && cur < BACKOFF_CAP_MS
        invariant
            i <= attempt,
            cur == backoff_ceiling(i as nat),
            BACKOFF_START_MS <= cur <= BACKOFF_CAP_MS,
        decreases attempt - i,
    {
        cur = if 2 * cur < BACKOFF_CAP_MS {
            2 * cur
        } else {
            BACKOFF_CAP_MS
        };
        i = i + 1;
    }
    proof {
        if i < attempt {
            lemma_ceiling_stays_capped(i as nat, attempt as nat);
        }
    }
    cur
}

/// The delay before retry number `attempt`, placed by `jitter` between half
/// the ceiling and the ceiling.
pub fn backoff_delay_ms(attempt: u32, jitter: u64) -> (r: u64)
    ensures
        r == backoff_delay(attempt as nat, jitter as nat),
        backoff_ceiling(attempt as nat) / 2 <= r <= backoff_ceiling(attempt as nat),
{
    let ceiling = backoff_ceiling_ms(attempt);
    let half = ceiling / 2;
    half + jitter % (half + 1)
}

/// Relies on std's `String::from_utf8`: it succeeds exactly on valid UTF-8,
/// and the string then holds the characters that the bytes encode.
#[verifier::external_body]
fn string_from_utf8(bytes: &[u8]) -> (r: Option<String>)
    ensures
        r is Some <==> valid_utf8(bytes@),
        r matches Some(s) ==> s@ == decode_utf8(bytes@),
{
    String::from_utf8(bytes.to_vec()).ok()
}

/// Decodes an inbound payload as UTF-8 text.
pub fn decode_payload(payload: &[u8]) -> (r: Result<String, PayloadError>)
    ensures
        r is Ok <==> valid_utf8(payload@),
        r matches Ok(s) ==> s@ == decode_utf8(payload@),
        r matches Err(e) ==> e == PayloadError::InvalidUtf8,
{
    match string_from_utf8(payload) {
        Some(s) => Ok(s),
        None => Err(PayloadError::InvalidUtf8),
    }
}

/// Model of the ingestor: its topic, whether the current connection has
/// been acknowledged, and how many connection failures happened in a row.
pub struct IngestorView {
    pub topic: String,
    pub ready: bool,
    pub failures: nat,
}

impl IngestorView {
    /// The ingestor's state and action after `event`.
    pub open spec fn next(self, event: BrokerEvent) -> (IngestorView, IngestAction) {
        match event {
            BrokerEvent::ConnAck => (
                IngestorView { ready: true, failures: 0, ..self },
                IngestAction::Subscribe(self.topic),
            ),
            BrokerEvent::Message { topic, body } => {
                if topic@ != self.topic@ {
                    (self, IngestAction::Ignore)
                } else {
                    match body {
                        Ok(text) => (self, IngestAction::Forward(text)),
                        Err(e) => (self, IngestAction::Discard(e)),
                    }
                }
            },
            BrokerEvent::ConnectionLost { jitter } => (
                IngestorView {
                    ready: false,
                    failures: if self.failures < u32::MAX {
                        self.failures + 1
                    } else {
                        self.failures
                    },
                    ..self
                },
                IngestAction::Retry {
                    delay_ms: backoff_delay(self.failures, jitter as nat) as u64,
                },
            ),
            BrokerEvent::Other => (self, IngestAction::Ignore),
        }
    }
}

/// The ingestor's decision state for one broker connection.
pub struct Ingestor {
    topic: String,
    ready: bool,
    failures: u32,
}

impl View for Ingestor {
    type V = IngestorView;

    closed spec fn view(&self) -> IngestorView {
        IngestorView { topic: self.topic, ready: self.ready, failures: self.failures as nat }
    }
}

impl Ingestor {
    /// An ingestor for `topic`, not yet acknowledged by the broker.
    pub fn new(topic: String) -> (r: Ingestor)
        ensures
            r@ == (IngestorView { topic, ready: false, failures: 0 }),
    {
        Ingestor { topic, ready: false, failures: 0 }
    }

    /// True once the broker acknowledged the current connection.
    pub fn is_ready(&self) -> (r: bool)
        ensures
            r == self@.ready,
    {
        self.ready
    }

    /// The subscribed topic.
    pub fn topic(&self) -> (r: &String)
        ensures
            r == self@.topic,
    {
        &self.topic
    }

    /// Connection failures since the last acknowledgment.
    pub fn failures(&self) -> (r: u32)
        ensures
            r as nat == self@.failures,
    {
        self.failures
    }

    /// Takes one broker event and says what to do. A malformed message is
    /// discarded and changes nothing; a lost connection is retried after a
    /// growing delay, without end; an acknowledgment resets the backoff and
    /// asks to subscribe again.
    pub fn on_event(&mut self, event: BrokerEvent) -> (r: IngestAction)
        ensures
            (final(self)@, r) == old(self)@.next(event),
    {
        match event {
            BrokerEvent::ConnAck => {
                self.ready = true;
                self.failures = 0;
                IngestAction::Subscribe(self.topic.clone())
            },
            BrokerEvent::Message { topic, body } => {
                if topic != self.topic {
                    IngestAction::Ignore
                } else {
                    match body {
                        Ok(text) => IngestAction::Forward(text),
                        Err(e) => IngestAction::Discard(e),
                    }
                }
            },
            BrokerEvent::ConnectionLost { jitter } => {
                let delay_ms = backoff_delay_ms(self.failures, jitter);
                self.ready = false;
                if self.failures < u32::MAX {
                    self.failures = self.failures + 1;
                }
                IngestAction::Retry { delay_ms }
            },
            BrokerEvent::Other => IngestAction::Ignore,
        }
    }
}

} // verus!
