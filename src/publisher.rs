use crate::message::{message_payload, payload_spec};
use crate::session::{publish, Delivery};
use rumqttc::Client;
use vstd::prelude::*;

verus! {

/// The topic every benchmark message is published to.
pub const TOPIC: &'static str = "hello/world";

/// One publish handed to the session: where it goes, how it is delivered,
/// whether the broker keeps it, and its bytes.
pub struct PublishRequest {
    pub topic: &'static str,
    pub delivery: Delivery,
    pub retain: bool,
    pub payload: Vec<u8>,
}

/// The mathematical value of a publish request.
pub ghost struct RequestModel {
    pub topic: Seq<char>,
    pub delivery: Delivery,
    pub retain: bool,
    pub payload: Seq<u8>,
}

impl View for PublishRequest {
    type V = RequestModel;

    open spec fn view(&self) -> RequestModel {
        RequestModel {
            topic: self.topic@,
            delivery: self.delivery,
            retain: self.retain,
            payload: self.payload@,
        }
    }
}

/// The request for the message with the given index: the benchmark topic,
/// at-least-once delivery, retain flag cleared, and that message's payload.
pub open spec fn request_spec(index: nat, size: nat) -> RequestModel {
    RequestModel {
        topic: TOPIC@,
        delivery: Delivery::AtLeastOnce,
        retain: false,
        payload: payload_spec(index, size),
    }
}

/// A publish that the session did not take.
#[derive(Clone, Copy, Debug, PartialEq, Eq, Structural)]
pub enum EmitError {
    SendFailed,
}

/// The mathematical state of a publisher.
pub ghost struct Progress {
    pub count: nat,
    pub payload_size: nat,
    pub emitted: nat,
    pub failed: bool,
}

impl Progress {
    pub open spec fn wf(self) -> bool {
        self.emitted <= self.count
    }

    /// No more messages go out: all were emitted, or one emit failed.
    pub open spec fn is_finished(self) -> bool {
        self.failed || self.emitted >= self.count
    }

    /// How many publishes were attempted: every success, and the failure if
    /// there was one.
    pub open spec fn attempts(self) -> nat {
        self.emitted + if self.failed {
            1nat
        } else {
            0nat
        }
    }

    /// The requests handed to the session so far, in order.
    pub open spec fn handed(self) -> Seq<RequestModel> {
        Seq::new(self.attempts(), |k: int| request_spec(k as nat, self.payload_size))
    }
}

/// Emits a fixed number of messages of a fixed size, one at a time, and
/// stops for good at the first emit that fails.
pub struct Publisher {
    count: usize,
    payload_size: usize,
    emitted: usize,
    failed: bool,
}

impl View for Publisher {
    type V = Progress;

    closed spec fn view(&self) -> Progress {
        Progress {
            count: self.count as nat,
            payload_size: self.payload_size as nat,
            emitted: self.emitted as nat,
            failed: self.failed,
        }
    }
}

impl Publisher {
    pub fn new(count: usize, payload_size: usize) -> (r: Publisher)
        ensures
            r@ == (Progress {
                count: count as nat,
                payload_size: payload_size as nat,
                emitted: 0,
                failed: false,
            }),
            r@.wf(),
    {
        Publisher { count, payload_size, emitted: 0, failed: false }
    }

    pub fn count(&self) -> (r: usize)
        ensures
            r == self@.count,
    {
        self.count
    }

    pub fn payload_size(&self) -> (r: usize)
        ensures
            r == self@.payload_size,
    {
        self.payload_size
    }

    /// How many messages were emitted successfully.
    pub fn emitted(&self) -> (r: usize)
        ensures
            r == self@.emitted,
    {
        self.emitted
    }

    pub fn has_failed(&self) -> (r: bool)
        ensures
            r == self@.failed,
    {
        self.failed
    }

    pub fn is_finished(&self) -> (r: bool)
        ensures
            r == self@.is_finished(),
    {
        self.failed || self.emitted >= self.count
    }

    /// The payload of the next message: the one whose index is the number of
    /// messages emitted so far.
    pub fn next_payload(&self) -> (r: Vec<u8>)
        ensures
            r@ == payload_spec(self@.emitted, self@.payload_size),
    {
        message_payload(self.emitted, self.payload_size)
    }

    /// The next publish request: the one for the message whose index is the
    /// number of messages emitted so far.
    pub fn next_request(&self) -> (r: PublishRequest)
        ensures
            r@ == request_spec(self@.emitted, self@.payload_size),
    {
        PublishRequest {
            topic: TOPIC,
            delivery: Delivery::AtLeastOnce,
            retain: false,
            payload: message_payload(self.emitted, self.payload_size),
        }
    }

    /// Records the outcome of emitting the next message.
    pub fn record(&mut self, outcome: Result<(), EmitError>)
        requires
            old(self)@.wf(),
            !old(self)@.is_finished(),
        ensures
            final(self)@.wf(),
            final(self)@.count == old(self)@.count,
            final(self)@.payload_size == old(self)@.payload_size,
            outcome is Ok ==> final(self)@.emitted == old(self)@.emitted + 1 && !final(self)@.failed,
            outcome is Err ==> final(self)@.emitted == old(self)@.emitted && final(self)@.failed,
    {
        match outcome {
            Ok(()) => {
                self.emitted = self.emitted + 1;
            },
            Err(_) => {
                self.failed = true;
            },
        }
    }
}

/// A run in which no publish failed handed out exactly `count` requests, and
/// the k-th of them is for the message with index k: the benchmark topic,
/// at-least-once delivery, retain cleared, first byte k modulo 255, the
/// filler after it, and the configured length.
pub proof fn lemma_complete_run(p: Progress)
    requires
        p.wf(),
        p.is_finished(),
        !p.failed,
    ensures
        p.handed().len() == p.count,
        forall|k: int|
            0 <= k < p.count ==> #[trigger] p.handed()[k] == request_spec(k as nat, p.payload_size),
        forall|k: int|
            0 <= k < p.count ==> (#[trigger] p.handed()[k]).payload.len() == p.payload_size,
        p.payload_size >= 1 ==> forall|k: int|
            0 <= k < p.count ==> (#[trigger] p.handed()[k]).payload[0] == (k % 255) as u8,
{
}

/// Publishes `count` messages of `payload_size` bytes through the client, at
/// least once each and not retained, stopping at the first failed emit. The
/// returned publisher tells how many went out; beside it, in order, every
/// request that was handed to the client.
pub fn requests(count: usize, payload_size: usize, client: &mut Client) -> (r: (
    Publisher,
    Ghost<Seq<RequestModel>>,
))
    ensures
        r.0@.wf(),
        r.0@.is_finished(),
        r.0@.count == count,
        r.0@.payload_size == payload_size,
        !r.0@.failed ==> r.0@.emitted == count,
        r.0@.failed ==> r.0@.emitted < count,
        count == 0 ==> !r.0@.failed,
        r.1@ == r.0@.handed(),
{
    let mut publisher = Publisher::new(count, payload_size);
    let ghost mut handed: Seq<RequestModel> = Seq::empty();
    proof {
        assert(handed =~= publisher@.handed());
    }
    while !publisher.is_finished()
        invariant
            publisher@.wf(),
            publisher@.count == count,
            publisher@.payload_size == payload_size,
            publisher@.failed ==> publisher@.emitted < count,
            count == 0 ==> !publisher@.failed,
            handed == publisher@.handed(),
        decreases publisher@.count - publisher@.emitted + if publisher@.failed {
            0int
        } else {
            1int
        },
    {
        let request = publisher.next_request();
        proof {
            handed = handed.push(request@);
        }
        let outcome = match publish(client, request) {
            Ok(()) => Ok(()),
            Err(_) => Err(EmitError::SendFailed),
        };
        publisher.record(outcome);
        proof {
            assert(handed =~= publisher@.handed());
        }
    }
    (publisher, Ghost(handed))
}

} // verus!
