use vstd::prelude::*;

verus! {

/// An item of the notification stream, as the collector sees it.
#[derive(Clone, Copy, Debug, PartialEq, Eq, Structural)]
pub enum Notification {
    /// The broker acknowledged a published message.
    Ack,
    /// Any other protocol event.
    Other,
    /// The stream had no event to hand out yet.
    Nothing,
}

/// What one pull from the notification stream gave.
#[derive(Clone, Copy, Debug, PartialEq, Eq, Structural)]
pub enum Pulled {
    Item(Notification),
    /// The stream reported an error.
    Failed,
    /// The stream is exhausted.
    Closed,
}

/// What the collector decides after a pull.
#[derive(Clone, Copy, Debug, PartialEq, Eq, Structural)]
pub enum Step {
    /// Still counting: pull again.
    Pull,
    /// The target was reached: stop pulling and report.
    Done,
    /// The stream failed: stop and hand the error up.
    Failed,
    /// The stream ended before the target was reached.
    Closed,
}

/// The mathematical state of a collector: how many acknowledgments it waits
/// for and how many it has counted.
pub ghost struct Tally {
    pub target: nat,
    pub counter: nat,
}

impl Tally {
    pub open spec fn wf(self) -> bool {
        self.counter <= self.target
    }

    pub open spec fn is_done(self) -> bool {
        self.counter == self.target
    }

    /// The state reached from this one by one notification.
    pub open spec fn step(self, n: Notification) -> Tally {
        if !self.is_done() && n == Notification::Ack {
            Tally { target: self.target, counter: self.counter + 1 }
        } else {
            self
        }
    }

    /// The state reached from this one by a sequence of notifications, in order.
    pub open spec fn run(self, events: Seq<Notification>) -> Tally
        decreases events.len(),
    {
        if events.len() == 0 {
            self
        } else {
            self.run(events.drop_last()).step(events.last())
        }
    }
}

/// The state in which counting starts.
pub open spec fn initial(target: nat) -> Tally {
    Tally { target, counter: 0 }
}

/// How many acknowledgments a sequence of notifications holds.
pub open spec fn count_acks(events: Seq<Notification>) -> nat
    decreases events.len(),
{
    if events.len() == 0 {
        0
    } else {
        count_acks(events.drop_last()) + if events.last() == Notification::Ack {
            1nat
        } else {
            0nat
        }
    }
}

/// Counts acknowledgments until a target count is reached.
pub struct Collector {
    target: usize,
    counter: usize,
}

impl View for Collector {
    type V = Tally;

    closed spec fn view(&self) -> Tally {
        Tally { target: self.target as nat, counter: self.counter as nat }
    }
}

impl Collector {
    /// A collector that waits for `target` acknowledgments. With a target of
    /// zero it is done from the start.
    pub fn new(target: usize) -> (r: Collector)
        ensures
            r@ == initial(target as nat),
            r@.wf(),
    {
        Collector { target, counter: 0 }
    }

    pub fn target(&self) -> (r: usize)
        ensures
            r == self@.target,
    {
        self.target
    }

    pub fn counter(&self) -> (r: usize)
        ensures
            r == self@.counter,
    {
        self.counter
    }

    pub fn is_done(&self) -> (r: bool)
        ensures
            r == self@.is_done(),
    {
        self.counter == self.target
    }

    /// Takes one item pulled from the notification stream and decides what
    /// comes next. Once done, nothing more is processed.
    pub fn step(&mut self, pulled: Pulled) -> (r: Step)
        requires
            old(self)@.wf(),
        ensures
            final(self)@.wf(),
            old(self)@.is_done() ==> final(self)@ == old(self)@ && r == Step::Done,
            !old(self)@.is_done() ==> match pulled {
                Pulled::Item(n) => {
                    &&& final(self)@ == old(self)@.step(n)
                    &&& (r == Step::Done <==> final(self)@.is_done())
                    &&& (r == Step::Done || r == Step::Pull)
                },
                Pulled::Failed => final(self)@ == old(self)@ && r == Step::Failed,
                Pulled::Closed => final(self)@ == old(self)@ && r == Step::Closed,
            },
    {
        if self.counter == self.target {
            return Step::Done;
        }
        match pulled {
            Pulled::Item(n) => {
                if n == Notification::Ack {
                    self.counter = self.counter + 1;
                }
                if self.counter == self.target {
                    Step::Done
                } else {
                    Step::Pull
                }
            },
            Pulled::Failed => Step::Failed,
            Pulled::Closed => Step::Closed,
        }
    }
}

/// Over any sequence of notifications the collector's counter is the number
/// of acknowledgments in it, capped at the target; it never exceeds the target.
pub proof fn lemma_run_counts(target: nat, events: Seq<Notification>)
    ensures
        initial(target).run(events).target == target,
        initial(target).run(events).counter == if count_acks(events) < target {
            count_acks(events)
        } else {
            target
        },
    decreases events.len(),
{
    if events.len() > 0 {
        lemma_run_counts(target, events.drop_last());
    }
}

/// When every one of `n` emitted messages is acknowledged, the collector
/// reaches its end with a counter of exactly `n`.
pub proof fn lemma_all_acknowledged(n: nat, events: Seq<Notification>)
    requires
        n >= 1,
        count_acks(events) >= n,
    ensures
        initial(n).run(events).is_done(),
        initial(n).run(events).counter == n,
{
    lemma_run_counts(n, events);
}

/// Once done, the collector stays as it is, whatever notifications follow.
pub proof fn lemma_done_is_final(t: Tally, events: Seq<Notification>)
    requires
        t.is_done(),
    ensures
        t.run(events) == t,
    decreases events.len(),
{
    if events.len() > 0 {
        lemma_done_is_final(t, events.drop_last());
    }
}

/// Notifications other than acknowledgments never change the collector's state.
pub proof fn lemma_others_ignored(t: Tally, events: Seq<Notification>)
    requires
        forall|i: int| 0 <= i < events.len() ==> events[i] != Notification::Ack,
    ensures
        t.run(events) == t,
    decreases events.len(),
{
    if events.len() > 0 {
        lemma_others_ignored(t, events.drop_last());
    }
}

} // verus!
