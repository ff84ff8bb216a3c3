//! The broadcast fan-out: the same message sent independently to each
//! registry member. The library owns the iteration state and the failure
//! accounting; the caller performs one outbound send per step and hands the
//! outcome back. A failed send is isolated: it is counted and the fan-out
//! moves to the next recipient, exactly as on success.
//!
//! Recipient policy: a broadcast goes to every registry member; the
//! administrative recipient gets it as a member like any other, never as the
//! sole recipient.

use vstd::prelude::*;

use crate::engine::EngineState;

verus! {

/// One fan-out in progress: the message, the recipients still owed a send
/// attempt, how many attempts were made and how many of them failed.
#[derive(Debug)]
pub struct FanOut {
    /// The message every recipient gets.
    pub message: String,
    /// The recipient identifiers, one per registry member.
    pub recipients: Vec<String>,
    /// How many recipients have been attempted so far.
    pub attempted: usize,
    /// How many of the attempted sends failed.
    pub failures: usize,
}

/// One recorded outcome: the fan-out advances by one recipient whether the
/// send succeeded or failed; only the failure count differs.
pub open spec fn spec_record(m: FanOut, ok: bool) -> FanOut {
    FanOut {
        attempted: (m.attempted + 1) as usize,
        failures: if ok {
            m.failures
        } else {
            (m.failures + 1) as usize
        },
        ..m
    }
}

/// The fan-out after recording a whole sequence of send outcomes.
pub open spec fn spec_run(m: FanOut, outcomes: Seq<bool>) -> FanOut
    decreases outcomes.len(),
{
    if outcomes.len() == 0 {
        m
    } else {
        spec_run(spec_record(m, outcomes[0]), outcomes.subrange(1, outcomes.len() as int))
    }
}

impl FanOut {
    /// The counters are coherent: no more failures than attempts, no more
    /// attempts than recipients.
    pub open spec fn wf(self) -> bool {
        self.failures <= self.attempted <= self.recipients@.len()
    }

    /// A fan-out of `message` to every current registry member, in registry
    /// order, nothing attempted yet.
    pub fn new(message: String, state: &EngineState) -> (m: FanOut)
        ensures
            m.message == message,
            m.recipients@.len() == state.subscribers@.len(),
            forall|i: int|
                0 <= i < m.recipients@.len() ==> m.recipients@[i]@ == state.subscribers@[i].id@,
            m.attempted == 0,
            m.failures == 0,
    {
        let mut recipients: Vec<String> = Vec::new();
        let mut i: usize = 0;
        while i < state.subscribers.len()
            invariant
                i <= state.subscribers@.len(),
                recipients@.len() == i,
                forall|j: int|
                    0 <= j < i as int ==> recipients@[j]@ == state.subscribers@[j].id@,
            decreases state.subscribers@.len() - i,
        {
            recipients.push(state.subscribers[i].id.clone());
            i = i + 1;
        }
        FanOut { message, recipients, attempted: 0, failures: 0 }
    }

    /// The recipient owed the next send attempt, if any is left.
    pub fn next_recipient(&self) -> (r: Option<&String>)
        ensures
            match r {
                Some(id) => self.attempted < self.recipients@.len() && id
                    == self.recipients@[self.attempted as int],
                None => self.attempted >= self.recipients@.len(),
            },
    {
        if self.attempted < self.recipients.len() {
            Option::Some(&self.recipients[self.attempted])
        } else {
            Option::None
        }
    }

    /// Records the outcome of one send attempt. Success and failure advance
    /// alike; a failure only raises the failure count.
    pub fn record_attempt(&mut self, ok: bool)
        requires
            old(self).wf(),
            old(self).attempted < old(self).recipients@.len(),
        ensures
            *final(self) == spec_record(*old(self), ok),
            final(self).wf(),
    {
        let bound = self.recipients.len();
        proof {
            assert(self.attempted < bound);
        }
        self.attempted = self.attempted + 1;
        if !ok {
            self.failures = self.failures + 1;
        }
    }

    /// Whether every recipient has been attempted.
    pub fn is_done(&self) -> (done: bool)
        ensures
            done == (self.attempted >= self.recipients@.len()),
    {
        self.attempted >= self.recipients.len()
    }
}

/// Fan-out tolerates partial failure: recording any sequence of send
/// outcomes advances the attempt count by exactly the number of outcomes — a
/// failed send never cuts the run short — and neither the message nor the
/// recipient list changes along the way; the failure count never exceeds the
/// attempts. With as many outcomes as recipients, every one of the N
/// recipients is attempted, however many of the sends failed.
pub proof fn lemma_fanout_attempts_all(m: FanOut, outcomes: Seq<bool>)
    requires
        m.attempted + outcomes.len() <= usize::MAX,
        m.failures <= m.attempted,
    ensures
        spec_run(m, outcomes).attempted == m.attempted + outcomes.len(),
        spec_run(m, outcomes).recipients == m.recipients,
        spec_run(m, outcomes).message == m.message,
        spec_run(m, outcomes).failures <= spec_run(m, outcomes).attempted,
    decreases outcomes.len(),
{
    if outcomes.len() > 0 {
        lemma_fanout_attempts_all(spec_record(m, outcomes[0]), outcomes.subrange(1, outcomes.len() as int));
    }
}

} // verus!
