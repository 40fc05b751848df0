//! The course of a timed delivery: wait for one interval, send one message,
//! and so on until every message is sent.
//!
//! The course is a state machine. Whoever runs it asks what to do next, does
//! it, which is the only place where anything waits, and then tells the
//! machine that it is done. A message that could not be sent counts as sent:
//! nothing is tried twice, and nothing ends the course early.

use vstd::prelude::*;

verus! {

/// Where a timed delivery stands.
#[derive(Clone, Copy, Debug, PartialEq, Eq, Structural)]
pub enum Phase {
    /// So many messages are sent, and the interval before the next has not elapsed.
    Waiting(usize),
    /// So many messages are sent, and the next is due.
    Sending(usize),
    /// Every message is sent.
    Done,
}

/// What is to be done next.
#[derive(Clone, Copy, Debug, PartialEq, Eq, Structural)]
pub enum Step {
    /// Wait until one more interval has elapsed.
    Wait,
    /// Send one message.
    Send,
    /// Nothing: the delivery is over.
    Stop,
}

/// The phase in which a delivery of `repeat` messages begins.
pub open spec fn first_phase(repeat: usize) -> Phase {
    if repeat == 0 {
        Phase::Done
    } else {
        Phase::Waiting(0)
    }
}

/// The phase that follows `phase` in a delivery of `repeat` messages.
pub open spec fn next_phase(repeat: usize, phase: Phase) -> Phase {
    match phase {
        Phase::Waiting(sent) => Phase::Sending(sent),
        Phase::Sending(sent) => if sent + 1 < repeat {
            Phase::Waiting((sent + 1) as usize)
        } else {
            Phase::Done
        },
        Phase::Done => Phase::Done,
    }
}

/// What is to be done in `phase`.
pub open spec fn step_of(phase: Phase) -> Step {
    match phase {
        Phase::Waiting(_) => Step::Wait,
        Phase::Sending(_) => Step::Send,
        Phase::Done => Step::Stop,
    }
}

/// The number of intervals that have elapsed in full when a delivery of
/// `repeat` messages stands in `phase`.
pub open spec fn intervals_elapsed(repeat: usize, phase: Phase) -> nat {
    match phase {
        Phase::Waiting(sent) => sent as nat,
        Phase::Sending(sent) => (sent + 1) as nat,
        Phase::Done => repeat as nat,
    }
}

/// The number of messages that are sent when a delivery of `repeat` messages
/// stands in `phase`.
pub open spec fn messages_sent(repeat: usize, phase: Phase) -> nat {
    match phase {
        Phase::Waiting(sent) => sent as nat,
        Phase::Sending(sent) => sent as nat,
        Phase::Done => repeat as nat,
    }
}

/// Whether `phase` can occur in a delivery of `repeat` messages.
pub open spec fn phase_fits(repeat: usize, phase: Phase) -> bool {
    match phase {
        Phase::Waiting(sent) => sent < repeat,
        Phase::Sending(sent) => sent < repeat,
        Phase::Done => true,
    }
}

/// The phase of a delivery of `repeat` messages after `steps` steps.
pub open spec fn phase_after(repeat: usize, steps: nat) -> Phase
    decreases steps,
{
    if steps == 0 {
        first_phase(repeat)
    } else {
        next_phase(repeat, phase_after(repeat, (steps - 1) as nat))
    }
}

/// The course of one timed delivery.
#[derive(Debug)]
pub struct Pacer {
    repeat: usize,
    phase: Phase,
}

/// A pacer as a plain value.
pub struct PacerView {
    pub repeat: usize,
    pub phase: Phase,
}

impl View for Pacer {
    type V = PacerView;

    closed spec fn view(&self) -> PacerView {
        PacerView { repeat: self.repeat, phase: self.phase }
    }
}

impl Pacer {
    #[verifier::type_invariant]
    spec fn well_formed(self) -> bool {
        phase_fits(self.repeat, self.phase)
    }

    /// The course of a delivery of `repeat` messages, at its beginning.
    pub fn new(repeat: usize) -> (p: Self)
        ensures
            p@.repeat == repeat,
            p@.phase == first_phase(repeat),
    {
        let phase = if repeat == 0 {
            Phase::Done
        } else {
            Phase::Waiting(0)
        };
        Self { repeat, phase }
    }

    /// Where the delivery stands.
    pub fn phase(&self) -> (phase: Phase)
        ensures
            phase == self@.phase,
            phase_fits(self@.repeat, phase),
    {
        proof {
            use_type_invariant(self);
        }
        self.phase
    }

    /// The number of messages that are sent.
    pub fn sent(&self) -> (sent: usize)
        ensures
            sent == messages_sent(self@.repeat, self@.phase),
    {
        match self.phase {
            Phase::Waiting(sent) => sent,
            Phase::Sending(sent) => sent,
            Phase::Done => self.repeat,
        }
    }

    /// The number of intervals that have elapsed in full.
    pub fn elapsed(&self) -> (elapsed: usize)
        ensures
            elapsed == intervals_elapsed(self@.repeat, self@.phase),
    {
        proof {
            use_type_invariant(self);
        }
        match self.phase {
            Phase::Waiting(sent) => sent,
            Phase::Sending(sent) => sent + 1,
            Phase::Done => self.repeat,
        }
    }

    /// What is to be done next.
    pub fn step(&self) -> (step: Step)
        ensures
            step == step_of(self@.phase),
    {
        match self.phase {
            Phase::Waiting(_) => Step::Wait,
            Phase::Sending(_) => Step::Send,
            Phase::Done => Step::Stop,
        }
    }

    /// Takes note that the step that was due is done: that the interval has
    /// elapsed, or that the message is sent or could not be sent.
    pub fn advance(&mut self)
        ensures
            final(self)@.repeat == old(self)@.repeat,
            final(self)@.phase == next_phase(old(self)@.repeat, old(self)@.phase),
    {
        proof {
            use_type_invariant(&*self);
        }
        let next = match self.phase {
            Phase::Waiting(sent) => Phase::Sending(sent),
            Phase::Sending(sent) => if sent + 1 < self.repeat {
                Phase::Waiting(sent + 1)
            } else {
                Phase::Done
            },
            Phase::Done => Phase::Done,
        };
        self.phase = next;
    }
}

/// The whole course of a delivery of `repeat` messages: steps of waiting and
/// of sending take turns, a step of waiting first, so that a message is sent
/// only when one more interval than there are messages sent has elapsed in
/// full; after the last message the delivery is over and stays so.
pub proof fn lemma_course(repeat: usize, steps: nat)
    ensures
        steps < 2 * repeat && steps % 2 == 0 ==> phase_after(repeat, steps) == Phase::Waiting(
            (steps / 2) as usize,
        ),
        steps < 2 * repeat && steps % 2 == 1 ==> phase_after(repeat, steps) == Phase::Sending(
            (steps / 2) as usize,
        ),
        steps >= 2 * repeat ==> phase_after(repeat, steps) == Phase::Done,
        step_of(phase_after(repeat, steps)) == Step::Send ==> intervals_elapsed(
            repeat,
            phase_after(repeat, steps),
        ) == messages_sent(repeat, phase_after(repeat, steps)) + 1,
        phase_fits(repeat, phase_after(repeat, steps)),
    decreases steps,
{
    if steps > 0 {
        lemma_course(repeat, (steps - 1) as nat);
    }
}

} // verus!
