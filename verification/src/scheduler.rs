//! Sampling scheduler: what the handler of the sensor's data-ready interrupt
//! does, in which order, and who holds the telemetry channel meanwhile.
//!
//! One invocation of the handler is one cycle: [`Scheduler::begin`], the
//! estimator's attempt, [`Scheduler::deliver`], [`Scheduler::reinstate`] if
//! the channel went out for a send, and [`Scheduler::finish`]. Each step tells
//! the caller what to do with the devices; the caller does it and comes back
//! with the result. A step called out of turn does nothing and says so, which
//! also keeps a second invocation from entering while one is in progress.

use vstd::prelude::*;

verus! {

/// Where the scheduler stands within a cycle.
#[derive(Clone, Copy, Debug, PartialEq, Eq, Structural)]
pub enum Phase {
    /// Between two data-ready events.
    Idle,
    /// An event is being handled and the estimator's outcome is awaited.
    Estimating,
    /// The channel is out of its slot for a send; its successor is awaited.
    Sending,
    /// The outcome is dealt with; only the exit is left.
    Closing,
}

/// One thing that a cycle asks of the devices.
#[derive(Clone, Copy, Debug, PartialEq, Eq, Structural)]
pub enum Directive {
    /// Acknowledge the data-ready event.
    Acknowledge,
    /// Set the debug pin high.
    RaiseDebug,
    /// Call the attitude estimator, once.
    Estimate,
    /// Send the estimate over the telemetry channel.
    Send,
    /// Write the estimate to the log.
    LogEstimate,
    /// Write the estimator's error to the log.
    LogError,
    /// Set the debug pin low.
    LowerDebug,
    /// Clear the interrupt line's pending flag.
    Unpend,
}

/// What to do with the estimator's outcome.
#[derive(Debug)]
pub enum Delivery<C, A, E> {
    /// Send `estimate` over `channel`, hand the channel that the send returns
    /// to [`Scheduler::reinstate`], then log the estimate.
    Send { channel: C, estimate: A },
    /// No channel is at hand: log the estimate and send nothing.
    LogOnly { estimate: A },
    /// The estimator failed: log the error and send nothing.
    Report { error: E },
}

impl<C, A, E> Delivery<C, A, E> {
    /// What this delivery asks of the devices, in order.
    pub open spec fn script(self) -> Seq<Directive> {
        match self {
            Delivery::Send { .. } => seq![Directive::Send, Directive::LogEstimate],
            Delivery::LogOnly { .. } => seq![Directive::LogEstimate],
            Delivery::Report { .. } => seq![Directive::LogError],
        }
    }
}

/// What every cycle begins with.
pub open spec fn entry_script() -> Seq<Directive> {
    seq![Directive::Acknowledge, Directive::RaiseDebug, Directive::Estimate]
}

/// What every cycle ends with.
pub open spec fn exit_script() -> Seq<Directive> {
    seq![Directive::LowerDebug, Directive::Unpend]
}

/// What a scheduler is: the slot that holds the telemetry channel between
/// sends, and the phase of the cycle.
pub struct SchedulerState<C> {
    pub slot: Option<C>,
    pub phase: Phase,
}

impl<C> SchedulerState<C> {
    /// While the channel is out for a send, the slot is empty.
    pub open spec fn wf(self) -> bool {
        self.phase == Phase::Sending ==> self.slot is None
    }

    /// A telemetry channel belongs to this scheduler: it is in the slot, or
    /// out for a send.
    pub open spec fn equipped(self) -> bool {
        self.phase == Phase::Sending || self.slot is Some
    }

    /// The scheduler after `begin`.
    pub open spec fn begun(self) -> Self {
        if self.phase == Phase::Idle {
            SchedulerState { slot: self.slot, phase: Phase::Estimating }
        } else {
            self
        }
    }

    /// What is done with the estimator's `outcome`: an estimate is sent and
    /// logged where the slot holds a channel and only logged where it holds
    /// none, an error is reported.
    pub open spec fn choice<A, E>(self, outcome: Result<A, E>) -> Delivery<C, A, E> {
        match outcome {
            Ok(estimate) => match self.slot {
                Some(channel) => Delivery::Send { channel, estimate },
                None => Delivery::LogOnly { estimate },
            },
            Err(error) => Delivery::Report { error },
        }
    }

    /// What `deliver` returns for the estimator's `outcome`: the delivery, or
    /// the outcome itself where the call is out of turn.
    pub open spec fn delivery<A, E>(self, outcome: Result<A, E>) -> Result<
        Delivery<C, A, E>,
        Result<A, E>,
    > {
        if self.phase == Phase::Estimating {
            Ok(self.choice(outcome))
        } else {
            Err(outcome)
        }
    }

    /// The scheduler after `deliver`: the channel leaves the slot only for a
    /// send.
    pub open spec fn delivered<A, E>(self, outcome: Result<A, E>) -> Self {
        if self.phase != Phase::Estimating {
            self
        } else if outcome is Ok && self.slot is Some {
            SchedulerState { slot: None, phase: Phase::Sending }
        } else {
            SchedulerState { slot: self.slot, phase: Phase::Closing }
        }
    }

    /// The scheduler after `reinstate`.
    pub open spec fn reinstated(self, channel: C) -> Self {
        if self.phase == Phase::Sending {
            SchedulerState { slot: Some(channel), phase: Phase::Closing }
        } else {
            self
        }
    }

    /// The scheduler after `finish`.
    pub open spec fn finished(self) -> Self {
        if self.phase == Phase::Closing {
            SchedulerState { slot: self.slot, phase: Phase::Idle }
        } else {
            self
        }
    }

    /// The scheduler after one whole cycle for the estimator's `outcome`, in
    /// which a send, if there was one, returned the channel `refreshed`.
    pub open spec fn cycled<A, E>(self, outcome: Result<A, E>, refreshed: C) -> Self {
        let delivered = self.begun().delivered(outcome);
        if delivered.phase == Phase::Sending {
            delivered.reinstated(refreshed).finished()
        } else {
            delivered.finished()
        }
    }

    /// Everything that this cycle asks of the devices, in order.
    pub open spec fn cycle_script<A, E>(self, outcome: Result<A, E>) -> Seq<Directive> {
        entry_script() + self.choice(outcome).script() + exit_script()
    }
}

/// The scheduler of the data-ready interrupt, owner of the telemetry slot.
pub struct Scheduler<C> {
    slot: Option<C>,
    phase: Phase,
}

impl<C> View for Scheduler<C> {
    type V = SchedulerState<C>;

    closed spec fn view(&self) -> SchedulerState<C> {
        SchedulerState { slot: self.slot, phase: self.phase }
    }
}

impl<C> Scheduler<C> {
    #[verifier::type_invariant]
    spec fn type_inv(self) -> bool {
        self@.wf()
    }

    /// An idle scheduler whose slot holds `channel`, or nothing.
    pub fn new(channel: Option<C>) -> (scheduler: Scheduler<C>)
        ensures
            scheduler@ == (SchedulerState { slot: channel, phase: Phase::Idle }),
    {
        Scheduler { slot: channel, phase: Phase::Idle }
    }

    /// Where the scheduler stands.
    pub fn phase(&self) -> (phase: Phase)
        ensures
            phase == self@.phase,
            self@.wf(),
    {
        proof {
            use_type_invariant(self);
        }
        self.phase
    }

    /// Whether the slot holds a channel.
    pub fn holds_channel(&self) -> (held: bool)
        ensures
            held == self@.slot is Some,
    {
        self.slot.is_some()
    }

    /// Entry of the handler. From [`Phase::Idle`] the cycle begins and the
    /// caller is to carry out the entry script; in any other phase a cycle is
    /// in progress, and nothing is to be done.
    pub fn begin(&mut self) -> (script: Option<[Directive; 3]>)
        ensures
            script is Some <==> old(self)@.phase == Phase::Idle,
            script matches Some(directives) ==> directives@ == entry_script(),
            final(self)@ == old(self)@.begun(),
    {
        proof {
            use_type_invariant(&*self);
        }
        match self.phase {
            Phase::Idle => {
                self.phase = Phase::Estimating;
                let directives = [Directive::Acknowledge, Directive::RaiseDebug, Directive::Estimate];
                assert(directives@ =~= entry_script());
                Some(directives)
            },
            _ => None,
        }
    }

    /// Takes the estimator's outcome and says what to do with it.
    ///
    /// An estimate goes to telemetry and to the log; for the send the channel
    /// leaves the slot, and the scheduler waits for its successor. With an
    /// empty slot the estimate is only logged. An error is only logged, and
    /// the channel stays where it is. Out of turn, the outcome is handed
    /// back.
    pub fn deliver<A, E>(&mut self, outcome: Result<A, E>) -> (r: Result<
        Delivery<C, A, E>,
        Result<A, E>,
    >)
        ensures
            r == old(self)@.delivery(outcome),
            final(self)@ == old(self)@.delivered(outcome),
    {
        proof {
            use_type_invariant(&*self);
        }
        match self.phase {
            Phase::Estimating => {},
            _ => {
                return Err(outcome);
            },
        }
        match outcome {
            Ok(estimate) => {
                let mut held = Scheduler { slot: None, phase: Phase::Closing };
                core::mem::swap(self, &mut held);
                match held.slot {
                    Some(channel) => {
                        self.phase = Phase::Sending;
                        Ok(Delivery::Send { channel, estimate })
                    },
                    None => Ok(Delivery::LogOnly { estimate }),
                }
            },
            Err(error) => {
                self.phase = Phase::Closing;
                Ok(Delivery::Report { error })
            },
        }
    }

    /// Puts the channel that a send returned into the slot. Out of turn, the
    /// channel is handed back.
    pub fn reinstate(&mut self, channel: C) -> (r: Result<(), C>)
        ensures
            r == (if old(self)@.phase == Phase::Sending {
                Ok::<(), C>(())
            } else {
                Err::<(), C>(channel)
            }),
            final(self)@ == old(self)@.reinstated(channel),
    {
        proof {
            use_type_invariant(&*self);
        }
        match self.phase {
            Phase::Sending => {
                *self = Scheduler { slot: Some(channel), phase: Phase::Closing };
                Ok(())
            },
            _ => Err(channel),
        }
    }

    /// Exit of the handler. From [`Phase::Closing`] the cycle ends and the
    /// caller is to carry out the exit script; in any other phase nothing is
    /// to be done.
    pub fn finish(&mut self) -> (script: Option<[Directive; 2]>)
        ensures
            script is Some <==> old(self)@.phase == Phase::Closing,
            script matches Some(directives) ==> directives@ == exit_script(),
            final(self)@ == old(self)@.finished(),
    {
        proof {
            use_type_invariant(&*self);
        }
        match self.phase {
            Phase::Closing => {
                self.phase = Phase::Idle;
                let directives = [Directive::LowerDebug, Directive::Unpend];
                assert(directives@ =~= exit_script());
                Some(directives)
            },
            _ => None,
        }
    }
}

/// Every cycle asks the same things of the interrupt line, the debug pin and
/// the estimator, whatever the outcome and whether or not a channel is at
/// hand: the event is acknowledged first, then the debug pin goes high, then
/// the estimator is called; the debug pin goes low next to last, and the
/// pending flag is cleared last. Each of the five is asked once. So the flag
/// is cleared exactly once per cycle, and the debug pin is high around
/// exactly one attempt of the estimator.
pub proof fn lemma_cycle_brackets_one_attempt<C, A, E>(
    s: SchedulerState<C>,
    outcome: Result<A, E>,
)
    ensures
        ({
            let script = s.cycle_script(outcome);
            &&& 6 <= script.len() <= 7
            &&& forall|i: int|
                0 <= i < script.len() ==> (script[i] == Directive::Acknowledge <==> i == 0)
            &&& forall|i: int|
                0 <= i < script.len() ==> (script[i] == Directive::RaiseDebug <==> i == 1)
            &&& forall|i: int|
                0 <= i < script.len() ==> (script[i] == Directive::Estimate <==> i == 2)
            &&& forall|i: int|
                0 <= i < script.len() ==> (script[i] == Directive::LowerDebug <==> i
                    == script.len() - 2)
            &&& forall|i: int|
                0 <= i < script.len() ==> (script[i] == Directive::Unpend <==> i == script.len()
                    - 1)
        }),
{
}

/// What lies between the estimator's attempt and the exit depends on the
/// outcome alone, but for the send: an estimate is logged, and sent before
/// that if the slot holds a channel; an error is logged, and nothing is sent.
pub proof fn lemma_cycle_delivers_by_outcome<C, A, E>(s: SchedulerState<C>, outcome: Result<A, E>)
    ensures
        s.cycle_script(outcome).subrange(3, s.cycle_script(outcome).len() - 2) == (
        if outcome is Err {
            seq![Directive::LogError]
        } else if s.slot is Some {
            seq![Directive::Send, Directive::LogEstimate]
        } else {
            seq![Directive::LogEstimate]
        }),
{
}

/// No step loses a channel or makes one up: each leaves a valid scheduler
/// with a channel if and only if it had one, and the scheduler cannot be
/// idle while its channel is out.
pub proof fn lemma_steps_keep_channel<C, A, E>(
    s: SchedulerState<C>,
    outcome: Result<A, E>,
    channel: C,
)
    requires
        s.wf(),
    ensures
        s.begun().wf() && s.begun().equipped() == s.equipped(),
        s.delivered(outcome).wf() && s.delivered(outcome).equipped() == s.equipped(),
        s.finished().wf() && s.finished().equipped() == s.equipped(),
        s.reinstated(channel).wf(),
        s.phase == Phase::Sending ==> s.reinstated(channel).equipped(),
        s.phase != Phase::Sending ==> s.reinstated(channel) == s,
        s.phase == Phase::Idle ==> (s.slot is Some <==> s.equipped()),
{
}

/// After a whole cycle the scheduler is idle again and its slot holds
/// exactly what belongs there: the channel that the send returned where the
/// estimate was sent, the channel it held before where nothing was sent, and
/// nothing only where it held nothing before. A cycle that failed leaves the
/// scheduler as it found it, ready for the next event.
pub proof fn lemma_cycle_keeps_slot<C, A, E>(
    s: SchedulerState<C>,
    outcome: Result<A, E>,
    refreshed: C,
)
    requires
        s.wf(),
        s.phase == Phase::Idle,
    ensures
        s.cycled(outcome, refreshed).phase == Phase::Idle,
        s.cycled(outcome, refreshed).wf(),
        s.cycled(outcome, refreshed).slot == (match s.slot {
            Some(held) => Some(
                if outcome is Ok {
                    refreshed
                } else {
                    held
                },
            ),
            None => None::<C>,
        }),
        outcome is Err ==> s.cycled(outcome, refreshed) == s,
{
}

} // verus!
