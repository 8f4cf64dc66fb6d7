use vstd::prelude::*;

use crate::error::AoaError;

verus! {

/// The line-search strategy that proposes each optimizer step.
#[derive(Debug, Clone, Copy, PartialEq, Eq)]
pub enum LineSearch {
    MoreThuente,
    BacktrackingArmijo,
    BacktrackingWolfe,
    BacktrackingStrongWolfe,
}

/// The driver's configuration: how steps are searched, and how many steps
/// may be taken at most.
#[derive(Debug, Clone, Copy, PartialEq, Eq)]
pub struct LbfgsParameters {
    pub linesearch: LineSearch,
    pub max_iterations: u32,
}

/// The step cap used when no parameters are given.
pub const DEFAULT_MAX_ITERATIONS: u32 = 100;

impl Default for LbfgsParameters {
    fn default() -> (r: LbfgsParameters)
        ensures
            r.linesearch == LineSearch::MoreThuente,
            r.max_iterations == DEFAULT_MAX_ITERATIONS,
    {
        LbfgsParameters { linesearch: LineSearch::MoreThuente, max_iterations: DEFAULT_MAX_ITERATIONS }
    }
}

/// Where the optimization loop stands.
#[derive(Debug, Clone, Copy, PartialEq, Eq)]
pub enum Phase {
    /// Holds the starting point; nothing was evaluated yet.
    Initialized,
    /// Waits for the objective and gradients at the current point.
    Evaluating,
    /// Waits for the line search to accept a step.
    Stepping,
    /// The convergence test held.
    Converged,
    /// The step cap was used up before the convergence test held.
    MaxIter,
    /// An engine call failed.
    Failed,
}

/// What the loop around the driver reports.
#[derive(Debug, Clone, PartialEq, Eq)]
pub enum Event {
    /// The loop begins.
    Started,
    /// Objective and gradients were computed; `converged` tells whether the
    /// convergence test on them held.
    Evaluated { converged: bool },
    /// The line search accepted a step, and the parameters were updated.
    StepAccepted,
    /// An engine call failed with this error.
    EngineFailed(AoaError),
}

/// What the loop around the driver must do next.
#[derive(Debug, Clone, PartialEq, Eq)]
pub enum Action {
    /// Compute objective and gradients at the current parameters.
    Evaluate,
    /// Ask the line search for a step.
    SearchStep,
    /// Stop and report the result.
    Finish,
    /// Stop and report this error.
    Abort(AoaError),
}

/// How an optimization ended without failure.
#[derive(Debug, Clone, Copy, PartialEq, Eq)]
pub enum Termination {
    Converged,
    MaxIter,
}

/// The final parameters and objective of a run, with how it ended and how
/// many steps it took.
#[derive(Debug, Clone, PartialEq, Eq)]
pub struct OptimizationResult<P> {
    pub betas: Vec<P>,
    pub gammas: Vec<P>,
    pub value: P,
    pub termination: Termination,
    pub iterations: u32,
}

/// The decisions of the optimization loop, as a state machine that never
/// calls the engine itself.
#[derive(Debug, Clone, Copy, PartialEq, Eq)]
pub struct Driver {
    pub phase: Phase,
    pub iterations: u32,
    pub max_iterations: u32,
}

impl Driver {
    /// The step count never passes the cap, and a step is only searched for
    /// while one is left.
    pub open spec fn wf(self) -> bool {
        &&& self.iterations <= self.max_iterations
        &&& self.phase == Phase::Stepping ==> self.iterations < self.max_iterations
    }

    /// Whether `e` is an event that the driver waits for in its phase.
    pub open spec fn accepts(self, e: Event) -> bool {
        match self.phase {
            Phase::Initialized => e is Started || e is EngineFailed,
            Phase::Evaluating => e is Evaluated || e is EngineFailed,
            Phase::Stepping => e is StepAccepted || e is EngineFailed,
            _ => false,
        }
    }

    /// The driver after event `e`.
    pub open spec fn next(self, e: Event) -> Driver {
        match e {
            Event::Started => Driver { phase: Phase::Evaluating, ..self },
            Event::Evaluated { converged } => {
                if converged {
                    Driver { phase: Phase::Converged, ..self }
                } else if self.iterations >= self.max_iterations {
                    Driver { phase: Phase::MaxIter, ..self }
                } else {
                    Driver { phase: Phase::Stepping, ..self }
                }
            },
            Event::StepAccepted => Driver {
                phase: Phase::Evaluating,
                iterations: (self.iterations + 1) as u32,
                ..self
            },
            Event::EngineFailed(_) => Driver { phase: Phase::Failed, ..self },
        }
    }

    /// What the driver asks for after event `e`.
    pub open spec fn action(self, e: Event) -> Action {
        match e {
            Event::EngineFailed(err) => Action::Abort(err),
            _ => {
                let n = self.next(e);
                if n.phase == Phase::Evaluating {
                    Action::Evaluate
                } else if n.phase == Phase::Stepping {
                    Action::SearchStep
                } else {
                    Action::Finish
                }
            },
        }
    }

    /// An upper bound on the number of events still to come.
    pub open spec fn measure(self) -> nat {
        let left = (self.max_iterations - self.iterations) as nat;
        match self.phase {
            Phase::Initialized => 2 * left + 2,
            Phase::Evaluating => 2 * left + 1,
            Phase::Stepping => 2 * left,
            _ => 0,
        }
    }

    /// The driver after a sequence of events, in order.
    pub open spec fn run(self, events: Seq<Event>) -> Driver
        decreases events.len(),
    {
        if events.len() == 0 {
            self
        } else {
            self.next(events[0]).run(events.drop_first())
        }
    }

    /// Whether each event is one the driver waits for when it comes.
    pub open spec fn accepts_all(self, events: Seq<Event>) -> bool
        decreases events.len(),
    {
        events.len() == 0 || (self.accepts(events[0]) && self.next(events[0]).accepts_all(
            events.drop_first(),
        ))
    }

    /// A driver at the starting point, with the cap of `parameters`.
    pub fn new(parameters: &LbfgsParameters) -> (r: Driver)
        ensures
            r.phase == Phase::Initialized,
            r.iterations == 0,
            r.max_iterations == parameters.max_iterations,
            r.wf(),
    {
        Driver { phase: Phase::Initialized, iterations: 0, max_iterations: parameters.max_iterations }
    }

    /// Whether `e` is an event that the driver waits for.
    pub fn accepts_event(&self, e: &Event) -> (r: bool)
        ensures
            r == self.accepts(*e),
    {
        match self.phase {
            Phase::Initialized => matches!(e, Event::Started) || matches!(e, Event::EngineFailed(_)),
            Phase::Evaluating => matches!(e, Event::Evaluated { .. }) || matches!(e, Event::EngineFailed(_)),
            Phase::Stepping => matches!(e, Event::StepAccepted) || matches!(e, Event::EngineFailed(_)),
            _ => false,
        }
    }

    /// Takes event `e` and says what to do next.
    pub fn step(&mut self, e: Event) -> (a: Action)
        requires
            old(self).wf(),
            old(self).accepts(e),
        ensures
            *final(self) == old(self).next(e),
            a == old(self).action(e),
            final(self).wf(),
            final(self).measure() < old(self).measure(),
    {
        match e {
            Event::Started => {
                self.phase = Phase::Evaluating;
                Action::Evaluate
            },
            Event::Evaluated { converged } => {
                if converged {
                    self.phase = Phase::Converged;
                    Action::Finish
                } else if self.iterations >= self.max_iterations {
                    self.phase = Phase::MaxIter;
                    Action::Finish
                } else {
                    self.phase = Phase::Stepping;
                    Action::SearchStep
                }
            },
            Event::StepAccepted => {
                self.iterations = self.iterations + 1;
                self.phase = Phase::Evaluating;
                Action::Evaluate
            },
            Event::EngineFailed(err) => {
                self.phase = Phase::Failed;
                Action::Abort(err)
            },
        }
    }

    /// The result of a run that ended without failure, at the final point
    /// `betas`, `gammas` with objective `value`.
    pub fn finish<P>(&self, betas: Vec<P>, gammas: Vec<P>, value: P) -> (r: OptimizationResult<P>)
        requires
            self.phase == Phase::Converged || self.phase == Phase::MaxIter,
        ensures
            r.betas == betas,
            r.gammas == gammas,
            r.value == value,
            r.iterations == self.iterations,
            r.termination == Termination::Converged <==> self.phase == Phase::Converged,
    {
        let termination = if matches!(self.phase, Phase::Converged) {
            Termination::Converged
        } else {
            Termination::MaxIter
        };
        OptimizationResult { betas, gammas, value, termination, iterations: self.iterations }
    }
}

/// Termination: from any well-formed driver, a sequence of events that the
/// driver accepts is no longer than its measure, and the step count never
/// passes the cap.
pub proof fn lemma_driver_terminates(d: Driver, events: Seq<Event>)
    requires
        d.wf(),
        d.accepts_all(events),
    ensures
        events.len() <= d.measure(),
        d.run(events).wf(),
        d.run(events).iterations <= d.max_iterations,
    decreases events.len(),
{
    if events.len() > 0 {
        let n = d.next(events[0]);
        lemma_driver_terminates(n, events.drop_first());
    }
}

/// A fresh driver accepts at most `2 * cap + 2` events, and takes at most
/// `cap` steps.
pub proof fn lemma_fresh_driver_bounded(cap: u32, events: Seq<Event>)
    requires
        (Driver { phase: Phase::Initialized, iterations: 0, max_iterations: cap }).accepts_all(events),
    ensures
        events.len() <= 2 * cap + 2,
        (Driver { phase: Phase::Initialized, iterations: 0, max_iterations: cap }).run(events).iterations <= cap,
{
    lemma_driver_terminates(Driver { phase: Phase::Initialized, iterations: 0, max_iterations: cap }, events);
}

/// Determinism: two drivers in the same state that see the same events end in
/// the same state.
pub proof fn lemma_driver_deterministic(d1: Driver, d2: Driver, events: Seq<Event>)
    requires
        d1 == d2,
    ensures
        d1.run(events) == d2.run(events),
    decreases events.len(),
{
    if events.len() > 0 {
        lemma_driver_deterministic(d1.next(events[0]), d2.next(events[0]), events.drop_first());
    }
}

} // verus!
