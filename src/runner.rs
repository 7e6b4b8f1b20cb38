//! The cooperative run loop as a state machine: the caller performs each
//! action it is given (step the world, clear the redraw flag and drain the
//! backend) and reports the `running` flag whenever the loop asks.
use vstd::prelude::*;

verus! {

/// Where the loop stands between two actions.
#[derive(Clone, Copy, Debug, PartialEq, Eq, Structural)]
pub enum LoopPhase {
    /// At the top of an iteration, about to look at the `running` flag.
    Check,
    /// The world has been stepped; the drain of this tick is due.
    Stepped,
    /// The loop has ended; nothing more happens.
    Stopped,
}

/// What the caller is to do next.
#[derive(Clone, Copy, Debug, PartialEq, Eq, Structural)]
pub enum LoopAction {
    /// Run one scheduling pass of the world.
    StepWorld,
    /// Clear the `update` flag, then drain the backend's platform events.
    ClearUpdateAndDrain,
    /// Leave the loop.
    Stop,
}

/// One transition: the next phase and the action to perform. The `running`
/// flag is observed only at the top of an iteration.
pub open spec fn loop_step(p: LoopPhase, running: bool) -> (LoopPhase, LoopAction) {
    match p {
        LoopPhase::Check => if running {
            (LoopPhase::Stepped, LoopAction::StepWorld)
        } else {
            (LoopPhase::Stopped, LoopAction::Stop)
        },
        LoopPhase::Stepped => (LoopPhase::Check, LoopAction::ClearUpdateAndDrain),
        LoopPhase::Stopped => (LoopPhase::Stopped, LoopAction::Stop),
    }
}

/// The phase after transitions on the successive flag values `flags`.
pub open spec fn phase_after(p: LoopPhase, flags: Seq<bool>) -> LoopPhase
    decreases flags.len(),
{
    if flags.len() == 0 {
        p
    } else {
        loop_step(phase_after(p, flags.drop_last()), flags.last()).0
    }
}

/// The actions, in order, for the successive flag values `flags`.
pub open spec fn actions_after(p: LoopPhase, flags: Seq<bool>) -> Seq<LoopAction>
    decreases flags.len(),
{
    if flags.len() == 0 {
        Seq::empty()
    } else {
        actions_after(p, flags.drop_last()).push(
            loop_step(phase_after(p, flags.drop_last()), flags.last()).1,
        )
    }
}

/// The loop's state machine, driven by the caller one action at a time.
pub struct OrbitalBackendRunner {
    phase: LoopPhase,
}

impl OrbitalBackendRunner {
    pub closed spec fn spec_phase(&self) -> LoopPhase {
        self.phase
    }

    /// A loop at the top of its first iteration.
    pub fn new() -> (r: Self)
        ensures
            r.spec_phase() == LoopPhase::Check,
    {
        OrbitalBackendRunner { phase: LoopPhase::Check }
    }

    /// The current phase.
    pub fn phase(&self) -> (r: LoopPhase)
        ensures
            r == self.spec_phase(),
    {
        self.phase
    }

    /// Whether the loop has ended.
    pub fn is_stopped(&self) -> (r: bool)
        ensures
            r == (self.spec_phase() == LoopPhase::Stopped),
    {
        match self.phase {
            LoopPhase::Stopped => true,
            _ => false,
        }
    }

    /// Advances the loop, given the current value of the `running` flag, and
    /// says what the caller is to do.
    pub fn next_action(&mut self, running: bool) -> (r: LoopAction)
        ensures
            (final(self).spec_phase(), r) == loop_step(old(self).spec_phase(), running),
    {
        match self.phase {
            LoopPhase::Check => {
                if running {
                    self.phase = LoopPhase::Stepped;
                    LoopAction::StepWorld
                } else {
                    self.phase = LoopPhase::Stopped;
                    LoopAction::Stop
                }
            },
            LoopPhase::Stepped => {
                self.phase = LoopPhase::Check;
                LoopAction::ClearUpdateAndDrain
            },
            LoopPhase::Stopped => LoopAction::Stop,
        }
    }
}

} // verus!
