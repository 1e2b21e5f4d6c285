//! Cooperative shutdown of the two background loops.
//!
//! Each loop owns a `ShutdownToken`, observed once at the top of every
//! iteration; signalling only raises the flag and never interrupts an
//! iteration already in progress. The decision a loop takes each
//! iteration is a pure function of the value it observed, so a signal
//! raised mid-frame takes effect exactly one iteration later.

use vstd::prelude::*;

verus! {

/// A cancellation token: one writer signals, one loop observes. It only
/// gates whether the loop starts another iteration; it carries no data.
pub struct ShutdownToken {
    pub signalled: bool,
}

impl ShutdownToken {
    /// A fresh token, not yet signalled.
    pub fn new() -> (r: Self)
        ensures
            !r.signalled,
    {
        ShutdownToken { signalled: false }
    }

    /// Raise the flag. Idempotent; it never clears again.
    pub fn shutdown(&mut self)
        ensures
            final(self).signalled,
    {
        self.signalled = true;
    }

    /// Observe the flag, leaving it as it is.
    pub fn should_shutdown(&self) -> (r: bool)
        ensures
            r == self.signalled,
    {
        self.signalled
    }
}

/// What the presentation loop does in one iteration, decided solely from
/// the shutdown flag observed at the top of that iteration.
#[derive(Copy, Clone, PartialEq, Eq, Structural, Debug)]
pub enum LoopAction {
    /// Record, submit and present one frame, running to completion even if
    /// the flag is raised meanwhile.
    RenderFrame,
    /// Drain and destroy the frame pipeline, then exit the loop. Taken at
    /// most once per loop.
    ShutdownPipeline,
}

/// Control state of the presentation loop.
pub struct PresentationLoop {
    pub finished: bool,
}

impl PresentationLoop {
    pub fn new() -> (r: Self)
        ensures
            !r.finished,
    {
        PresentationLoop { finished: false }
    }

    /// Decide one iteration from the flag observed at its top: render
    /// while the flag is down; on the first raised observation, tear the
    /// pipeline down exactly once and finish. A finished loop never takes
    /// another step, so `ShutdownPipeline` is taken at most once and no
    /// frame is ever rendered after it.
    pub fn step(&mut self, observed_shutdown: bool) -> (r: LoopAction)
        requires
            !old(self).finished,
        ensures
            r == LoopAction::RenderFrame <==> !observed_shutdown,
            r == LoopAction::ShutdownPipeline <==> observed_shutdown,
            final(self).finished == observed_shutdown,
    {
        if observed_shutdown {
            self.finished = true;
            LoopAction::ShutdownPipeline
        } else {
            LoopAction::RenderFrame
        }
    }

    /// A frame failed to acquire its surface image: fatal, with no retry
    /// policy. The loop finishes — after tearing the pipeline down — and
    /// never decides another iteration.
    pub fn stop_after_failure(&mut self)
        ensures
            final(self).finished,
    {
        self.finished = true;
    }
}

/// Control state of the simulation loop; it owns no resources, so its
/// shutdown path is a plain exit.
pub struct SimulationLoop {
    pub finished: bool,
}

impl SimulationLoop {
    pub fn new() -> (r: Self)
        ensures
            !r.finished,
    {
        SimulationLoop { finished: false }
    }

    /// Decide one iteration: `true` means run one more simulation tick,
    /// `false` means the loop exits now.
    pub fn step(&mut self, observed_shutdown: bool) -> (r: bool)
        requires
            !old(self).finished,
        ensures
            r == !observed_shutdown,
            final(self).finished == observed_shutdown,
    {
        if observed_shutdown {
            self.finished = true;
            false
        } else {
            true
        }
    }
}

} // verus!
