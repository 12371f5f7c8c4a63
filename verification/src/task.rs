//! Cooperative cancellation by generation.
//!
//! A controller numbers the waves of background work it starts. Work carries the handle of
//! its wave and is discarded on arrival once the controller has moved on; nothing is
//! interrupted while it runs.

use vstd::prelude::*;

verus! {

/// Token of one wave of background work.
#[derive(Clone, Copy, Debug, PartialEq, Eq, Structural)]
pub struct TaskHandle {
    pub generation: u64,
}

/// Source of task handles. Only the handle of the latest wave is live, and a controller
/// that has run out of generations keeps every handle canceled.
#[derive(Clone, Copy, Debug, PartialEq, Eq, Structural)]
pub struct TaskController {
    pub generation: u64,
}

impl TaskController {
    /// A controller that has started no wave yet.
    pub fn new() -> (controller: TaskController)
        ensures
            controller.generation == 0,
    {
        TaskController { generation: 0 }
    }

    /// The generation that follows `generation`; the last one follows itself.
    pub open spec fn next_generation(generation: u64) -> u64 {
        if generation < u64::MAX {
            (generation + 1) as u64
        } else {
            generation
        }
    }

    /// Work started under `handle` is no longer wanted.
    pub open spec fn cancels(&self, handle: TaskHandle) -> bool {
        handle.generation != self.generation || self.generation == u64::MAX
    }

    /// Whether work started under `handle` is to be discarded.
    pub fn is_canceled(&self, handle: &TaskHandle) -> (b: bool)
        ensures
            b == self.cancels(*handle),
    {
        handle.generation != self.generation || self.generation == u64::MAX
    }

    /// Cancels all outstanding work.
    pub fn cancel(&mut self)
        ensures
            final(self).generation == Self::next_generation(old(self).generation),
            forall|h: TaskHandle| h.generation <= old(self).generation ==> final(self).cancels(h),
    {
        if self.generation < u64::MAX {
            self.generation = self.generation + 1;
        }
    }

    /// Cancels all outstanding work and starts a new wave. The returned handle is live
    /// unless the generations are used up.
    pub fn restart(&mut self) -> (handle: TaskHandle)
        ensures
            final(self).generation == Self::next_generation(old(self).generation),
            handle.generation == final(self).generation,
            forall|h: TaskHandle| h.generation <= old(self).generation ==> final(self).cancels(h),
            final(self).cancels(handle) <==> final(self).generation == u64::MAX,
    {
        self.cancel();
        TaskHandle { generation: self.generation }
    }
}

} // verus!
