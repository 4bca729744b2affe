//! The lock-free surface-resize state machine.
//!
//! A presentation surface must not be reconfigured while GPU work that
//! still references the old configuration may be executing, yet the
//! window system reports resizes independently of GPU completion. The
//! machine here decouples the intent to resize from the moment it is
//! safe to act on it: `resize` records the intent and the target size,
//! the GPU queue's completion callback performs `work_done` once all
//! previously submitted work has finished, and the rendering thread's
//! next `get` then performs exactly one reconfiguration. `get` never
//! blocks: while the resize is still queued it answers "not ready" and
//! the tick simply skips its frame.
//!
//! The embedding owns the actual surface and mirrors this state in one
//! atomic cell (`encode`/`decode` give the transport); every other
//! field is written by the rendering thread alone.

use vstd::prelude::*;

use super::WindowSize;

verus! {

/// The tri-state of the resize machinery, encoded as a small integer
/// for atomic storage.
#[derive(Debug, Clone, Copy, PartialEq, Eq, Structural)]
pub enum ResizableSurfaceState {
    /// The surface matches the window; `get` hands it out directly.
    Active,
    /// A resize was requested, and GPU work submitted before the
    /// request may still be running: the surface must not be touched.
    ResizingQueued,
    /// All work from before the resize has completed; the next `get`
    /// reconfigures the surface.
    Inactive,
}

impl ResizableSurfaceState {
    pub open spec fn spec_encode(self) -> u32 {
        match self {
            ResizableSurfaceState::Active => 0,
            ResizableSurfaceState::ResizingQueued => 1,
            ResizableSurfaceState::Inactive => 2,
        }
    }

    pub fn encode(self) -> (v: u32)
        ensures
            v == self.spec_encode(),
            v <= 2,
    {
        match self {
            ResizableSurfaceState::Active => 0,
            ResizableSurfaceState::ResizingQueued => 1,
            ResizableSurfaceState::Inactive => 2,
        }
    }

    /// Inverse of `encode`. Only encoded states ever enter the atomic
    /// cell, so values above 2 are excluded rather than given a meaning.
    pub fn decode(value: u32) -> (s: Self)
        requires
            value <= 2,
        ensures
            s.spec_encode() == value,
    {
        match value {
            0 => ResizableSurfaceState::Active,
            1 => ResizableSurfaceState::ResizingQueued,
            _ => ResizableSurfaceState::Inactive,
        }
    }
}

/// What one redraw tick may do with the surface.
#[derive(Debug, Clone, Copy, PartialEq, Eq, Structural)]
pub enum SurfaceAccess {
    /// A resize is still pending: skip the frame, retry next tick.
    NotReady,
    /// Render straight into the surface.
    Ready,
    /// Reconfigure the surface to the carried size, then render.
    Reconfigure(WindowSize),
}

/// The resize state machine of one presentation surface.
pub struct ResizableSurface {
    state: ResizableSurfaceState,
    new_size: WindowSize,
}

impl ResizableSurface {
    pub closed spec fn spec_state(self) -> ResizableSurfaceState {
        self.state
    }

    /// The size the next reconfiguration will use.
    pub closed spec fn spec_pending_size(self) -> WindowSize {
        self.new_size
    }

    /// The machine as first built: active, no resize recorded.
    pub closed spec fn spec_new() -> ResizableSurface {
        ResizableSurface {
            state: ResizableSurfaceState::Active,
            new_size: WindowSize { width: 0, height: 0 },
        }
    }

    /// The state after the window reports a new size.
    pub closed spec fn spec_after_resize(self, size: WindowSize) -> ResizableSurface {
        ResizableSurface { state: ResizableSurfaceState::ResizingQueued, new_size: size }
    }

    /// The state after the queue's completion callback has run: its
    /// compare-and-swap only fires while the resize is still queued.
    pub closed spec fn spec_after_work_done(self) -> ResizableSurface {
        if self.state is ResizingQueued {
            ResizableSurface { state: ResizableSurfaceState::Inactive, ..self }
        } else {
            self
        }
    }

    /// The state transition and answer of one `get` call.
    pub closed spec fn spec_get_result(self) -> (ResizableSurface, SurfaceAccess) {
        match self.state {
            ResizableSurfaceState::ResizingQueued => (self, SurfaceAccess::NotReady),
            ResizableSurfaceState::Inactive => (
                ResizableSurface { state: ResizableSurfaceState::Active, ..self },
                SurfaceAccess::Reconfigure(self.new_size),
            ),
            ResizableSurfaceState::Active => (self, SurfaceAccess::Ready),
        }
    }

    pub fn new() -> (r: Self)
        ensures
            r == Self::spec_new(),
            r.spec_state() == ResizableSurfaceState::Active,
    {
        ResizableSurface {
            state: ResizableSurfaceState::Active,
            new_size: WindowSize { width: 0, height: 0 },
        }
    }

    /// Records the intent to resize. The caller serializes resize
    /// requests (only the event-loop thread makes them) and re-arms the
    /// GPU queue's completion callback, which will perform `work_done`;
    /// a second resize before the callback fires merely overwrites the
    /// target size, so the callback always observes the latest one.
    pub fn resize(&mut self, new_size: WindowSize)
        ensures
            *final(self) == old(self).spec_after_resize(new_size),
            final(self).spec_state() == ResizableSurfaceState::ResizingQueued,
            final(self).spec_pending_size() == new_size,
    {
        self.state = ResizableSurfaceState::ResizingQueued;
        self.new_size = new_size;
    }

    /// The transition performed by the completion callback once all GPU
    /// work submitted before the resize request has finished: a
    /// compare-and-swap from `ResizingQueued` to `Inactive` that fails
    /// silently in any other state.
    pub fn work_done(&mut self)
        ensures
            *final(self) == old(self).spec_after_work_done(),
            old(self).spec_state() == ResizableSurfaceState::ResizingQueued
                ==> final(self).spec_state() == ResizableSurfaceState::Inactive,
            old(self).spec_state() != ResizableSurfaceState::ResizingQueued ==> *final(self)
                == *old(self),
            final(self).spec_pending_size() == old(self).spec_pending_size(),
    {
        if matches!(self.state, ResizableSurfaceState::ResizingQueued) {
            self.state = ResizableSurfaceState::Inactive;
        }
    }

    /// Asks for the surface for one frame; never blocks. While a resize
    /// is queued the answer is `NotReady` and nothing changes; once the
    /// completion callback has run, the one next call answers
    /// `Reconfigure` with the recorded size and the machine is active
    /// again.
    pub fn get(&mut self) -> (r: SurfaceAccess)
        ensures
            *final(self) == old(self).spec_get_result().0,
            r == old(self).spec_get_result().1,
            old(self).spec_state() == ResizableSurfaceState::ResizingQueued ==> r
                == SurfaceAccess::NotReady && *final(self) == *old(self),
            old(self).spec_state() == ResizableSurfaceState::Inactive ==> r
                == SurfaceAccess::Reconfigure(old(self).spec_pending_size())
                && final(self).spec_state() == ResizableSurfaceState::Active
                && final(self).spec_pending_size() == old(self).spec_pending_size(),
            old(self).spec_state() == ResizableSurfaceState::Active ==> r == SurfaceAccess::Ready
                && *final(self) == *old(self),
    {
        match self.state {
            ResizableSurfaceState::ResizingQueued => SurfaceAccess::NotReady,
            ResizableSurfaceState::Inactive => {
                self.state = ResizableSurfaceState::Active;
                SurfaceAccess::Reconfigure(self.new_size)
            },
            ResizableSurfaceState::Active => SurfaceAccess::Ready,
        }
    }
}

/// While a queued resize is waiting for the GPU, `get` always answers
/// "not ready" and leaves the machine untouched; after the completion
/// callback has run, exactly one `get` reconfigures, to the recorded
/// size, and the machine is active again, so the following `get`
/// answers `Ready` without another reconfiguration.
pub proof fn lemma_resize_completion(s: ResizableSurface, size: WindowSize)
    ensures
        s.spec_after_resize(size).spec_get_result() == (s.spec_after_resize(size),
        SurfaceAccess::NotReady),
        ({
            let settled = s.spec_after_resize(size).spec_after_work_done();
            let (reconfigured, access) = settled.spec_get_result();
            &&& access == SurfaceAccess::Reconfigure(size)
            &&& reconfigured.spec_state() == ResizableSurfaceState::Active
            &&& reconfigured.spec_get_result() == (reconfigured, SurfaceAccess::Ready)
        }),
{
}

} // verus!
