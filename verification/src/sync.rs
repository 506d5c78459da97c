//! Host/device coherency tracking.
//!
//! A [`GpuSync`] is attached to a CPU-visible resource and records which
//! side, host or device, last wrote the authoritative copy.  Its view is
//! `None` when both copies agree (clean), `Some(Cpu)` when the host copy is
//! newer and a host-to-device flush is owed, and `Some(Gpu)` when the device
//! copy is newer and a device-to-host pull is owed.  At most one side can be
//! marked newer at a time: marking one side clears the other.

use vstd::prelude::*;

verus! {

/// Which side last wrote a tracked resource.
#[derive(Clone, Copy, Debug, PartialEq, Eq, Structural)]
pub enum GpuSyncState {
    /// The host (CPU) copy is authoritative.
    Cpu,
    /// The device (GPU) copy is authoritative.
    Gpu,
}

impl GpuSyncState {
    /// True exactly of [`GpuSyncState::Cpu`].
    pub fn is_cpu(self) -> (r: bool)
        ensures
            r == (self == GpuSyncState::Cpu),
    {
        match self {
            GpuSyncState::Cpu => true,
            GpuSyncState::Gpu => false,
        }
    }

    /// True exactly of [`GpuSyncState::Gpu`].
    pub fn is_gpu(self) -> (r: bool)
        ensures
            r == (self == GpuSyncState::Gpu),
    {
        match self {
            GpuSyncState::Cpu => false,
            GpuSyncState::Gpu => true,
        }
    }
}

/// The coherency tracker itself.
///
/// Its view is the pending synchronization direction, if any.
pub struct GpuSync {
    changed: bool,
    is_cpu: bool,
}

impl View for GpuSync {
    type V = Option<GpuSyncState>;

    closed spec fn view(&self) -> Option<GpuSyncState> {
        if self.changed {
            if self.is_cpu {
                Some(GpuSyncState::Cpu)
            } else {
                Some(GpuSyncState::Gpu)
            }
        } else {
            None
        }
    }
}

impl GpuSync {
    /// Creates a tracker with the given pending direction, or a clean one.
    pub fn new(state: Option<GpuSyncState>) -> (r: Self)
        ensures
            r@ == state,
    {
        let changed = state.is_some();
        let is_cpu = match state {
            Some(state) => state.is_cpu(),
            None => false,
        };
        GpuSync { changed, is_cpu }
    }

    /// Records that the given side has the newer copy, clearing any mark on
    /// the other side.
    pub fn mark_changed(&mut self, state: GpuSyncState)
        ensures
            final(self)@ == Some(state),
    {
        self.changed = true;
        self.is_cpu = state.is_cpu();
    }

    /// Records that the host copy is newer.
    pub fn mark_cpu(&mut self)
        ensures
            final(self)@ == Some(GpuSyncState::Cpu),
    {
        self.mark_changed(GpuSyncState::Cpu);
    }

    /// Records that the device copy is newer.
    pub fn mark_gpu(&mut self)
        ensures
            final(self)@ == Some(GpuSyncState::Gpu),
    {
        self.mark_changed(GpuSyncState::Gpu);
    }

    /// Records that both copies agree again; only valid once the owed
    /// synchronization has completed.
    pub fn mark_unchanged(&mut self)
        ensures
            final(self)@ is None,
    {
        self.changed = false;
    }

    /// The pending synchronization direction, if any.
    pub fn state(&self) -> (r: Option<GpuSyncState>)
        ensures
            r == self@,
    {
        if self.changed {
            if self.is_cpu {
                Some(GpuSyncState::Cpu)
            } else {
                Some(GpuSyncState::Gpu)
            }
        } else {
            None
        }
    }

    /// True exactly when a host-to-device flush is owed.
    pub fn is_changed_cpu(&self) -> (r: bool)
        ensures
            r == (self@ == Some(GpuSyncState::Cpu)),
    {
        self.changed && self.is_cpu
    }

    /// True exactly when a device-to-host pull is owed.
    pub fn is_changed_gpu(&self) -> (r: bool)
        ensures
            r == (self@ == Some(GpuSyncState::Gpu)),
    {
        self.changed && !self.is_cpu
    }
}

/// The two dirty marks are mutually exclusive: no tracker state owes both a
/// flush and a pull.
pub proof fn lemma_dirty_marks_exclusive(sync: GpuSync)
    ensures
        !(sync@ == Some(GpuSyncState::Cpu) && sync@ == Some(GpuSyncState::Gpu)),
{
}

} // verus!
