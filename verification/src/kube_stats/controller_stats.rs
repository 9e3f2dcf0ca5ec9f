//! Per-controller rollup of pod and container counts.

use vstd::prelude::*;

verus! {

/// One step of a counter that stops at the largest `i32`.
pub open spec fn bump(n: i32) -> i32 {
    if n < i32::MAX {
        (n + 1) as i32
    } else {
        n
    }
}

/// One step of a counter that stops at the largest `i32`.
pub fn bumped(n: i32) -> (next: i32)
    ensures
        next == bump(n),
{
    if n < i32::MAX {
        n + 1
    } else {
        n
    }
}

/// Counts of pods and containers that share one controller.
#[derive(Clone, Copy, Debug, PartialEq, Eq, Structural)]
pub struct ControllerStats {
    pub containers_ready: i32,
    pub containers_total: i32,
    pub pods_ready: i32,
    pub pods_total: i32,
}

impl ControllerStats {
    /// The rollup with every count at zero.
    pub open spec fn zero() -> ControllerStats {
        ControllerStats { containers_ready: 0, containers_total: 0, pods_ready: 0, pods_total: 0 }
    }

    /// A rollup with every count at zero.
    pub fn new() -> (stats: Self)
        ensures
            stats == Self::zero(),
    {
        Self { containers_ready: 0, containers_total: 0, pods_ready: 0, pods_total: 0 }
    }

    /// A rollup with every count at zero; the same as [`ControllerStats::new`].
    pub fn build() -> (stats: Self)
        ensures
            stats == Self::zero(),
    {
        Self { containers_ready: 0, containers_total: 0, pods_ready: 0, pods_total: 0 }
    }

    /// Counts one more ready container.
    pub fn inc_containers_ready(&mut self)
        ensures
            *final(self) == (ControllerStats {
                containers_ready: bump(old(self).containers_ready),
                ..*old(self)
            }),
    {
        self.containers_ready = bumped(self.containers_ready);
    }

    /// Counts one more container.
    pub fn inc_containers_total(&mut self)
        ensures
            *final(self) == (ControllerStats {
                containers_total: bump(old(self).containers_total),
                ..*old(self)
            }),
    {
        self.containers_total = bumped(self.containers_total);
    }

    /// Counts one more ready pod.
    pub fn inc_pods_ready(&mut self)
        ensures
            *final(self) == (ControllerStats {
                pods_ready: bump(old(self).pods_ready),
                ..*old(self)
            }),
    {
        self.pods_ready = bumped(self.pods_ready);
    }

    /// Counts one more pod.
    pub fn inc_pods_total(&mut self)
        ensures
            *final(self) == (ControllerStats {
                pods_total: bump(old(self).pods_total),
                ..*old(self)
            }),
    {
        self.pods_total = bumped(self.pods_total);
    }

    /// Takes over the four counts of `value`.
    pub fn copy_stats(&mut self, value: &ControllerStats)
        ensures
            *final(self) == *value,
    {
        self.containers_ready = value.containers_ready;
        self.containers_total = value.containers_total;
        self.pods_ready = value.pods_ready;
        self.pods_total = value.pods_total;
    }
}

} // verus!
