//! The strategy of a session: one of exactly two, chosen once.

use crate::strategy::BufferAccessStrategy;
use crate::strategy::Geometry;
use drm::buffer::DrmFourcc;
use i_slint_core::platform::PlatformError;
use vstd::prelude::*;

verus! {

/// Names one of the two buffer-access strategies.
#[derive(Clone, Copy, Debug, PartialEq, Eq, Structural)]
pub enum Strategy {
    /// The primary strategy: a dumb buffer allocated through the modesetting
    /// device.
    DumbBuffer,
    /// The fallback strategy: the memory of the legacy framebuffer device.
    LegacyFramebuffer,
}

/// The strategy that backs a session: a dumb-buffer strategy of type `P` or a
/// legacy framebuffer strategy of type `L`.
pub enum ActiveStrategy<P, L> {
    /// The primary strategy.
    DumbBuffer(P),
    /// The fallback strategy.
    LegacyFramebuffer(L),
}

impl<P, L> ActiveStrategy<P, L> {
    /// Which of the two strategies this is.
    pub open spec fn spec_kind(&self) -> Strategy {
        match self {
            ActiveStrategy::DumbBuffer(_) => Strategy::DumbBuffer,
            ActiveStrategy::LegacyFramebuffer(_) => Strategy::LegacyFramebuffer,
        }
    }

    /// Which of the two strategies this is.
    pub fn kind(&self) -> (k: Strategy)
        ensures
            k == self.spec_kind(),
    {
        match self {
            ActiveStrategy::DumbBuffer(_) => Strategy::DumbBuffer,
            ActiveStrategy::LegacyFramebuffer(_) => Strategy::LegacyFramebuffer,
        }
    }
}

/// Every operation goes to the strategy that was chosen, and none of them
/// changes which one that is.
impl<P: BufferAccessStrategy, L: BufferAccessStrategy> BufferAccessStrategy for ActiveStrategy<
    P,
    L,
> {
    open spec fn geometry(&self) -> Geometry {
        match self {
            ActiveStrategy::DumbBuffer(p) => p.geometry(),
            ActiveStrategy::LegacyFramebuffer(l) => l.geometry(),
        }
    }

    open spec fn back_buffer(&self) -> Seq<u8> {
        match self {
            ActiveStrategy::DumbBuffer(p) => p.back_buffer(),
            ActiveStrategy::LegacyFramebuffer(l) => l.back_buffer(),
        }
    }

    open spec fn mapped(&self) -> bool {
        match self {
            ActiveStrategy::DumbBuffer(p) => p.mapped(),
            ActiveStrategy::LegacyFramebuffer(l) => l.mapped(),
        }
    }

    open spec fn acquire_outcome(&self, outcome: Result<(), PlatformError>) -> bool {
        match self {
            ActiveStrategy::DumbBuffer(p) => p.acquire_outcome(outcome),
            ActiveStrategy::LegacyFramebuffer(l) => l.acquire_outcome(outcome),
        }
    }

    fn size(&self) -> (r: (u32, u32)) {
        match self {
            ActiveStrategy::DumbBuffer(p) => p.size(),
            ActiveStrategy::LegacyFramebuffer(l) => l.size(),
        }
    }

    fn bytes_per_pixel(&self) -> (r: u8) {
        match self {
            ActiveStrategy::DumbBuffer(p) => p.bytes_per_pixel(),
            ActiveStrategy::LegacyFramebuffer(l) => l.bytes_per_pixel(),
        }
    }

    fn format(&self) -> (r: DrmFourcc) {
        match self {
            ActiveStrategy::DumbBuffer(p) => p.format(),
            ActiveStrategy::LegacyFramebuffer(l) => l.format(),
        }
    }

    fn is_mapped(&self) -> (r: bool) {
        match self {
            ActiveStrategy::DumbBuffer(p) => p.is_mapped(),
            ActiveStrategy::LegacyFramebuffer(l) => l.is_mapped(),
        }
    }

    fn acquire(&mut self) -> (r: Result<(), PlatformError>)
        ensures
            final(self).spec_kind() == old(self).spec_kind(),
    {
        match self {
            ActiveStrategy::DumbBuffer(p) => p.acquire(),
            ActiveStrategy::LegacyFramebuffer(l) => l.acquire(),
        }
    }

    fn view(&mut self) -> (v: &mut [u8])
        ensures
            final(self).spec_kind() == old(self).spec_kind(),
    {
        match self {
            ActiveStrategy::DumbBuffer(p) => p.view(),
            ActiveStrategy::LegacyFramebuffer(l) => l.view(),
        }
    }

    fn release(&mut self)
        ensures
            final(self).spec_kind() == old(self).spec_kind(),
    {
        match self {
            ActiveStrategy::DumbBuffer(p) => p.release(),
            ActiveStrategy::LegacyFramebuffer(l) => l.release(),
        }
    }

    fn map_back_buffer<F>(&mut self, render_fn: F) -> (r: Result<(), PlatformError>) where
        F: FnOnce(&mut [u8], u8, DrmFourcc) -> Result<(), PlatformError>,

        ensures
            final(self).spec_kind() == old(self).spec_kind(),
    {
        match self {
            ActiveStrategy::DumbBuffer(p) => {
                assert(p.geometry() == old(self).geometry());
                p.map_back_buffer(render_fn)
            },
            ActiveStrategy::LegacyFramebuffer(l) => {
                assert(l.geometry() == old(self).geometry());
                l.map_back_buffer(render_fn)
            },
        }
    }
}

} // verus!
