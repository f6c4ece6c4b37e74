//! A strategy whose back buffer is ordinary memory.

use crate::strategy::BufferAccessStrategy;
use crate::strategy::Geometry;
use drm::buffer::DrmFourcc;
use i_slint_core::platform::PlatformError;
use vstd::prelude::*;

verus! {

/// A buffer-access strategy without a device behind it: the back buffer is a
/// vector of bytes. It serves headless sessions, and it lets the display
/// contract be exercised where no display hardware is at hand.
///
/// A failure can be armed with [`fail_next_acquire`](Self::fail_next_acquire):
/// the next attempt to map the buffer then reports it, once.
pub struct MemoryStrategy {
    size: (u32, u32),
    bytes_per_pixel: u8,
    format: DrmFourcc,
    pixels: Vec<u8>,
    mapped: bool,
    fault: Option<PlatformError>,
}

impl MemoryStrategy {
    /// The failure that the next attempt to map the buffer will report, if one
    /// is armed.
    pub closed spec fn armed_failure(&self) -> Option<PlatformError> {
        self.fault
    }

    /// A strategy for a panel of `width` by `height` pixels over the buffer
    /// `pixels`, unmapped and with no failure armed.
    pub fn new(
        width: u32,
        height: u32,
        bytes_per_pixel: u8,
        format: DrmFourcc,
        pixels: Vec<u8>,
    ) -> (s: Self)
        ensures
            s.geometry() == (Geometry { size: (width, height), bytes_per_pixel, format }),
            s.back_buffer() == pixels@,
            !s.mapped(),
            s.armed_failure() is None,
    {
        MemoryStrategy {
            size: (width, height),
            bytes_per_pixel,
            format,
            pixels,
            mapped: false,
            fault: None,
        }
    }

    /// Arms `failure`: the next attempt to map the buffer fails with it, and the
    /// one after that is served again.
    pub fn fail_next_acquire(&mut self, failure: PlatformError)
        ensures
            final(self).armed_failure() == Some(failure),
            final(self).geometry() == old(self).geometry(),
            final(self).back_buffer() == old(self).back_buffer(),
            final(self).mapped() == old(self).mapped(),
    {
        self.fault = Some(failure);
    }

    /// The bytes of the back buffer as they stand.
    pub fn pixels(&self) -> (p: &[u8])
        ensures
            p@ == self.back_buffer(),
    {
        self.pixels.as_slice()
    }
}

impl BufferAccessStrategy for MemoryStrategy {
    closed spec fn geometry(&self) -> Geometry {
        Geometry { size: self.size, bytes_per_pixel: self.bytes_per_pixel, format: self.format }
    }

    closed spec fn back_buffer(&self) -> Seq<u8> {
        self.pixels@
    }

    closed spec fn mapped(&self) -> bool {
        self.mapped
    }

    /// Mapping fails exactly when a failure is armed, and then with that
    /// failure.
    open spec fn acquire_outcome(&self, outcome: Result<(), PlatformError>) -> bool {
        match self.armed_failure() {
            Some(e) => outcome == Err::<(), PlatformError>(e),
            None => outcome is Ok,
        }
    }

    fn size(&self) -> (r: (u32, u32)) {
        self.size
    }

    fn bytes_per_pixel(&self) -> (r: u8) {
        self.bytes_per_pixel
    }

    fn format(&self) -> (r: DrmFourcc) {
        self.format
    }

    fn is_mapped(&self) -> (r: bool) {
        self.mapped
    }

    fn acquire(&mut self) -> (r: Result<(), PlatformError>)
        ensures
            final(self).armed_failure() is None,
    {
        match self.fault.take() {
            Some(e) => Err(e),
            None => {
                self.mapped = true;
                Ok(())
            },
        }
    }

    fn view(&mut self) -> (v: &mut [u8])
        ensures
            final(self).armed_failure() == old(self).armed_failure(),
    {
        self.pixels.as_mut_slice()
    }

    fn release(&mut self)
        ensures
            final(self).armed_failure() == old(self).armed_failure(),
    {
        self.mapped = false;
    }

    /// The steps of the provided method, restated so that the contract can
    /// also say what becomes of an armed failure: it is used up.
    fn map_back_buffer<F>(&mut self, render_fn: F) -> (r: Result<(), PlatformError>) where
        F: FnOnce(&mut [u8], u8, DrmFourcc) -> Result<(), PlatformError>,

        ensures
            final(self).armed_failure() is None,
    {
        let bytes_per_pixel = self.bytes_per_pixel();
        let format = self.format();
        let acquired = self.acquire();
        if acquired.is_err() {
            return acquired;
        }
        let view = self.view();
        let rendered = render_fn(view, bytes_per_pixel, format);
        self.release();
        rendered
    }
}

} // verus!
