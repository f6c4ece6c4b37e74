//! The leaf-level interface of a buffer-access strategy, and scoped access to
//! its back buffer.

use drm::buffer::DrmFourcc;
use i_slint_core::platform::PlatformError;
use vstd::prelude::*;

verus! {

/// What stays fixed about a display for the whole session: the panel
/// resolution and the pixel layout of the back buffer.
pub struct Geometry {
    /// The panel resolution in pixels, width first.
    pub size: (u32, u32),
    /// The number of bytes that one pixel takes in the back buffer.
    pub bytes_per_pixel: u8,
    /// The tag that names the back buffer's pixel layout.
    pub format: DrmFourcc,
}

/// A way of getting at CPU-addressable pixel memory of one display.
///
/// A strategy owns its device resources for the life of the session. Its back
/// buffer is mapped between a successful [`acquire`](Self::acquire) and the
/// following [`release`](Self::release); the mapping is a single device
/// resource, so at most one is outstanding at any time.
pub trait BufferAccessStrategy: Sized {
    /// The resolution and pixel layout of this display.
    spec fn geometry(&self) -> Geometry;

    /// The bytes of the back buffer, row padding included.
    spec fn back_buffer(&self) -> Seq<u8>;

    /// Whether the back buffer is mapped, that is, whether a view of it is
    /// outstanding.
    spec fn mapped(&self) -> bool;

    /// Whether an attempt to map the back buffer in this state may end in
    /// `outcome`. A device that can fail at any time admits every outcome; a
    /// strategy that knows how the attempt will end admits that outcome alone.
    spec fn acquire_outcome(&self, outcome: Result<(), PlatformError>) -> bool;

    /// The panel resolution in pixels, width first.
    fn size(&self) -> (r: (u32, u32))
        ensures
            r == self.geometry().size,
    ;

    /// The number of bytes that one pixel takes in the back buffer.
    fn bytes_per_pixel(&self) -> (r: u8)
        ensures
            r == self.geometry().bytes_per_pixel,
    ;

    /// The tag that names the back buffer's pixel layout.
    fn format(&self) -> (r: DrmFourcc)
        ensures
            r == self.geometry().format,
    ;

    /// Whether the back buffer is mapped.
    fn is_mapped(&self) -> (r: bool)
        ensures
            r == self.mapped(),
    ;

    /// Maps the back buffer. The buffer must not be mapped already: there is
    /// never more than one view of it. On failure nothing has changed and the
    /// strategy can be asked again later.
    fn acquire(&mut self) -> (r: Result<(), PlatformError>)
        requires
            !old(self).mapped(),
        ensures
            final(self).geometry() == old(self).geometry(),
            final(self).back_buffer() == old(self).back_buffer(),
            final(self).mapped() == r.is_ok(),
            old(self).acquire_outcome(r),
    ;

    /// The mapped back buffer, for writing. What is written through the view is
    /// what the back buffer holds afterwards.
    fn view(&mut self) -> (v: &mut [u8])
        requires
            old(self).mapped(),
        ensures
            v@ == old(self).back_buffer(),
            final(self).back_buffer() == final(v)@,
            final(self).mapped(),
            final(self).geometry() == old(self).geometry(),
    ;

    /// Ends the mapping. The back buffer keeps what was written to it.
    fn release(&mut self)
        requires
            old(self).mapped(),
        ensures
            !final(self).mapped(),
            final(self).back_buffer() == old(self).back_buffer(),
            final(self).geometry() == old(self).geometry(),
    ;

    /// Grants `render_fn` exclusive access to the back buffer for the extent of
    /// the call.
    ///
    /// The routine receives the mapped buffer, the bytes per pixel and the
    /// format tag. The buffer is unmapped again on every path out of the call:
    /// when the routine succeeds, when it fails, and when the buffer could not
    /// be mapped in the first place. So the next call finds it free, and the
    /// size it reads is the size that was read before.
    ///
    /// The result is the routine's own result, unchanged, and the buffer then
    /// holds what the routine wrote, whether it succeeded or not. The one
    /// exception is a buffer that could not be mapped: the result is then the
    /// failure of the mapping, the routine was never run, and the buffer is as
    /// it was.
    fn map_back_buffer<F>(&mut self, render_fn: F) -> (r: Result<(), PlatformError>) where
        F: FnOnce(&mut [u8], u8, DrmFourcc) -> Result<(), PlatformError>,

        requires
            !old(self).mapped(),
            forall|view: &mut [u8]|
                view@ == old(self).back_buffer() ==> #[trigger] render_fn.requires(
                    (view, old(self).geometry().bytes_per_pixel, old(self).geometry().format),
                ),
        ensures
            !final(self).mapped(),
            final(self).geometry() == old(self).geometry(),
            ({
                ||| {
                    &&& r is Err
                    &&& old(self).acquire_outcome(r)
                    &&& final(self).back_buffer() == old(self).back_buffer()
                }
                ||| old(self).acquire_outcome(Ok(())) && exists|view: &mut [u8]|
                    {
                        &&& view@ == old(self).back_buffer()
                        &&& final(view)@ == final(self).back_buffer()
                        &&& #[trigger] render_fn.ensures(
                            (view, old(self).geometry().bytes_per_pixel, old(self).geometry().format),
                            r,
                        )
                    }
            }),
    {
        let bytes_per_pixel = self.bytes_per_pixel();
        let format = self.format();
        let acquired = self.acquire();
        if acquired.is_err() {
            return acquired;
        }
        assert(acquired->Ok_0 == ());
        let view = self.view();
        let rendered = render_fn(view, bytes_per_pixel, format);
        self.release();
        rendered
    }
}

} // verus!
