//! The display of a session, as the renderer and the presentation pipeline
//! see it.

use crate::active::ActiveStrategy;
use crate::active::Strategy;
use crate::selector::select;
use crate::strategy::BufferAccessStrategy;
use crate::strategy::Geometry;
use drm::buffer::DrmFourcc;
use i_slint_core::platform::PlatformError;
use std::sync::Arc;
use vstd::prelude::*;
use vstd::rwlock::RwLock;
use vstd::rwlock::RwLockPredicate;

verus! {

/// What a CPU renderer needs of a display: its size, scoped access to its back
/// buffer, and a way to hand it to the presentation pipeline.
///
/// A display is shared: every operation takes it by shared reference, so it
/// has no state that a caller could see change. What the contract can say of
/// a mapping is therefore said of its result alone.
pub trait SoftwareBufferDisplay: Sized {
    /// The resolution and pixel layout of this display, fixed for the session.
    spec fn geometry(&self) -> Geometry;

    /// Whether mapping the back buffer of this display may fail with `e`.
    spec fn mapping_failure(&self, e: PlatformError) -> bool;

    /// The panel resolution in pixels, width first. It is the same on every
    /// call, before and after any number of mappings.
    fn size(&self) -> (r: (u32, u32))
        ensures
            r == self.geometry().size,
    ;

    /// Grants `render_fn` exclusive access to the back buffer for the extent of
    /// the call. A caller that finds the buffer in use waits until it is free,
    /// so a routine must not map the display that it is rendering to.
    ///
    /// The result is the routine's own result, unchanged, unless the buffer
    /// could not be mapped: then it is that failure and the routine was not
    /// run.
    fn map_back_buffer<F>(&self, render_fn: F) -> (r: Result<(), PlatformError>) where
        F: FnOnce(&mut [u8], u8, DrmFourcc) -> Result<(), PlatformError>,

        requires
            forall|view: &mut [u8]| #[trigger]
                render_fn.requires(
                    (view, self.geometry().bytes_per_pixel, self.geometry().format),
                ),
        ensures
            ({
                ||| r matches Err(e) && self.mapping_failure(e)
                ||| exists|view: &mut [u8]| #[trigger]
                    render_fn.ensures(
                        (view, self.geometry().bytes_per_pixel, self.geometry().format),
                        r,
                    )
            }),
    ;

    /// Turns a shared handle to this display into the presentation capability
    /// over the same display. Nothing is copied and nothing is opened again:
    /// the presenter co-owns the display that the handle pointed to, and other
    /// handles to it go on working.
    fn as_presenter(self: Arc<Self>) -> (p: PresenterHandle<Self>)
        ensures
            p.spec_display() == self,
    ;
}

/// The presentation capability over a display: a second interface over the
/// same session, held by the presentation pipeline.
pub struct PresenterHandle<D> {
    display: Arc<D>,
}

impl<D> PresenterHandle<D> {
    /// The display that this presenter co-owns.
    pub closed spec fn spec_display(&self) -> Arc<D> {
        self.display
    }

    /// The presenter over the display behind `display`.
    pub fn new(display: Arc<D>) -> (p: Self)
        ensures
            p.spec_display() == display,
    {
        PresenterHandle { display }
    }

    /// The display that this presenter co-owns.
    pub fn display(&self) -> (d: &Arc<D>)
        ensures
            *d == self.spec_display(),
    {
        &self.display
    }
}

/// What holds of the strategy of a session whenever nobody is working on it:
/// it is the kind of strategy that was chosen, it has the session's geometry,
/// and its back buffer is not mapped.
pub struct SessionInvariant {
    pub kind: Strategy,
    pub geometry: Geometry,
}

impl<P: BufferAccessStrategy, L: BufferAccessStrategy> RwLockPredicate<
    ActiveStrategy<P, L>,
> for SessionInvariant {
    open spec fn inv(self, strategy: ActiveStrategy<P, L>) -> bool {
        &&& strategy.spec_kind() == self.kind
        &&& strategy.geometry() == self.geometry
        &&& !strategy.mapped()
    }
}

/// The display of a session: the strategy that was chosen, behind a lock.
///
/// The lock makes a mapping a critical section. Whoever maps the back buffer
/// holds the strategy exclusively until the mapping is released, so no two
/// views of one display are ever out at the same time, and every holder finds
/// the buffer unmapped.
pub struct ActiveDisplay<P: BufferAccessStrategy, L: BufferAccessStrategy> {
    kind: Strategy,
    size: (u32, u32),
    bytes_per_pixel: u8,
    format: DrmFourcc,
    session: RwLock<ActiveStrategy<P, L>, SessionInvariant>,
}

impl<P: BufferAccessStrategy, L: BufferAccessStrategy> ActiveDisplay<P, L> {
    #[verifier::type_invariant]
    spec fn wf(&self) -> bool {
        self.session.pred() == (SessionInvariant {
            kind: self.kind,
            geometry: Geometry {
                size: self.size,
                bytes_per_pixel: self.bytes_per_pixel,
                format: self.format,
            },
        })
    }

    /// Which strategy backs this display. It never changes.
    pub closed spec fn spec_kind(&self) -> Strategy {
        self.kind
    }

    /// True when this display is one over `strategy`: it is backed by that
    /// kind of strategy and has its geometry.
    pub open spec fn presents(&self, strategy: ActiveStrategy<P, L>) -> bool {
        &&& self.spec_kind() == strategy.spec_kind()
        &&& self.geometry() == strategy.geometry()
    }

    /// The display over `strategy`. A mapping that `strategy` still holds is
    /// released first.
    pub fn new(strategy: ActiveStrategy<P, L>) -> (d: Self)
        ensures
            d.presents(strategy),
    {
        let mut strategy = strategy;
        if strategy.is_mapped() {
            strategy.release();
        }
        let kind = strategy.kind();
        let size = strategy.size();
        let bytes_per_pixel = strategy.bytes_per_pixel();
        let format = strategy.format();
        let session = RwLock::new(
            strategy,
            Ghost(
                SessionInvariant { kind, geometry: Geometry { size, bytes_per_pixel, format } },
            ),
        );
        ActiveDisplay { kind, size, bytes_per_pixel, format, session }
    }

    /// Which strategy backs this display.
    pub fn kind(&self) -> (k: Strategy)
        ensures
            k == self.spec_kind(),
    {
        self.kind
    }

    /// The number of bytes that one pixel takes in the back buffer.
    pub fn bytes_per_pixel(&self) -> (r: u8)
        ensures
            r == self.geometry().bytes_per_pixel,
    {
        self.bytes_per_pixel
    }

    /// The tag that names the back buffer's pixel layout.
    pub fn format(&self) -> (r: DrmFourcc)
        ensures
            r == self.geometry().format,
    {
        self.format
    }
}

impl<P: BufferAccessStrategy, L: BufferAccessStrategy> SoftwareBufferDisplay for ActiveDisplay<
    P,
    L,
> {
    closed spec fn geometry(&self) -> Geometry {
        Geometry { size: self.size, bytes_per_pixel: self.bytes_per_pixel, format: self.format }
    }

    closed spec fn mapping_failure(&self, e: PlatformError) -> bool {
        exists|strategy: ActiveStrategy<P, L>|
            self.session.inv(strategy) && #[trigger] strategy.acquire_outcome(Err(e))
    }

    fn size(&self) -> (r: (u32, u32)) {
        self.size
    }

    fn map_back_buffer<F>(&self, render_fn: F) -> (r: Result<(), PlatformError>) where
        F: FnOnce(&mut [u8], u8, DrmFourcc) -> Result<(), PlatformError>,
     {
        proof {
            use_type_invariant(self);
        }
        let (mut strategy, handle) = self.session.acquire_write();
        let ghost held = strategy;
        assert(held.geometry() == self.geometry());
        let r = strategy.map_back_buffer(render_fn);
        handle.release_write(strategy);
        r
    }

    fn as_presenter(self: Arc<Self>) -> (p: PresenterHandle<Self>) {
        PresenterHandle::new(self)
    }
}

/// Starts a display session: chooses the strategy and returns the display over
/// it, ready to be shared between the renderer and the presentation pipeline.
///
/// `override_set` says whether the operator forced the legacy strategy. If so,
/// only `open_legacy` is run: the primary strategy is not even tried, and
/// nothing is demanded of `open_primary`. Otherwise `open_primary` is run, and
/// `open_legacy` only if that fails. Where no strategy can be opened the
/// result is the legacy strategy's failure, and no display exists.
///
/// The primary strategy's failure is not part of the result. A caller that
/// wants it uses [`select`], which keeps it.
pub fn new<P, L, FP, FL>(override_set: bool, open_primary: FP, open_legacy: FL) -> (r: Result<
    Arc<ActiveDisplay<P, L>>,
    PlatformError,
>) where
    P: BufferAccessStrategy,
    L: BufferAccessStrategy,
    FP: FnOnce() -> Result<P, PlatformError>,
    FL: FnOnce() -> Result<L, PlatformError>,

    requires
        !override_set ==> open_primary.requires(()),
        override_set ==> open_legacy.requires(()),
        forall|e: PlatformError| #[trigger]
            open_primary.ensures((), Err(e)) ==> open_legacy.requires(()),
    ensures
        match r {
            Ok(display) => match display.spec_kind() {
                Strategy::DumbBuffer => {
                    &&& !override_set
                    &&& exists|p: P|
                        {
                            &&& #[trigger] open_primary.ensures((), Ok(p))
                            &&& display.presents(ActiveStrategy::DumbBuffer(p))
                        }
                },
                Strategy::LegacyFramebuffer => {
                    &&& override_set || exists|e: PlatformError| #[trigger]
                        open_primary.ensures((), Err(e))
                    &&& exists|l: L|
                        {
                            &&& #[trigger] open_legacy.ensures((), Ok(l))
                            &&& display.presents(ActiveStrategy::LegacyFramebuffer(l))
                        }
                },
            },
            Err(e) => {
                &&& open_legacy.ensures((), Err(e))
                &&& override_set || exists|e0: PlatformError| #[trigger]
                    open_primary.ensures((), Err(e0))
            },
        },
{
    match select(override_set, open_primary, open_legacy) {
        Ok(selection) => Ok(Arc::new(ActiveDisplay::new(selection.strategy))),
        Err(failure) => Err(failure.error),
    }
}

} // verus!
