//! Software-rendered display sessions over a kernel-mode-setting stack.
//!
//! A session is backed by exactly one buffer-access strategy, chosen once when
//! the session starts: the dumb-buffer strategy where the modesetting device
//! offers it, the legacy framebuffer device otherwise, or the legacy device
//! alone where the operator asked for it. A renderer then gets scoped,
//! exclusive access to the back buffer of the chosen strategy, one view at a
//! time, and the presentation pipeline co-owns the same session.

pub mod active;
pub mod display;
pub mod memory;
pub mod platform;
pub mod selection_laws;
pub mod selector;
pub mod strategy;

pub use active::ActiveStrategy;
pub use active::Strategy;
pub use display::new;
pub use display::ActiveDisplay;
pub use display::PresenterHandle;
pub use display::SoftwareBufferDisplay;
pub use memory::MemoryStrategy;
pub use selector::select;
pub use selector::Action;
pub use selector::Event;
pub use selector::Selection;
pub use selector::SelectionFailure;
pub use selector::Selector;
pub use strategy::BufferAccessStrategy;
pub use strategy::Geometry;
