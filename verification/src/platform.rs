//! The two platform types that cross the display contract.
//!
//! The library never looks inside either of them: a failure is handed on as it
//! came, and a pixel format tag is handed to the render routine as the strategy
//! reported it.

use vstd::prelude::*;

verus! {

/// `i_slint_core::platform::PlatformError`, the failure type of the platform
/// layer. Declared opaque: nothing is claimed of what a value holds.
#[verifier::external_type_specification]
#[verifier::external_body]
pub struct ExPlatformError(i_slint_core::platform::PlatformError);

/// `drm::buffer::DrmFourcc`, the tag that names a buffer's pixel layout.
/// Declared opaque: nothing is claimed of what a value holds.
#[verifier::external_type_specification]
#[verifier::external_body]
pub struct ExDrmFourcc(drm::buffer::DrmFourcc);

} // verus!
