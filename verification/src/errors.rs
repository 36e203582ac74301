use vstd::prelude::*;

verus! {

/// A fatal, session-start failure. Each variant reflects a static fact about
/// the driver, the platform or the hardware, so none is ever retried within
/// the process; the caller aborts the bootstrap.
#[derive(Clone, Copy, PartialEq, Eq, Structural, Debug)]
pub enum FatalError {
    /// A requested validation layer is missing from the driver's
    /// supported-layer enumeration.
    UnsupportedLayer,
    /// No enumerated physical device passes all suitability checks, or no
    /// device exists at all.
    NoSuitableDevice,
    /// The platform could not bind a presentable surface to the window.
    SurfaceCreationFailed,
    /// The driver rejected the logical-device configuration.
    DeviceCreationFailed,
}

} // verus!
