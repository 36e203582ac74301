//! Verified decision logic for bootstrapping a session against a native GPU
//! driver: planning instance creation (validation layers, extension lists),
//! resolving queue families, selecting a physical device, configuring the
//! logical device and its queues, and planning dependency-safe teardown.
//!
//! The driver calls themselves are opaque native entry points; an unverified
//! shell gathers what the driver reports into plain values, hands them to the
//! functions here, and carries the returned plans back to the driver.

pub mod device;
pub mod diagnostics;
pub mod errors;
pub mod instance;
pub mod lifecycle;
pub mod logical_device;
pub mod names;
pub mod queue_family;
pub mod swapchain;
