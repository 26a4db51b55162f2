//! Lifecycle core for GPU memory obtained from the amdgpu kernel driver.
//!
//! The driver itself is reached by the caller. This library decides, for each
//! step of the open → query → allocate → map → unmap → free → deinitialize
//! workflow, whether the step is allowed, which driver call it issues and with
//! which handle, and how the driver's signed status is turned into a result.
pub mod device;
pub mod lifecycle;
pub mod request;
pub mod status;
