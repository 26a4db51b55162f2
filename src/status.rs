//! The driver's signed status convention and the library's error kinds.
use vstd::prelude::*;

verus! {

/// The OS error number carried by a negative driver status.
pub open spec fn errno_of(status: i32) -> u32 {
    (-(status as int)) as u32
}

/// What a driver status means: a non-negative status is success with that
/// value, a negative one is the OS error `-status`.
pub open spec fn status_result(status: i32) -> Result<u32, u32> {
    if status < 0 {
        Err(errno_of(status))
    } else {
        Ok(status as u32)
    }
}

/// Translates a driver status into success or an OS error number.
pub fn check_err(status: i32) -> (r: Result<u32, u32>)
    ensures
        r == status_result(status),
        r is Err <==> status < 0,
        status < 0 ==> r == Err::<u32, u32>((-(status as int)) as u32) && 1 <= -(status as int) <= 0x8000_0000,
{
    if status < 0 {
        let magnitude: i64 = -(status as i64);
        Err(magnitude as u32)
    } else {
        Ok(status as u32)
    }
}

/// Why an operation of the workflow did not happen.
#[derive(Debug, Clone, Copy, PartialEq, Eq, Structural)]
pub enum GpuError {
    /// The device node could not be opened.
    OpenFailure { errno: u32 },
    /// Initializing the driver session returned a negative status.
    DriverInitFailure { errno: u32 },
    /// An informational query returned a negative status.
    QueryFailure { errno: u32 },
    /// The allocation call returned a negative status.
    AllocationFailure { errno: u32 },
    /// The map call returned a negative status.
    MappingFailure { errno: u32 },
    /// The map call reported success but gave a null address.
    UnexpectedNullMapping,
    /// A release call (deinitialize, free, unmap) returned a negative status.
    TeardownFailure { errno: u32 },
    /// The device context has already been deinitialized.
    DeviceClosed,
    /// The buffer was not allocated from this device context.
    UnknownBuffer,
    /// The buffer has already been freed.
    BufferReleased,
    /// The buffer still has a live mapping, so it cannot be freed.
    BufferMapped,
    /// The buffer already has a live mapping.
    AlreadyMapped,
    /// The mapping is not the buffer's live mapping (it was already unmapped).
    NotMapped,
    /// Buffers allocated from the device are still live.
    BuffersLive,
}

} // verus!
