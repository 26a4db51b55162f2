//! Laws of the resource lifecycle, proved over the device model.
use crate::device::{BoState, DeviceView};
use crate::request::AllocRequest;
use crate::status::{errno_of, GpuError};
use vstd::prelude::*;

verus! {

/// A device that was opened and is deinitialized right away: deinitializing
/// is allowed, afterwards the device is closed with nothing left allocated,
/// and a second deinitialization is refused.
pub proof fn lemma_open_then_deinit(fd: i32, drm: u64, major: u32, minor: u32)
    ensures
        DeviceView::opened(fd, drm, major, minor).wf(),
        DeviceView::opened(fd, drm, major, minor).deinit_check() == Ok::<u64, GpuError>(drm),
        DeviceView::opened(fd, drm, major, minor).closed().wf(),
        !DeviceView::opened(fd, drm, major, minor).closed().open,
        DeviceView::opened(fd, drm, major, minor).closed().all_released(),
        DeviceView::opened(fd, drm, major, minor).closed().deinit_check() == Err::<u64, GpuError>(GpuError::DeviceClosed),
{
}

/// An allocation either yields a buffer, which may then be freed, and after
/// that freed no more; or it yields an allocation failure and leaves the
/// device as it was.
pub proof fn lemma_alloc_then_free_once(d: DeviceView, request: AllocRequest, status: i32, handle: u64)
    requires
        d.wf(),
        d.session_check() is Ok,
    ensures
        match d.alloc_result(status) {
            Ok(bo) => {
                &&& d.after_alloc(request, status, handle).free_check(bo.device, bo.index as int) == Ok::<u64, GpuError>(handle)
                &&& d.after_alloc(request, status, handle).with_state(bo.index as int, BoState::Released).free_check(bo.device, bo.index as int)
                    == Err::<u64, GpuError>(GpuError::BufferReleased)
            },
            Err(e) => {
                &&& e == GpuError::AllocationFailure { errno: errno_of(status) }
                &&& d.after_alloc(request, status, handle) == d
            },
        },
{
}

/// Freeing a buffer is allowed once: afterwards a second free, and a map, are
/// refused as acting on a released buffer.
pub proof fn lemma_free_once(d: DeviceView, device: u64, index: int)
    requires
        d.wf(),
        d.free_check(device, index) is Ok,
    ensures
        d.with_state(index, BoState::Released).wf(),
        d.with_state(index, BoState::Released).free_check(device, index) == Err::<u64, GpuError>(GpuError::BufferReleased),
        d.with_state(index, BoState::Released).map_check(device, index) == Err::<u64, GpuError>(GpuError::BufferReleased),
{
    let d2 = d.with_state(index, BoState::Released);
    assert forall|i: int| 0 <= i < d2.buffers.len() implies (#[trigger] d2.buffers[i]).state.well_formed() by {
        if i != index {
            assert(d2.buffers[i] == d.buffers[i]);
        }
    }
}

/// Unmapping is allowed once: afterwards a second unmap of the same mapping
/// is refused.
pub proof fn lemma_unmap_once(d: DeviceView, device: u64, index: int, address: u64)
    requires
        d.wf(),
        d.unmap_check(device, index, address) is Ok,
    ensures
        d.with_state(index, BoState::Live).wf(),
        d.with_state(index, BoState::Live).unmap_check(device, index, address) == Err::<u64, GpuError>(GpuError::NotMapped),
{
    let d2 = d.with_state(index, BoState::Live);
    assert forall|i: int| 0 <= i < d2.buffers.len() implies (#[trigger] d2.buffers[i]).state.well_formed() by {
        if i != index {
            assert(d2.buffers[i] == d.buffers[i]);
        }
    }
}

/// Deinitializing is allowed once: afterwards a second deinitialization, and
/// every operation on a buffer of the device, are refused.
pub proof fn lemma_deinit_once(d: DeviceView, device: u64, index: int)
    requires
        d.wf(),
        d.deinit_check() is Ok,
    ensures
        d.closed().wf(),
        d.closed().deinit_check() == Err::<u64, GpuError>(GpuError::DeviceClosed),
        d.closed().session_check() == Err::<u64, GpuError>(GpuError::DeviceClosed),
        d.closed().free_check(device, index) == Err::<u64, GpuError>(GpuError::DeviceClosed),
        d.closed().map_check(device, index) == Err::<u64, GpuError>(GpuError::DeviceClosed),
        forall|address: u64|
            d.closed().unmap_check(device, index, address) == Err::<u64, GpuError>(GpuError::DeviceClosed),
{
}

/// A buffer may be freed only while it is not mapped: freeing a mapped buffer
/// is refused.
pub proof fn lemma_free_needs_unmapped(d: DeviceView, device: u64, index: int)
    ensures
        d.free_check(device, index) is Ok ==> d.buffers[index].state is Live,
        d.slot(device, index) is Ok && d.buffers[index].state is Mapped
            ==> d.free_check(device, index) == Err::<u64, GpuError>(GpuError::BufferMapped),
{
}

/// A device may be deinitialized only once every buffer from it was freed:
/// while one is live, deinitialization is refused.
pub proof fn lemma_deinit_needs_released(d: DeviceView)
    ensures
        d.deinit_check() is Ok ==> d.all_released(),
        d.open && !d.all_released() ==> d.deinit_check() == Err::<u64, GpuError>(GpuError::BuffersLive),
{
}

/// After a mapping is released, the buffer may be mapped again: the new
/// mapping is issued on the same buffer handle, and a usable one covers the
/// same buffer with the same length, its allocation size.
pub proof fn lemma_unmap_then_remap(d: DeviceView, device: u64, index: int, address: u64, status: i32, again: u64)
    requires
        d.wf(),
        d.unmap_check(device, index, address) is Ok,
    ensures
        d.with_state(index, BoState::Live).map_check(device, index) == d.unmap_check(device, index, address),
        status >= 0 && again != 0 ==> {
            let m = d.with_state(index, BoState::Live).map_result(index, status, again);
            &&& m is Ok
            &&& m->Ok_0.device == device
            &&& m->Ok_0.index == index
            &&& m->Ok_0.len == d.buffers[index].request.alloc_size
        },
{
}

} // verus!
