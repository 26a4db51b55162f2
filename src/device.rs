//! The device context, its buffer objects and their CPU mappings.
//!
//! The device keeps one record per buffer it allocated. Buffer and mapping
//! values hold non-owning references (the device's driver context and the
//! buffer's slot) that every operation checks against those records, so that a
//! mapping is released before its buffer, a buffer before its device, and each
//! of them once.
//!
//! Each operation comes in two steps. A `prepare_*` method checks the step
//! against the lifecycle and returns the driver handle that the call is to be
//! issued on; the method that follows takes the call's status (and output) and
//! records the outcome.
use crate::request::{AllocRequest, MemoryInfo};
use crate::status::{check_err, errno_of, GpuError};
use vstd::prelude::*;

verus! {

/// Where a buffer stands in its lifecycle.
#[derive(Debug, Clone, Copy, PartialEq, Eq, Structural)]
pub enum BoState {
    /// Allocated and not mapped.
    Live,
    /// Allocated and mapped at `address` in the host.
    Mapped { address: u64 },
    /// Freed; the driver handle is no longer valid.
    Released,
}

impl BoState {
    pub open spec fn well_formed(self) -> bool {
        match self {
            BoState::Mapped { address } => address != 0,
            _ => true,
        }
    }
}

/// The device's record of one buffer it allocated.
#[derive(Debug, Clone, Copy, PartialEq, Eq, Structural)]
pub struct BoRecord {
    /// The driver's handle for the buffer.
    pub handle: u64,
    /// The request the buffer was allocated with.
    pub request: AllocRequest,
    pub state: BoState,
}

/// The abstract state of a device context.
pub struct DeviceView {
    pub fd: i32,
    pub drm: u64,
    pub major: u32,
    pub minor: u32,
    /// Whether the driver context is still initialized.
    pub open: bool,
    /// One record per buffer allocated from the device, in allocation order.
    pub buffers: Seq<BoRecord>,
}

/// The result of a release call (deinitialize, free, unmap) with this status.
pub open spec fn teardown_result(status: i32) -> Result<(), GpuError> {
    if status < 0 {
        Err(GpuError::TeardownFailure { errno: errno_of(status) })
    } else {
        Ok(())
    }
}

impl DeviceView {
    /// A device context right after its driver session was initialized.
    pub open spec fn opened(fd: i32, drm: u64, major: u32, minor: u32) -> DeviceView {
        DeviceView { fd, drm, major, minor, open: true, buffers: Seq::empty() }
    }

    pub open spec fn wf(self) -> bool {
        &&& self.buffers.len() <= usize::MAX
        &&& forall|i: int| 0 <= i < self.buffers.len() ==> (#[trigger] self.buffers[i]).state.well_formed()
        &&& !self.open ==> self.all_released()
    }

    /// Every buffer allocated from the device has been freed.
    pub open spec fn all_released(self) -> bool {
        forall|i: int| 0 <= i < self.buffers.len() ==> (#[trigger] self.buffers[i]).state is Released
    }

    /// The driver context that queries and allocations are issued on.
    pub open spec fn session_check(self) -> Result<u64, GpuError> {
        if self.open {
            Ok(self.drm)
        } else {
            Err(GpuError::DeviceClosed)
        }
    }

    /// The record that a buffer reference (`device`, `index`) designates.
    pub open spec fn slot(self, device: u64, index: int) -> Result<BoRecord, GpuError> {
        if !self.open {
            Err(GpuError::DeviceClosed)
        } else if device != self.drm || index < 0 || index >= self.buffers.len() {
            Err(GpuError::UnknownBuffer)
        } else {
            Ok(self.buffers[index])
        }
    }

    /// The handle that freeing the buffer is issued on, if it may be freed now.
    pub open spec fn free_check(self, device: u64, index: int) -> Result<u64, GpuError> {
        match self.slot(device, index) {
            Err(e) => Err(e),
            Ok(rec) => match rec.state {
                BoState::Live => Ok(rec.handle),
                BoState::Mapped { .. } => Err(GpuError::BufferMapped),
                BoState::Released => Err(GpuError::BufferReleased),
            },
        }
    }

    /// The handle that mapping the buffer is issued on, if it may be mapped now.
    pub open spec fn map_check(self, device: u64, index: int) -> Result<u64, GpuError> {
        match self.slot(device, index) {
            Err(e) => Err(e),
            Ok(rec) => match rec.state {
                BoState::Live => Ok(rec.handle),
                BoState::Mapped { .. } => Err(GpuError::AlreadyMapped),
                BoState::Released => Err(GpuError::BufferReleased),
            },
        }
    }

    /// The handle that unmapping is issued on, if the buffer is mapped at
    /// `address` now.
    pub open spec fn unmap_check(self, device: u64, index: int, address: u64) -> Result<u64, GpuError> {
        match self.slot(device, index) {
            Err(e) => Err(e),
            Ok(rec) => match rec.state {
                BoState::Mapped { address: a } => if a == address {
                    Ok(rec.handle)
                } else {
                    Err(GpuError::NotMapped)
                },
                BoState::Live => Err(GpuError::NotMapped),
                BoState::Released => Err(GpuError::BufferReleased),
            },
        }
    }

    /// The driver context to deinitialize, if the device may be torn down now.
    pub open spec fn deinit_check(self) -> Result<u64, GpuError> {
        if !self.open {
            Err(GpuError::DeviceClosed)
        } else if !self.all_released() {
            Err(GpuError::BuffersLive)
        } else {
            Ok(self.drm)
        }
    }

    /// The result of a memory query that returned `status` and filled `out`.
    pub open spec fn query_result(status: i32, out: MemoryInfo) -> Result<MemoryInfo, GpuError> {
        if status < 0 {
            Err(GpuError::QueryFailure { errno: errno_of(status) })
        } else {
            Ok(out)
        }
    }

    /// The result of an allocation call that returned `status`.
    pub open spec fn alloc_result(self, status: i32) -> Result<AmdgpuBo, GpuError> {
        if status < 0 {
            Err(GpuError::AllocationFailure { errno: errno_of(status) })
        } else {
            Ok(AmdgpuBo { device: self.drm, index: self.buffers.len() as usize })
        }
    }

    /// The state after an allocation call returned `status` and `handle`.
    pub open spec fn after_alloc(self, request: AllocRequest, status: i32, handle: u64) -> DeviceView {
        if status < 0 {
            self
        } else {
            DeviceView {
                buffers: self.buffers.push(BoRecord { handle, request, state: BoState::Live }),
                ..self
            }
        }
    }

    /// The same state with the buffer at `index` moved to `state`.
    pub open spec fn with_state(self, index: int, state: BoState) -> DeviceView {
        DeviceView {
            buffers: self.buffers.update(index, BoRecord { state, ..self.buffers[index] }),
            ..self
        }
    }

    /// The result of a map call on the buffer at `index` that returned
    /// `status` and `address`.
    pub open spec fn map_result(self, index: int, status: i32, address: u64) -> Result<AmdgpuBoMap, GpuError> {
        if status < 0 {
            Err(GpuError::MappingFailure { errno: errno_of(status) })
        } else if address == 0 {
            Err(GpuError::UnexpectedNullMapping)
        } else {
            Ok(AmdgpuBoMap {
                device: self.drm,
                index: index as usize,
                address,
                len: self.buffers[index].request.alloc_size,
            })
        }
    }

    /// The state after a map call on the buffer at `index` returned `status`
    /// and `address`: only a usable mapping is recorded.
    pub open spec fn after_map(self, index: int, status: i32, address: u64) -> DeviceView {
        if status < 0 || address == 0 {
            self
        } else {
            self.with_state(index, BoState::Mapped { address })
        }
    }

    /// The state after the device was deinitialized.
    pub open spec fn closed(self) -> DeviceView {
        DeviceView { open: false, ..self }
    }
}

/// An initialized driver session on one graphics device.
pub struct AmdGpuDevice {
    fd: i32,
    drm: u64,
    major: u32,
    minor: u32,
    open: bool,
    buffers: Vec<BoRecord>,
}

/// A buffer object: refers, without owning it, to the device it was allocated
/// from (by driver context) and to its record there.
#[derive(Debug, PartialEq, Eq, Structural)]
pub struct AmdgpuBo {
    pub device: u64,
    pub index: usize,
}

/// A live CPU mapping of a buffer: `len` bytes starting at host address
/// `address`. Refers, without owning it, to the buffer it maps.
#[derive(Debug, PartialEq, Eq, Structural)]
pub struct AmdgpuBoMap {
    pub device: u64,
    pub index: usize,
    pub address: u64,
    pub len: u64,
}

impl View for AmdGpuDevice {
    type V = DeviceView;

    closed spec fn view(&self) -> DeviceView {
        DeviceView {
            fd: self.fd,
            drm: self.drm,
            major: self.major,
            minor: self.minor,
            open: self.open,
            buffers: self.buffers@,
        }
    }
}

impl AmdGpuDevice {
    /// Finishes opening a device: `fd` is the open device node, and the driver's
    /// initialization on it returned `status`, the interface version and the
    /// driver context `drm`. On failure no device exists, and the caller closes
    /// `fd`.
    pub fn open(fd: i32, status: i32, major: u32, minor: u32, drm: u64) -> (r: Result<AmdGpuDevice, GpuError>)
        ensures
            status < 0 ==> r == Err::<AmdGpuDevice, GpuError>(GpuError::DriverInitFailure { errno: errno_of(status) }),
            status >= 0 ==> r is Ok && r->Ok_0@ == DeviceView::opened(fd, drm, major, minor),
            r is Ok ==> r->Ok_0@.wf(),
    {
        match check_err(status) {
            Err(errno) => Err(GpuError::DriverInitFailure { errno }),
            Ok(_) => Ok(AmdGpuDevice { fd, drm, major, minor, open: true, buffers: Vec::new() }),
        }
    }

    /// The device node's file descriptor.
    pub fn as_raw_fd(&self) -> (r: i32)
        ensures
            r == self@.fd,
    {
        self.fd
    }

    /// The driver interface's major version.
    pub fn major(&self) -> (r: u32)
        ensures
            r == self@.major,
    {
        self.major
    }

    /// The driver interface's minor version.
    pub fn minor(&self) -> (r: u32)
        ensures
            r == self@.minor,
    {
        self.minor
    }

    /// Whether the driver context is still initialized.
    pub fn is_open(&self) -> (r: bool)
        ensures
            r == self@.open,
    {
        self.open
    }

    /// The driver context a memory query is issued on.
    pub fn prepare_mem_info(&self) -> (r: Result<u64, GpuError>)
        ensures
            r == self@.session_check(),
    {
        if self.open {
            Ok(self.drm)
        } else {
            Err(GpuError::DeviceClosed)
        }
    }

    /// Finishes a memory query that returned `status` and filled `out`.
    pub fn mem_info(&self, status: i32, out: MemoryInfo) -> (r: Result<MemoryInfo, GpuError>)
        requires
            self@.session_check() is Ok,
        ensures
            r == DeviceView::query_result(status, out),
    {
        match check_err(status) {
            Err(errno) => Err(GpuError::QueryFailure { errno }),
            Ok(_) => Ok(out),
        }
    }

    /// The driver context an allocation is issued on.
    pub fn prepare_alloc(&self) -> (r: Result<u64, GpuError>)
        ensures
            r == self@.session_check(),
    {
        self.prepare_mem_info()
    }

    /// Finishes an allocation of `request` whose call returned `status` and
    /// the buffer handle `handle`. Only on success is a buffer recorded.
    pub fn alloc_bo(&mut self, request: &AllocRequest, status: i32, handle: u64) -> (r: Result<AmdgpuBo, GpuError>)
        requires
            old(self)@.wf(),
            old(self)@.session_check() is Ok,
        ensures
            final(self)@.wf(),
            r == old(self)@.alloc_result(status),
            final(self)@ == old(self)@.after_alloc(*request, status, handle),
    {
        match check_err(status) {
            Err(errno) => Err(GpuError::AllocationFailure { errno }),
            Ok(_) => {
                let index = self.buffers.len();
                self.buffers.push(BoRecord { handle, request: *request, state: BoState::Live });
                // the vector's length bounds the record count by usize::MAX
                let _count = self.buffers.len();
                Ok(AmdgpuBo { device: self.drm, index })
            },
        }
    }

    fn slot(&self, device: u64, index: usize) -> (r: Result<BoRecord, GpuError>)
        ensures
            r == self@.slot(device, index as int),
    {
        if !self.open {
            Err(GpuError::DeviceClosed)
        } else if device != self.drm || index >= self.buffers.len() {
            Err(GpuError::UnknownBuffer)
        } else {
            Ok(self.buffers[index])
        }
    }

    fn set_state(&mut self, index: usize, state: BoState)
        requires
            index < old(self)@.buffers.len(),
        ensures
            final(self)@ == old(self)@.with_state(index as int, state),
    {
        let rec = self.buffers[index];
        self.buffers.set(index, BoRecord { state, ..rec });
        proof {
            assert(final(self)@.buffers =~= old(self)@.with_state(index as int, state).buffers);
        }
    }

    /// The buffer handle that freeing `bo` is issued on: refused while the
    /// buffer is mapped or once it has been freed.
    pub fn prepare_free(&self, bo: &AmdgpuBo) -> (r: Result<u64, GpuError>)
        ensures
            r == self@.free_check(bo.device, bo.index as int),
    {
        match self.slot(bo.device, bo.index) {
            Err(e) => Err(e),
            Ok(rec) => match rec.state {
                BoState::Live => Ok(rec.handle),
                BoState::Mapped { .. } => Err(GpuError::BufferMapped),
                BoState::Released => Err(GpuError::BufferReleased),
            },
        }
    }

    /// Finishes freeing `bo`, whose free call returned `status`. The buffer is
    /// released either way; a negative status is reported.
    pub fn free(&mut self, bo: AmdgpuBo, status: i32) -> (r: Result<(), GpuError>)
        requires
            old(self)@.wf(),
            old(self)@.free_check(bo.device, bo.index as int) is Ok,
        ensures
            final(self)@.wf(),
            final(self)@ == old(self)@.with_state(bo.index as int, BoState::Released),
            r == teardown_result(status),
    {
        self.set_state(bo.index, BoState::Released);
        teardown(status)
    }

    /// The driver context that deinitializing the device is issued on:
    /// refused while any buffer from it is live, and once it is deinitialized.
    pub fn prepare_deinit(&self) -> (r: Result<u64, GpuError>)
        ensures
            r == self@.deinit_check(),
    {
        if !self.open {
            return Err(GpuError::DeviceClosed);
        }
        let mut i: usize = 0;
        while i < self.buffers.len()
            invariant
                self.open,
                i <= self.buffers.len(),
                forall|j: int| 0 <= j < i ==> (#[trigger] self@.buffers[j]).state is Released,
            decreases self.buffers.len() - i,
        {
            match self.buffers[i].state {
                BoState::Released => {},
                _ => {
                    assert(!(self@.buffers[i as int].state is Released));
                    return Err(GpuError::BuffersLive);
                },
            }
            i = i + 1;
        }
        Ok(self.drm)
    }

    /// Finishes deinitializing the device, whose call returned `status`. The
    /// device is closed either way; a negative status is reported.
    pub fn deinit(&mut self, status: i32) -> (r: Result<(), GpuError>)
        requires
            old(self)@.wf(),
            old(self)@.deinit_check() is Ok,
        ensures
            final(self)@.wf(),
            final(self)@ == old(self)@.closed(),
            r == teardown_result(status),
    {
        self.open = false;
        teardown(status)
    }
}

fn teardown(status: i32) -> (r: Result<(), GpuError>)
    ensures
        r == teardown_result(status),
{
    match check_err(status) {
        Err(errno) => Err(GpuError::TeardownFailure { errno }),
        Ok(_) => Ok(()),
    }
}

impl AmdgpuBo {
    /// The buffer handle that mapping this buffer is issued on: refused while
    /// it is mapped already and once it has been freed.
    pub fn prepare_map(&self, dev: &AmdGpuDevice) -> (r: Result<u64, GpuError>)
        ensures
            r == dev@.map_check(self.device, self.index as int),
    {
        match dev.slot(self.device, self.index) {
            Err(e) => Err(e),
            Ok(rec) => match rec.state {
                BoState::Live => Ok(rec.handle),
                BoState::Mapped { .. } => Err(GpuError::AlreadyMapped),
                BoState::Released => Err(GpuError::BufferReleased),
            },
        }
    }

    /// Finishes mapping this buffer, whose map call returned `status` and the
    /// host address `address`. A null address after a successful call is
    /// refused. Only a usable mapping is recorded; its length is the
    /// buffer's allocation size.
    pub fn map_cpu(&self, dev: &mut AmdGpuDevice, status: i32, address: u64) -> (r: Result<AmdgpuBoMap, GpuError>)
        requires
            old(dev)@.wf(),
            old(dev)@.map_check(self.device, self.index as int) is Ok,
        ensures
            final(dev)@.wf(),
            r == old(dev)@.map_result(self.index as int, status, address),
            final(dev)@ == old(dev)@.after_map(self.index as int, status, address),
    {
        match check_err(status) {
            Err(errno) => Err(GpuError::MappingFailure { errno }),
            Ok(_) => {
                if address == 0 {
                    Err(GpuError::UnexpectedNullMapping)
                } else {
                    let len = dev.buffers[self.index].request.alloc_size;
                    dev.set_state(self.index, BoState::Mapped { address });
                    Ok(AmdgpuBoMap { device: self.device, index: self.index, address, len })
                }
            },
        }
    }
}

impl AmdgpuBoMap {
    /// The mapping's host address.
    pub fn address(&self) -> (r: u64)
        ensures
            r == self.address,
    {
        self.address
    }

    /// The mapping's length in bytes.
    pub fn len(&self) -> (r: u64)
        ensures
            r == self.len,
    {
        self.len
    }

    /// The buffer handle that unmapping is issued on: refused unless this is
    /// the buffer's live mapping.
    pub fn prepare_unmap(&self, dev: &AmdGpuDevice) -> (r: Result<u64, GpuError>)
        ensures
            r == dev@.unmap_check(self.device, self.index as int, self.address),
    {
        match dev.slot(self.device, self.index) {
            Err(e) => Err(e),
            Ok(rec) => match rec.state {
                BoState::Mapped { address } => if address == self.address {
                    Ok(rec.handle)
                } else {
                    Err(GpuError::NotMapped)
                },
                BoState::Live => Err(GpuError::NotMapped),
                BoState::Released => Err(GpuError::BufferReleased),
            },
        }
    }

    /// Finishes unmapping, whose call returned `status`. The buffer is unmapped
    /// either way; a negative status is reported.
    pub fn unmap(self, dev: &mut AmdGpuDevice, status: i32) -> (r: Result<(), GpuError>)
        requires
            old(dev)@.wf(),
            old(dev)@.unmap_check(self.device, self.index as int, self.address) is Ok,
        ensures
            final(dev)@.wf(),
            final(dev)@ == old(dev)@.with_state(self.index as int, BoState::Live),
            r == teardown_result(status),
    {
        dev.set_state(self.index, BoState::Live);
        teardown(status)
    }
}

} // verus!
