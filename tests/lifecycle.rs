use amdgpu_mem::device::{AmdGpuDevice, AmdgpuBo, AmdgpuBoMap};
use amdgpu_mem::request::{
    AllocRequest, HeapInfo, MemoryInfo, AMDGPU_GEM_CREATE_CPU_ACCESS_REQUIRED,
    AMDGPU_GEM_CREATE_VRAM_CLEARED, AMDGPU_GEM_DOMAIN_VRAM,
};
use amdgpu_mem::status::{check_err, GpuError};

const DRM: u64 = 0x5000;
const FD: i32 = 7;

fn opened() -> AmdGpuDevice {
    AmdGpuDevice::open(FD, 0, 3, 42, DRM).unwrap()
}

fn vram_request(size: u64) -> AllocRequest {
    AllocRequest::new(
        size,
        AMDGPU_GEM_DOMAIN_VRAM,
        AMDGPU_GEM_CREATE_CPU_ACCESS_REQUIRED | AMDGPU_GEM_CREATE_VRAM_CLEARED,
    )
}

#[test]
fn status_translation() {
    assert_eq!(check_err(0), Ok(0));
    assert_eq!(check_err(17), Ok(17));
    assert_eq!(check_err(-22), Err(22));
    assert_eq!(check_err(-1), Err(1));
    assert_eq!(check_err(i32::MIN), Err(2147483648));
}

#[test]
fn open_keeps_version_and_fd() {
    let dev = opened();
    assert_eq!(dev.major(), 3);
    assert_eq!(dev.minor(), 42);
    assert_eq!(dev.as_raw_fd(), FD);
    assert!(dev.is_open());
}

#[test]
fn open_with_failed_init_gives_no_device() {
    let r = AmdGpuDevice::open(FD, -13, 0, 0, 0);
    assert!(matches!(r, Err(GpuError::DriverInitFailure { errno: 13 })));
}

#[test]
fn open_then_deinit_releases_everything() {
    let mut dev = opened();
    assert_eq!(dev.prepare_deinit(), Ok(DRM));
    assert_eq!(dev.deinit(0), Ok(()));
    assert!(!dev.is_open());
    assert_eq!(dev.prepare_deinit(), Err(GpuError::DeviceClosed));
    assert_eq!(dev.prepare_mem_info(), Err(GpuError::DeviceClosed));
    assert_eq!(dev.prepare_alloc(), Err(GpuError::DeviceClosed));
}

#[test]
fn deinit_failure_is_reported() {
    let mut dev = opened();
    assert_eq!(dev.deinit(-5), Err(GpuError::TeardownFailure { errno: 5 }));
    assert!(!dev.is_open());
}

#[test]
fn mem_info_passes_the_report_through() {
    let dev = opened();
    assert_eq!(dev.prepare_mem_info(), Ok(DRM));
    let heap = HeapInfo {
        total_heap_size: 8 << 30,
        usable_heap_size: 7 << 30,
        heap_usage: 1 << 20,
        max_allocation: 6 << 30,
    };
    let info = MemoryInfo { vram: heap, cpu_accessible_vram: HeapInfo::default(), gtt: heap };
    assert_eq!(dev.mem_info(0, info), Ok(info));
    assert_eq!(dev.mem_info(-19, info), Err(GpuError::QueryFailure { errno: 19 }));
}

#[test]
fn defaults_are_zero() {
    let r = AllocRequest::default();
    assert_eq!((r.alloc_size, r.phys_alignment, r.preferred_heap, r.flags), (0, 0, 0, 0));
    let m = MemoryInfo::default();
    assert_eq!(m.vram.total_heap_size, 0);
    assert_eq!(m.gtt.max_allocation, 0);
    assert_eq!(m.cpu_accessible_vram.heap_usage, 0);
}

#[test]
fn request_fields() {
    let r = vram_request(4096);
    assert_eq!(r.alloc_size, 4096);
    assert_eq!(r.preferred_heap, 4);
    assert_eq!(r.flags, 0x9);
    assert_eq!(r.phys_alignment, 0);
}

#[test]
fn vram_write_scenario() {
    let mut dev = opened();
    let request = vram_request(4096);
    assert_eq!(dev.prepare_alloc(), Ok(DRM));
    let bo = dev.alloc_bo(&request, 0, 77).unwrap();

    assert_eq!(bo.prepare_map(&dev), Ok(77));
    let map = bo.map_cpu(&mut dev, 0, 0x7f00_0000).unwrap();
    assert_eq!(map.len(), 4096);
    assert_eq!(map.address(), 0x7f00_0000);

    // the buffer's backing store, as the host sees it
    let mut memory = vec![0u8; map.len() as usize];
    for v in memory.iter_mut() {
        *v = 1u8;
    }
    assert_eq!(map.prepare_unmap(&dev), Ok(77));
    assert_eq!(map.unmap(&mut dev, 0), Ok(()));

    let again = bo.map_cpu(&mut dev, 0, 0x7f10_0000).unwrap();
    assert_eq!(again.len(), 4096);
    assert_eq!(memory.len(), again.len() as usize);
    assert!(memory.iter().all(|b| *b == 1));
    assert_eq!(again.prepare_unmap(&dev), Ok(77));
    assert_eq!(again.unmap(&mut dev, 0), Ok(()));

    assert_eq!(dev.prepare_free(&bo), Ok(77));
    assert_eq!(dev.free(bo, 0), Ok(()));
    assert_eq!(dev.prepare_deinit(), Ok(DRM));
    assert_eq!(dev.deinit(0), Ok(()));
}

#[test]
fn failed_allocation_produces_no_buffer() {
    let mut dev = opened();
    let bad = AllocRequest::new(4096, 0x40, 0);
    let r = dev.alloc_bo(&bad, -22, 0);
    assert!(matches!(r, Err(GpuError::AllocationFailure { errno: 22 })));
    assert_eq!(dev.prepare_deinit(), Ok(DRM));
}

#[test]
fn allocated_buffers_get_distinct_slots() {
    let mut dev = opened();
    let a = dev.alloc_bo(&vram_request(4096), 0, 10).unwrap();
    let b = dev.alloc_bo(&vram_request(8192), 0, 11).unwrap();
    assert_eq!(a, AmdgpuBo { device: DRM, index: 0 });
    assert_eq!(b, AmdgpuBo { device: DRM, index: 1 });
    assert_eq!(dev.prepare_free(&a), Ok(10));
    assert_eq!(dev.prepare_free(&b), Ok(11));
}

#[test]
fn null_mapping_is_its_own_failure() {
    let mut dev = opened();
    let bo = dev.alloc_bo(&vram_request(4096), 0, 77).unwrap();
    let r = bo.map_cpu(&mut dev, 0, 0);
    assert!(matches!(r, Err(GpuError::UnexpectedNullMapping)));
    let r = bo.map_cpu(&mut dev, -12, 0x1000);
    assert!(matches!(r, Err(GpuError::MappingFailure { errno: 12 })));
    // neither attempt left a mapping behind
    assert_eq!(bo.prepare_map(&dev), Ok(77));
    assert_eq!(dev.prepare_free(&bo), Ok(77));
}

#[test]
fn second_free_is_refused() {
    let mut dev = opened();
    let bo = dev.alloc_bo(&vram_request(4096), 0, 77).unwrap();
    assert_eq!(dev.free(bo, 0), Ok(()));
    let stale = AmdgpuBo { device: DRM, index: 0 };
    assert_eq!(dev.prepare_free(&stale), Err(GpuError::BufferReleased));
    assert_eq!(stale.prepare_map(&dev), Err(GpuError::BufferReleased));
}

#[test]
fn free_failure_is_reported_and_buffer_released() {
    let mut dev = opened();
    let bo = dev.alloc_bo(&vram_request(4096), 0, 77).unwrap();
    assert_eq!(dev.free(bo, -5), Err(GpuError::TeardownFailure { errno: 5 }));
    assert_eq!(dev.prepare_deinit(), Ok(DRM));
}

#[test]
fn second_unmap_is_refused() {
    let mut dev = opened();
    let bo = dev.alloc_bo(&vram_request(4096), 0, 77).unwrap();
    let map = bo.map_cpu(&mut dev, 0, 0x1000).unwrap();
    assert_eq!(map.unmap(&mut dev, 0), Ok(()));
    let stale = AmdgpuBoMap { device: DRM, index: 0, address: 0x1000, len: 4096 };
    assert_eq!(stale.prepare_unmap(&dev), Err(GpuError::NotMapped));
}

#[test]
fn stale_mapping_cannot_unmap_a_newer_one() {
    let mut dev = opened();
    let bo = dev.alloc_bo(&vram_request(4096), 0, 77).unwrap();
    let map = bo.map_cpu(&mut dev, 0, 0x1000).unwrap();
    assert_eq!(map.unmap(&mut dev, 0), Ok(()));
    let _newer = bo.map_cpu(&mut dev, 0, 0x2000).unwrap();
    let stale = AmdgpuBoMap { device: DRM, index: 0, address: 0x1000, len: 4096 };
    assert_eq!(stale.prepare_unmap(&dev), Err(GpuError::NotMapped));
}

#[test]
fn second_map_is_refused() {
    let mut dev = opened();
    let bo = dev.alloc_bo(&vram_request(4096), 0, 77).unwrap();
    let _map = bo.map_cpu(&mut dev, 0, 0x1000).unwrap();
    assert_eq!(bo.prepare_map(&dev), Err(GpuError::AlreadyMapped));
}

#[test]
fn free_while_mapped_is_refused() {
    let mut dev = opened();
    let bo = dev.alloc_bo(&vram_request(4096), 0, 77).unwrap();
    let map = bo.map_cpu(&mut dev, 0, 0x1000).unwrap();
    assert_eq!(dev.prepare_free(&bo), Err(GpuError::BufferMapped));
    assert_eq!(map.unmap(&mut dev, 0), Ok(()));
    assert_eq!(dev.prepare_free(&bo), Ok(77));
}

#[test]
fn deinit_with_live_buffer_is_refused() {
    let mut dev = opened();
    let bo = dev.alloc_bo(&vram_request(4096), 0, 77).unwrap();
    assert_eq!(dev.prepare_deinit(), Err(GpuError::BuffersLive));
    let map = bo.map_cpu(&mut dev, 0, 0x1000).unwrap();
    assert_eq!(dev.prepare_deinit(), Err(GpuError::BuffersLive));
    assert_eq!(map.unmap(&mut dev, 0), Ok(()));
    assert_eq!(dev.free(bo, 0), Ok(()));
    assert_eq!(dev.prepare_deinit(), Ok(DRM));
}

#[test]
fn buffer_of_another_device_is_unknown() {
    let mut dev = opened();
    let _bo = dev.alloc_bo(&vram_request(4096), 0, 77).unwrap();
    let foreign = AmdgpuBo { device: DRM + 1, index: 0 };
    assert_eq!(dev.prepare_free(&foreign), Err(GpuError::UnknownBuffer));
    let out_of_range = AmdgpuBo { device: DRM, index: 5 };
    assert_eq!(out_of_range.prepare_map(&dev), Err(GpuError::UnknownBuffer));
}
