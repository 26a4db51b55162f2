//! Plain values exchanged with the driver: allocation requests and memory info.
use vstd::prelude::*;

verus! {

/// Memory domain: system memory.
pub const AMDGPU_GEM_DOMAIN_CPU: u32 = 0x1;

/// Memory domain: GPU-accessible system memory.
pub const AMDGPU_GEM_DOMAIN_GTT: u32 = 0x2;

/// Memory domain: device-local video memory.
pub const AMDGPU_GEM_DOMAIN_VRAM: u32 = 0x4;

/// Creation flag: the host must be able to map the buffer.
pub const AMDGPU_GEM_CREATE_CPU_ACCESS_REQUIRED: u64 = 0x1;

/// Creation flag: the host will never map the buffer.
pub const AMDGPU_GEM_CREATE_NO_CPU_ACCESS: u64 = 0x2;

/// Creation flag: the buffer's video memory is cleared when allocated.
pub const AMDGPU_GEM_CREATE_VRAM_CLEARED: u64 = 0x8;

/// What an allocation asks the driver for.
#[derive(Debug, Clone, Copy, PartialEq, Eq, Structural)]
pub struct AllocRequest {
    /// Size of the allocation in bytes.
    pub alloc_size: u64,
    /// Required physical alignment in bytes (0: the driver's default).
    pub phys_alignment: u64,
    /// Bitset of preferred memory domains.
    pub preferred_heap: u32,
    /// Bitset of creation flags.
    pub flags: u64,
}

impl AllocRequest {
    /// A request for `alloc_size` bytes in the domains `preferred_heap`, with
    /// creation flags `flags` and the default alignment.
    pub fn new(alloc_size: u64, preferred_heap: u32, flags: u64) -> (r: AllocRequest)
        ensures
            r == (AllocRequest { alloc_size, phys_alignment: 0, preferred_heap, flags }),
    {
        AllocRequest { alloc_size, phys_alignment: 0, preferred_heap, flags }
    }
}

impl Default for AllocRequest {
    fn default() -> (r: AllocRequest)
        ensures
            r == (AllocRequest { alloc_size: 0, phys_alignment: 0, preferred_heap: 0, flags: 0 }),
    {
        AllocRequest { alloc_size: 0, phys_alignment: 0, preferred_heap: 0, flags: 0 }
    }
}

/// Totals and usage of one memory heap, in bytes.
#[derive(Debug, Clone, Copy, PartialEq, Eq, Structural)]
pub struct HeapInfo {
    pub total_heap_size: u64,
    pub usable_heap_size: u64,
    pub heap_usage: u64,
    pub max_allocation: u64,
}

impl HeapInfo {
    pub open spec fn is_zero(self) -> bool {
        self == (HeapInfo { total_heap_size: 0, usable_heap_size: 0, heap_usage: 0, max_allocation: 0 })
    }
}

impl Default for HeapInfo {
    fn default() -> (r: HeapInfo)
        ensures
            r.is_zero(),
    {
        HeapInfo { total_heap_size: 0, usable_heap_size: 0, heap_usage: 0, max_allocation: 0 }
    }
}

/// The device's memory report: video memory, the host-visible part of it, and
/// GPU-accessible system memory. Passed through as the driver fills it.
#[derive(Debug, Clone, Copy, PartialEq, Eq, Structural)]
pub struct MemoryInfo {
    pub vram: HeapInfo,
    pub cpu_accessible_vram: HeapInfo,
    pub gtt: HeapInfo,
}

impl Default for MemoryInfo {
    fn default() -> (r: MemoryInfo)
        ensures
            r.vram.is_zero(),
            r.cpu_accessible_vram.is_zero(),
            r.gtt.is_zero(),
    {
        MemoryInfo { vram: HeapInfo::default(), cpu_accessible_vram: HeapInfo::default(), gtt: HeapInfo::default() }
    }
}

} // verus!
