//! The builder's output: the bytes of the code and data segments and where
//! each is placed in the file and in memory.

use vstd::prelude::*;

verus! {

/// Segments are placed on page boundaries of this size.
pub const PAGE_SIZE: u64 = 0x1000;
/// The code segment's offset in the file.
pub const CODE_OFFSET: u64 = 0x1000;
/// The code segment's address in memory, and the entry point.
pub const CODE_ADDRESS: u64 = 0x401000;
/// The data segment's offset in the file.
pub const DATA_OFFSET: u64 = 0x2000;
/// The data segment's address in memory.
pub const DATA_ADDRESS: u64 = 0x402000;

/// Where a segment lands in the file and in the process's address space.
#[derive(Clone, Copy, PartialEq, Eq, Structural)]
pub struct SegmentInfo {
    pub offset: u64,
    pub virtual_address: u64,
    pub physical_address: u64,
    pub memory_size: u64,
}

impl SegmentInfo {
    /// The segment starts on a page boundary, in the file and in memory.
    pub open spec fn page_aligned(self) -> bool {
        &&& self.offset % PAGE_SIZE == 0
        &&& self.virtual_address % PAGE_SIZE == 0
        &&& self.physical_address % PAGE_SIZE == 0
    }
}

/// The code segment's placement, for code of `size` bytes.
pub open spec fn code_segment(size: u64) -> SegmentInfo {
    SegmentInfo {
        offset: CODE_OFFSET,
        virtual_address: CODE_ADDRESS,
        physical_address: CODE_ADDRESS,
        memory_size: size,
    }
}

/// The data segment's placement, for data of `size` bytes.
pub open spec fn data_segment(size: u64) -> SegmentInfo {
    SegmentInfo {
        offset: DATA_OFFSET,
        virtual_address: DATA_ADDRESS,
        physical_address: DATA_ADDRESS,
        memory_size: size,
    }
}

/// Code and data bytes with their placements.
pub struct Assembly {
    pub code: Vec<u8>,
    pub data: Vec<u8>,
    pub code_info: SegmentInfo,
    pub data_info: SegmentInfo,
}

impl Assembly {
    /// Each segment is page aligned, and its size in memory is the length of
    /// its bytes.
    pub open spec fn segments_consistent(&self) -> bool {
        &&& self.code_info.page_aligned()
        &&& self.data_info.page_aligned()
        &&& self.code_info.memory_size == self.code@.len()
        &&& self.data_info.memory_size == self.data@.len()
    }
}

} // verus!
