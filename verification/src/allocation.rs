//! What the submission core reads of a region of device-visible memory.

use vstd::prelude::*;

verus! {

/// A region of device-visible memory handed out by an allocator.
///
/// Device objects and arrays consume the three values held here and
/// nothing more; the memory is reclaimed by the allocator once the
/// object that holds the region is gone.
#[derive(Clone, Copy, Debug)]
pub struct Allocation {
    /// Where the CPU sees the region, if it is mapped for the CPU.
    pub cpu_ptr: Option<usize>,
    /// Where the device sees the region; zero stands for no address.
    pub gpu_ptr: u64,
    /// The region's size in bytes.
    pub size: usize,
}

impl Allocation {
    /// A region seen by the CPU at `cpu_ptr`, by the device at `gpu_ptr`,
    /// of `size` bytes.
    pub fn new(cpu_ptr: Option<usize>, gpu_ptr: u64, size: usize) -> (r: Self)
        ensures
            r == (Allocation { cpu_ptr, gpu_ptr, size }),
    {
        Allocation { cpu_ptr, gpu_ptr, size }
    }

    /// The CPU address of the region, if it has one.
    pub fn ptr(&self) -> (r: Option<usize>)
        ensures
            r == self.cpu_ptr,
    {
        self.cpu_ptr
    }

    /// The device address of the region.
    pub fn gpu_ptr(&self) -> (r: u64)
        ensures
            r == self.gpu_ptr,
    {
        self.gpu_ptr
    }

    /// The size of the region in bytes.
    pub fn size(&self) -> (r: usize)
        ensures
            r == self.size,
    {
        self.size
    }
}

} // verus!
