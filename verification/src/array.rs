//! Device arrays: contiguous elements of one type in device-visible
//! memory, with bounds-checked access and pointers to their parts.

use crate::allocation::Allocation;
use crate::error::Error;
use crate::object::GpuDefault;
use crate::pointer::{GpuPointer, GpuWeakPointer};
use std::marker::PhantomData;
use vstd::layout::size_of;
use vstd::prelude::*;

verus! {

/// Why no array of `bytes` bytes can be placed in `alloc`.
pub open spec fn array_error(alloc: Allocation, bytes: int) -> Option<Error> {
    if alloc.gpu_ptr == 0 {
        Some(Error::InvalidArgument)
    } else if alloc.size < bytes {
        Some(Error::OutOfMemory)
    } else {
        None
    }
}

/// Why no array of `bytes` bytes that the CPU reads and writes can be
/// placed in `alloc`.
pub open spec fn mapped_array_error(alloc: Allocation, bytes: int) -> Option<Error> {
    if alloc.cpu_ptr.is_none() {
        Some(Error::InvalidArgument)
    } else {
        array_error(alloc, bytes)
    }
}

/// An array in device memory that the CPU does not read.
pub struct GpuOnlyArray<T> {
    len: usize,
    alloc: Allocation,
    gpu_ptr: u64,
    _p: PhantomData<T>,
}

/// An array in device memory that the CPU reads and writes.
pub struct GpuArray<T> {
    data: Vec<T>,
    array: GpuOnlyArray<T>,
}

impl<T> GpuOnlyArray<T> {
    #[verifier::type_invariant]
    spec fn fits(self) -> bool {
        &&& self.gpu_ptr != 0
        &&& self.gpu_ptr == self.alloc.gpu_ptr
        &&& self.len * size_of::<T>() <= self.alloc.size
    }

    /// The number of elements.
    pub closed spec fn spec_len(&self) -> usize {
        self.len
    }

    /// The allocation that backs the array.
    pub closed spec fn allocation(&self) -> Allocation {
        self.alloc
    }

    /// An array of `count` elements in `alloc`.
    ///
    /// Fails with invalid-argument where the allocation has no device
    /// address, and with out-of-memory where `count` elements take more
    /// bytes than the allocation has.
    pub fn new(alloc: Allocation, count: usize) -> (r: Result<GpuOnlyArray<T>, Error>)
        ensures
            match r {
                Ok(a) => array_error(alloc, count * size_of::<T>()).is_none() && a.spec_len()
                    == count && a.allocation() == alloc,
                Err(e) => array_error(alloc, count * size_of::<T>()) == Some(e),
            },
    {
        let gpu_ptr: u64 = alloc.gpu_ptr();
        if gpu_ptr == 0 {
            return Err(Error::InvalidArgument);
        }
        match count.checked_mul(core::mem::size_of::<T>()) {
            Some(bytes) => {
                if alloc.size() < bytes {
                    return Err(Error::OutOfMemory);
                }
            },
            None => {
                return Err(Error::OutOfMemory);
            },
        }
        Ok(GpuOnlyArray { len: count, alloc, gpu_ptr, _p: PhantomData })
    }

    /// The device address of the first element, which is never zero.
    pub fn gpu_va(&self) -> (r: u64)
        ensures
            r == self.allocation().gpu_ptr,
            r != 0,
    {
        proof {
            use_type_invariant(self);
        }
        self.gpu_ptr
    }

    /// A borrowed pointer to the array.
    pub fn gpu_pointer(&self) -> (r: GpuPointer<'_, &'_ [T]>)
        ensures
            r.addr() == self.allocation().gpu_ptr,
    {
        proof {
            use_type_invariant(self);
        }
        GpuPointer::from_address(self.gpu_ptr)
    }

    /// A copyable pointer to the array.
    pub fn weak_pointer(&self) -> (r: GpuWeakPointer<[T]>)
        ensures
            r.addr() == self.allocation().gpu_ptr,
    {
        proof {
            use_type_invariant(self);
        }
        GpuWeakPointer::from_address(self.gpu_ptr)
    }

    /// The device address of the element at `index`, had the array one.
    pub open spec fn element_address(&self, index: usize) -> int {
        self.allocation().gpu_ptr + index * size_of::<T>()
    }

    fn address_of(&self, index: usize) -> (r: u64)
        requires
            index <= self.spec_len(),
            self.element_address(index) <= u64::MAX,
        ensures
            r == self.element_address(index),
            r != 0,
    {
        proof {
            use_type_invariant(self);
            assert(index * size_of::<T>() <= self.len * size_of::<T>()) by (nonlinear_arith)
                requires
                    index <= self.len,
            ;
        }
        let bytes: usize = index * core::mem::size_of::<T>();
        self.gpu_ptr + (bytes as u64)
    }

    /// A borrowed pointer to the part of the array that starts at element
    /// `offset`, which may be the array's end.
    pub fn gpu_offset_pointer(&self, offset: usize) -> (r: GpuPointer<'_, &'_ [T]>)
        requires
            offset <= self.spec_len(),
            self.element_address(offset) <= u64::MAX,
        ensures
            r.addr() == self.element_address(offset),
    {
        GpuPointer::from_address(self.address_of(offset))
    }

    /// A copyable pointer to the part of the array that starts at element
    /// `offset`, which may be the array's end.
    pub fn weak_offset_pointer(&self, offset: usize) -> (r: GpuWeakPointer<[T]>)
        requires
            offset <= self.spec_len(),
            self.element_address(offset) <= u64::MAX,
        ensures
            r.addr() == self.element_address(offset),
    {
        GpuWeakPointer::from_address(self.address_of(offset))
    }

    /// A borrowed pointer to the element at `index`.
    pub fn gpu_item_pointer(&self, index: usize) -> (r: GpuPointer<'_, &'_ T>)
        requires
            index < self.spec_len(),
            self.element_address(index) <= u64::MAX,
        ensures
            r.addr() == self.element_address(index),
    {
        GpuPointer::from_address(self.address_of(index))
    }

    /// A copyable pointer to the element at `index`.
    pub fn weak_item_pointer(&self, index: usize) -> (r: GpuWeakPointer<T>)
        requires
            index < self.spec_len(),
            self.element_address(index) <= u64::MAX,
        ensures
            r.addr() == self.element_address(index),
    {
        GpuWeakPointer::from_address(self.address_of(index))
    }

    /// The number of elements.
    #[verifier::when_used_as_spec(spec_len)]
    pub fn len(&self) -> (r: usize)
        ensures
            r == self.spec_len(),
    {
        self.len
    }

    /// The size of the backing allocation, which holds every element.
    pub fn allocation_size(&self) -> (r: usize)
        ensures
            r == self.allocation().size,
            r >= self.spec_len() * size_of::<T>(),
    {
        proof {
            use_type_invariant(self);
        }
        self.alloc.size()
    }
}

impl<T> View for GpuArray<T> {
    type V = Seq<T>;

    /// The elements, as device memory holds them.
    closed spec fn view(&self) -> Seq<T> {
        self.data@
    }
}

impl<T> GpuArray<T> {
    /// The array has as many elements as it was made for.
    pub open spec fn wf(&self) -> bool {
        self@.len() == self.array().spec_len()
    }

    /// The array without its contents.
    pub closed spec fn array(&self) -> GpuOnlyArray<T> {
        self.array
    }

    /// The array without its contents.
    pub fn deref(&self) -> (r: &GpuOnlyArray<T>)
        ensures
            *r == self.array(),
    {
        &self.array
    }

    /// The number of elements.
    pub fn len(&self) -> (r: usize)
        ensures
            r == self.array().spec_len(),
            self.wf() ==> r == self@.len(),
    {
        self.array.len()
    }

    /// The elements.
    pub fn as_slice(&self) -> (r: &[T])
        ensures
            r@ == self@,
    {
        self.data.as_slice()
    }

    /// The elements, for writing.
    pub fn as_mut_slice(&mut self) -> (r: &mut [T])
        ensures
            r@ == old(self)@,
            final(self)@ == final(r)@,
            final(self).array() == old(self).array(),
            old(self).wf() && final(r)@.len() == r@.len() ==> final(self).wf(),
    {
        self.data.as_mut_slice()
    }

    /// The element at `index`.
    pub fn index(&self, index: usize) -> (r: &T)
        requires
            index < self@.len(),
        ensures
            *r == self@[index as int],
    {
        &self.data[index]
    }

    /// The element at `index`, for writing. No other element changes.
    pub fn index_mut(&mut self, index: usize) -> (r: &mut T)
        requires
            index < old(self)@.len(),
        ensures
            *r == old(self)@[index as int],
            final(self)@ == old(self)@.update(index as int, *final(r)),
            final(self).array() == old(self).array(),
            old(self).wf() ==> final(self).wf(),
    {
        &mut self.data[index]
    }
}

impl<T: Copy> GpuArray<T> {
    /// An array in `alloc` that holds a copy of `data`.
    ///
    /// Fails with invalid-argument where the allocation has no CPU address
    /// or no device address, and with out-of-memory where `data` takes
    /// more bytes than the allocation has.
    pub fn new(alloc: Allocation, data: &[T]) -> (r: Result<GpuArray<T>, Error>)
        ensures
            match r {
                Ok(a) => mapped_array_error(alloc, data@.len() as int * size_of::<T>()).is_none()
                    && a.wf() && a@ == data@ && a.array().allocation() == alloc,
                Err(e) => mapped_array_error(alloc, data@.len() as int * size_of::<T>()) == Some(e),
            },
    {
        if alloc.ptr().is_none() {
            return Err(Error::InvalidArgument);
        }
        let inner = match GpuOnlyArray::<T>::new(alloc, data.len()) {
            Ok(inner) => inner,
            Err(e) => {
                return Err(e);
            },
        };
        let mut copy: Vec<T> = Vec::new();
        let mut i: usize = 0;
        while i < data.len()
            invariant
                i <= data@.len(),
                copy@ == data@.take(i as int),
            decreases data@.len() - i,
        {
            copy.push(data[i]);
            i += 1;
        }
        Ok(GpuArray { data: copy, array: inner })
    }
}

impl<T: GpuDefault> GpuArray<T> {
    /// An array of `count` freshly initialised elements in `alloc`.
    ///
    /// Fails as `new` does.
    pub fn empty(alloc: Allocation, count: usize) -> (r: Result<GpuArray<T>, Error>)
        ensures
            match r {
                Ok(a) => {
                    &&& mapped_array_error(alloc, count * size_of::<T>()).is_none()
                    &&& a.wf()
                    &&& a@.len() == count
                    &&& forall|i: int| 0 <= i < count ==> (#[trigger] a@[i]).is_initial()
                    &&& a.array().allocation() == alloc
                },
                Err(e) => mapped_array_error(alloc, count * size_of::<T>()) == Some(e),
            },
    {
        if alloc.ptr().is_none() {
            return Err(Error::InvalidArgument);
        }
        let inner = match GpuOnlyArray::<T>::new(alloc, count) {
            Ok(inner) => inner,
            Err(e) => {
                return Err(e);
            },
        };
        let mut fresh: Vec<T> = Vec::new();
        let mut i: usize = 0;
        while i < count
            invariant
                i <= count,
                fresh@.len() == i,
                forall|k: int| 0 <= k < i ==> (#[trigger] fresh@[k]).is_initial(),
            decreases count - i,
        {
            fresh.push(T::gpu_default());
            i += 1;
        }
        Ok(GpuArray { data: fresh, array: inner })
    }
}

} // verus!
