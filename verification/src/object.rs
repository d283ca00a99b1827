//! Device objects: a CPU-resident shadow value coupled with its mirror in
//! device-visible memory and the allocation that backs the mirror.

use crate::allocation::Allocation;
use crate::error::Error;
use crate::pointer::{GpuPointer, GpuWeakPointer};
use vstd::layout::size_of;
use vstd::prelude::*;

verus! {

/// A shadow type, which names the layout of its mirror in device memory.
pub trait GpuStruct {
    /// The firmware-defined layout of the mirror.
    type Raw;
}

/// A type with an initial value: what freshly initialised device memory
/// of a layout holds, or what a shadow value starts as.
pub trait GpuDefault: Sized {
    /// Whether `self` is as an initial value is, in all that the CPU can
    /// tell of it.
    spec fn is_initial(&self) -> bool;

    /// An initial value.
    fn gpu_default() -> (r: Self)
        ensures
            r.is_initial(),
    ;
}

impl GpuDefault for u8 {
    open spec fn is_initial(&self) -> bool {
        *self == 0
    }

    fn gpu_default() -> (r: u8) {
        0
    }
}

impl GpuDefault for u32 {
    open spec fn is_initial(&self) -> bool {
        *self == 0
    }

    fn gpu_default() -> (r: u32) {
        0
    }
}

impl GpuDefault for u64 {
    open spec fn is_initial(&self) -> bool {
        *self == 0
    }

    fn gpu_default() -> (r: u64) {
        0
    }
}

/// A mirror value as an in-place construction callback leaves it: the
/// value, and the CPU address of the memory that was initialised with it.
pub struct Placed<R> {
    pub addr: usize,
    pub value: R,
}

/// Mirror layouts above this size should be constructed in place.
pub const STACK_SAFE_SIZE: usize = 0x1000;

/// Why no object can be placed in `alloc`, if a mirror takes `size` bytes.
pub open spec fn placement_error(alloc: Allocation, size: nat) -> Option<Error> {
    if alloc.size < size {
        Some(Error::OutOfMemory)
    } else if alloc.gpu_ptr == 0 || alloc.cpu_ptr.is_none() {
        Some(Error::InvalidArgument)
    } else {
        None
    }
}

/// An allocation smaller than the mirror is always refused as out of
/// memory, and an allocation that is accepted holds the whole mirror.
pub proof fn lemma_placement_needs_room(alloc: Allocation, size: nat)
    ensures
        alloc.size < size ==> placement_error(alloc, size) == Some(Error::OutOfMemory),
        placement_error(alloc, size).is_none() ==> alloc.size >= size,
{
}

/// Where an object's mirror lives. Fixed for the object's life.
struct Home<T: GpuStruct> {
    alloc: Allocation,
    gpu_ptr: GpuWeakPointer<T>,
}

impl<T: GpuStruct> Home<T> {
    #[verifier::type_invariant]
    spec fn holds_mirror(self) -> bool {
        &&& size_of::<T::Raw>() <= self.alloc.size
        &&& self.alloc.gpu_ptr == self.gpu_ptr.addr()
        &&& self.alloc.gpu_ptr != 0
        &&& self.alloc.cpu_ptr.is_some()
    }

    /// Checks that a mirror fits `alloc` and that both sides can address it.
    fn new(alloc: Allocation) -> (r: Result<Home<T>, Error>)
        ensures
            match r {
                Ok(home) => placement_error(alloc, size_of::<T::Raw>()).is_none() && home.alloc
                    == alloc,
                Err(e) => placement_error(alloc, size_of::<T::Raw>()) == Some(e),
            },
    {
        if alloc.size() < core::mem::size_of::<T::Raw>() {
            return Err(Error::OutOfMemory);
        }
        if alloc.gpu_ptr() == 0 {
            return Err(Error::InvalidArgument);
        }
        let gpu_ptr = GpuWeakPointer::<T>::from_address(alloc.gpu_ptr());
        if alloc.ptr().is_none() {
            return Err(Error::InvalidArgument);
        }
        Ok(Home { alloc, gpu_ptr })
    }
}

/// A shadow value, its mirror in device memory, and the allocation that
/// backs the mirror.
pub struct GpuObject<T: GpuStruct> {
    raw: T::Raw,
    home: Home<T>,
    inner: Box<T>,
}

/// A device object of any shadow type, of which only the device address
/// is known.
pub trait OpaqueGpuObject {
    /// The object's device address.
    spec fn device_address(&self) -> u64;

    /// The object's device address, which is never zero.
    fn gpu_va(&self) -> (r: u64)
        ensures
            r == self.device_address(),
            r != 0,
    ;
}

impl<T: GpuStruct> OpaqueGpuObject for GpuObject<T> {
    open spec fn device_address(&self) -> u64 {
        self.allocation().gpu_ptr
    }

    fn gpu_va(&self) -> (r: u64) {
        proof {
            use_type_invariant(&self.home);
        }
        self.home.gpu_ptr.get()
    }
}

/// A heap-owned device object is the device object that it owns, so that
/// objects of several shadow types can stand in one collection.
impl<T: OpaqueGpuObject + ?Sized> OpaqueGpuObject for Box<T> {
    open spec fn device_address(&self) -> u64 {
        (**self).device_address()
    }

    fn gpu_va(&self) -> (r: u64) {
        (**self).gpu_va()
    }
}

/// What an in-place construction in `alloc` yields once its callback has
/// come back with `outcome`: the callback's error; invalid-argument where
/// it initialised other memory than the allocation's; else the object.
pub open spec fn placed_result<T: GpuStruct>(
    r: Result<GpuObject<T>, Error>,
    alloc: Allocation,
    inner: T,
    outcome: Result<Placed<T::Raw>, Error>,
) -> bool {
    match placement_error(alloc, size_of::<T::Raw>()) {
        Some(e) => (r matches Err(err) && err == e),
        None => match outcome {
            Err(e) => (r matches Err(err) && err == e),
            Ok(placed) => if Some(placed.addr) == alloc.cpu_ptr {
                (r matches Ok(obj) && obj.holds(alloc, inner, placed.value))
            } else {
                (r matches Err(err) && err == Error::InvalidArgument)
            },
        },
    }
}

impl<T: GpuStruct> GpuObject<T> {
    /// The mirror, as device memory holds it.
    pub closed spec fn raw_view(&self) -> T::Raw {
        self.raw
    }

    /// The shadow value.
    pub closed spec fn inner_view(&self) -> T {
        *self.inner
    }

    /// The allocation that backs the mirror.
    pub closed spec fn allocation(&self) -> Allocation {
        self.home.alloc
    }

    /// The object lives in `alloc`, with shadow `inner` and mirror `raw`.
    pub open spec fn holds(&self, alloc: Allocation, inner: T, raw: T::Raw) -> bool {
        &&& self.allocation() == alloc
        &&& self.inner_view() == inner
        &&& self.raw_view() == raw
    }

    /// Whether a mirror of this size is small enough to be built on the
    /// stack before it is copied into place.
    pub fn stack_safe() -> (r: bool)
        ensures
            r == (size_of::<T::Raw>() <= STACK_SAFE_SIZE),
    {
        core::mem::size_of::<T::Raw>() <= STACK_SAFE_SIZE
    }

    /// Builds an object from its shadow value and a callback that computes
    /// the mirror from a borrow of the shadow. The mirror is computed
    /// first and then copied into the allocation.
    ///
    /// Fails with out-of-memory where the allocation is smaller than the
    /// mirror, and with invalid-argument where the allocation has no
    /// device address or no CPU address; the callback is not called then.
    pub fn new<F: FnOnce(&T) -> T::Raw>(alloc: Allocation, inner: T, callback: F) -> (r: Result<
        Self,
        Error,
    >)
        requires
            placement_error(alloc, size_of::<T::Raw>()).is_none() ==> callback.requires((&inner,)),
        ensures
            match r {
                Ok(obj) => placement_error(alloc, size_of::<T::Raw>()).is_none()
                    && obj.allocation() == alloc && obj.inner_view() == inner && callback.ensures(
                    (&inner,),
                    obj.raw_view(),
                ),
                Err(e) => placement_error(alloc, size_of::<T::Raw>()) == Some(e),
            },
    {
        let home = match Home::<T>::new(alloc) {
            Ok(home) => home,
            Err(e) => {
                return Err(e);
            },
        };
        let raw = callback(&inner);
        Ok(GpuObject { raw, home, inner: Box::new(inner) })
    }

    /// Finishes an in-place construction: takes what the mirror callback
    /// came back with and checks that it initialised the allocation's own
    /// memory.
    pub fn from_placed(alloc: Allocation, inner: Box<T>, outcome: Result<Placed<T::Raw>, Error>) -> (r:
        Result<Self, Error>)
        ensures
            placed_result(r, alloc, *inner, outcome),
    {
        let home = match Home::<T>::new(alloc) {
            Ok(home) => home,
            Err(e) => {
                return Err(e);
            },
        };
        match outcome {
            Err(e) => Err(e),
            Ok(placed) => {
                match alloc.ptr() {
                    Some(p) => {
                        if p != placed.addr {
                            return Err(Error::InvalidArgument);
                        }
                    },
                    None => {
                        return Err(Error::InvalidArgument);
                    },
                }
                Ok(GpuObject { raw: placed.value, home, inner })
            },
        }
    }

    /// Builds an object from a heap-owned shadow value and a callback that
    /// initialises the mirror in place: it gets a borrow of the shadow and
    /// the CPU address of the allocation, and hands back the mirror with
    /// the address that it initialised.
    ///
    /// Fails as `new` does, before the callback is called; with the
    /// callback's error; and with invalid-argument where the callback
    /// initialised memory at another address.
    pub fn new_boxed<F: FnOnce(&T, usize) -> Result<Placed<T::Raw>, Error>>(
        alloc: Allocation,
        inner: Box<T>,
        callback: F,
    ) -> (r: Result<Self, Error>)
        requires
            placement_error(alloc, size_of::<T::Raw>()).is_none() ==> callback.requires(
                (&*inner, alloc.cpu_ptr.unwrap()),
            ),
        ensures
            placement_error(alloc, size_of::<T::Raw>()).is_some() ==> (r matches Err(err) && Some(err) == placement_error(alloc, size_of::<T::Raw>())),
            placement_error(alloc, size_of::<T::Raw>()).is_none() ==> exists|
                outcome: Result<Placed<T::Raw>, Error>,
            |
                callback.ensures((&*inner, alloc.cpu_ptr.unwrap()), outcome) && placed_result(
                    r,
                    alloc,
                    *inner,
                    outcome,
                ),
    {
        if let Err(e) = Home::<T>::new(alloc) {
            return Err(e);
        }
        let place: usize = match alloc.ptr() {
            Some(p) => p,
            None => {
                return Err(Error::InvalidArgument);
            },
        };
        let outcome = callback(&*inner, place);
        Self::from_placed(alloc, inner, outcome)
    }

    /// As `new_boxed`, for a shadow value that is not yet heap-owned.
    pub fn new_inplace<F: FnOnce(&T, usize) -> Result<Placed<T::Raw>, Error>>(
        alloc: Allocation,
        inner: T,
        callback: F,
    ) -> (r: Result<Self, Error>)
        requires
            placement_error(alloc, size_of::<T::Raw>()).is_none() ==> callback.requires(
                (&inner, alloc.cpu_ptr.unwrap()),
            ),
        ensures
            placement_error(alloc, size_of::<T::Raw>()).is_some() ==> (r matches Err(err) && Some(err) == placement_error(alloc, size_of::<T::Raw>())),
            placement_error(alloc, size_of::<T::Raw>()).is_none() ==> exists|
                outcome: Result<Placed<T::Raw>, Error>,
            |
                callback.ensures((&inner, alloc.cpu_ptr.unwrap()), outcome) && placed_result(
                    r,
                    alloc,
                    inner,
                    outcome,
                ),
    {
        Self::new_boxed(alloc, Box::new(inner), callback)
    }

    /// Builds an object whose shadow value embeds the object's own device
    /// address. The address is computed first; `inner_cb` builds the
    /// shadow value from it; then `raw_cb` initialises the mirror in place
    /// as in `new_boxed`.
    ///
    /// Fails with out-of-memory where the allocation is smaller than the
    /// mirror and with invalid-argument where it has no device address,
    /// before either callback is called; with the error of `inner_cb`;
    /// with invalid-argument where the allocation has no CPU address,
    /// before `raw_cb` is called; and then as `new_boxed` does.
    pub fn new_prealloc<
        G: FnOnce(GpuWeakPointer<T>) -> Result<Box<T>, Error>,
        F: FnOnce(&T, usize) -> Result<Placed<T::Raw>, Error>,
    >(alloc: Allocation, inner_cb: G, raw_cb: F) -> (r: Result<Self, Error>)
        requires
            forall|p: GpuWeakPointer<T>| p.addr() == alloc.gpu_ptr ==> inner_cb.requires((p,)),
            forall|p: GpuWeakPointer<T>, b: Box<T>|
                p.addr() == alloc.gpu_ptr && inner_cb.ensures((p,), Ok(b)) && alloc.cpu_ptr.is_some()
                    ==> raw_cb.requires((&*b, alloc.cpu_ptr.unwrap())),
        ensures
            alloc.size < size_of::<T::Raw>() ==> (r matches Err(err) && err == Error::OutOfMemory),
            alloc.size >= size_of::<T::Raw>() && alloc.gpu_ptr == 0 ==> (r matches Err(err) && err == Error::InvalidArgument),
            alloc.size >= size_of::<T::Raw>() && alloc.gpu_ptr != 0 ==> exists|
                p: GpuWeakPointer<T>,
                made: Result<Box<T>, Error>,
            |
                p.addr() == alloc.gpu_ptr && inner_cb.ensures((p,), made) && match made {
                    Err(e) => (r matches Err(err) && err == e),
                    Ok(b) => if alloc.cpu_ptr.is_none() {
                        (r matches Err(err) && err == Error::InvalidArgument)
                    } else {
                        exists|outcome: Result<Placed<T::Raw>, Error>|
                            raw_cb.ensures((&*b, alloc.cpu_ptr.unwrap()), outcome) && placed_result(
                                r,
                                alloc,
                                *b,
                                outcome,
                            )
                    },
                },
    {
        if alloc.size() < core::mem::size_of::<T::Raw>() {
            return Err(Error::OutOfMemory);
        }
        if alloc.gpu_ptr() == 0 {
            return Err(Error::InvalidArgument);
        }
        let gpu_ptr = GpuWeakPointer::<T>::from_address(alloc.gpu_ptr());
        let made = inner_cb(gpu_ptr);
        let inner = match made {
            Ok(b) => b,
            Err(e) => {
                return Err(e);
            },
        };
        let place: usize = match alloc.ptr() {
            Some(p) => p,
            None => {
                return Err(Error::InvalidArgument);
            },
        };
        let outcome = raw_cb(&*inner, place);
        let r = Self::from_placed(alloc, inner, outcome);
        proof {
            assert(inner_cb.ensures((gpu_ptr,), made));
            assert(raw_cb.ensures((&*inner, alloc.cpu_ptr.unwrap()), outcome));
        }
        r
    }

    /// The size of the backing allocation, which holds the whole mirror.
    pub fn allocation_size(&self) -> (r: usize)
        ensures
            r == self.allocation().size,
            r >= size_of::<T::Raw>(),
    {
        proof {
            use_type_invariant(&self.home);
        }
        self.home.alloc.size()
    }

    /// A borrowed pointer to the mirror.
    pub fn gpu_pointer(&self) -> (r: GpuPointer<'_, T>)
        ensures
            r.addr() == self.allocation().gpu_ptr,
            r.addr() != 0,
    {
        proof {
            use_type_invariant(&self.home);
        }
        GpuPointer::from_address(self.home.gpu_ptr.get())
    }

    /// A copyable pointer to the mirror.
    pub fn weak_pointer(&self) -> (r: GpuWeakPointer<T>)
        ensures
            r.addr() == self.allocation().gpu_ptr,
            r.addr() != 0,
    {
        proof {
            use_type_invariant(&self.home);
        }
        self.home.gpu_ptr
    }

    /// Runs `callback` on borrows of the mirror and of the shadow value.
    pub fn with<Ret, F: FnOnce(&T::Raw, &T) -> Ret>(&self, callback: F) -> (r: Ret)
        requires
            callback.requires((&self.raw_view(), &self.inner_view())),
        ensures
            callback.ensures((&self.raw_view(), &self.inner_view()), r),
    {
        callback(&self.raw, &*self.inner)
    }

    /// Lends the mirror and the shadow value out together, for writing.
    /// Where the object lives does not change.
    pub fn with_mut(&mut self) -> (r: (&mut T::Raw, &mut T))
        ensures
            *r.0 == old(self).raw_view(),
            *r.1 == old(self).inner_view(),
            final(self).raw_view() == *final(r.0),
            final(self).inner_view() == *final(r.1),
            final(self).allocation() == old(self).allocation(),
    {
        (&mut self.raw, &mut *self.inner)
    }

    /// The shadow value.
    pub fn deref(&self) -> (r: &T)
        ensures
            *r == self.inner_view(),
    {
        &*self.inner
    }

    /// The shadow value, for writing. The mirror does not change.
    pub fn deref_mut(&mut self) -> (r: &mut T)
        ensures
            *r == old(self).inner_view(),
            final(self).inner_view() == *final(r),
            final(self).raw_view() == old(self).raw_view(),
            final(self).allocation() == old(self).allocation(),
    {
        &mut *self.inner
    }
}

impl<T: GpuStruct + GpuDefault> GpuObject<T> where T::Raw: GpuDefault {
    /// Builds an object from the initial shadow value, with the mirror
    /// freshly initialised in place.
    pub fn new_default(alloc: Allocation) -> (r: Result<Self, Error>)
        ensures
            match r {
                Ok(obj) => placement_error(alloc, size_of::<T::Raw>()).is_none()
                    && obj.allocation() == alloc && obj.inner_view().is_initial()
                    && obj.raw_view().is_initial(),
                Err(e) => placement_error(alloc, size_of::<T::Raw>()) == Some(e),
            },
    {
        let callback = |_inner: &T, place: usize| -> (o: Result<Placed<T::Raw>, Error>)
            ensures
                o matches Ok(p) && p.addr == place && p.value.is_initial(),
            { Ok(Placed { addr: place, value: T::Raw::gpu_default() }) };
        Self::new_inplace(alloc, T::gpu_default(), callback)
    }
}

} // verus!
