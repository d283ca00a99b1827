//! The queue descriptor: the device objects through which firmware sees
//! a work queue's ring, and the doorbell message that announces new ring
//! contents.

use crate::allocation::Allocation;
use crate::array::GpuArray;
use crate::object::{GpuDefault, GpuObject, GpuStruct};
use crate::pointer::GpuWeakPointer;
use std::sync::atomic::{AtomicU32, Ordering};
use vstd::prelude::*;

verus! {

/// The pipeline class that a work queue feeds.
#[derive(Clone, Copy, Debug, PartialEq, Eq, Structural)]
pub enum PipeType {
    Vertex,
    Fragment,
    Compute,
}

/// The list of notifiers that firmware signals; it is kept elsewhere.
pub struct NotifierList {}

/// The data of the GPU context that owns a queue; it is kept elsewhere.
pub struct GpuContextData {}

/// The shadow of a ring's state: what the CPU has last stored in the
/// words of the mirror that it alone writes.
#[derive(Clone, Copy, Debug, PartialEq, Eq, Structural)]
pub struct RingState {
    /// Up to where the CPU has filled the ring.
    pub cpu_wptr: u32,
    /// Up to where the CPU considers the ring complete and free again.
    pub cpu_freeptr: u32,
}

impl GpuDefault for RingState {
    open spec fn is_initial(&self) -> bool {
        self.cpu_wptr == 0 && self.cpu_freeptr == 0
    }

    fn gpu_default() -> (r: RingState) {
        RingState { cpu_wptr: 0, cpu_freeptr: 0 }
    }
}

/// The ring's state as device memory holds it. Firmware reads and writes
/// the pointers in it at any time, outside any lock of the CPU's, so they
/// are atomic words: to contracts their contents are unknown.
pub struct RawRingState {
    /// Up to where firmware is done with the ring; written by firmware.
    pub gpu_doneptr: AtomicU32,
    /// Up to where firmware has read the ring; written by firmware.
    pub gpu_rptr: AtomicU32,
    /// Up to where the CPU has filled the ring; read by firmware.
    pub cpu_wptr: AtomicU32,
    /// The number of slots in the ring.
    pub rb_size: u32,
    /// Up to where the CPU considers the ring complete and free again.
    pub cpu_freeptr: AtomicU32,
}

impl GpuStruct for RingState {
    type Raw = RawRingState;
}

impl GpuDefault for RawRingState {
    open spec fn is_initial(&self) -> bool {
        self.rb_size == 0
    }

    fn gpu_default() -> (r: RawRingState) {
        RawRingState {
            gpu_doneptr: AtomicU32::new(0),
            gpu_rptr: AtomicU32::new(0),
            cpu_wptr: AtomicU32::new(0),
            rb_size: 0,
            cpu_freeptr: AtomicU32::new(0),
        }
    }
}

/// The shadow of a queue descriptor: the device objects that the
/// descriptor points to.
pub struct QueueInfo {
    /// The ring's state.
    pub state: GpuObject<RingState>,
    /// The ring: one device address of a command per slot.
    pub ring: GpuArray<u64>,
    /// Scratch memory for firmware.
    pub gpu_buf: GpuArray<u8>,
}

/// A queue descriptor as device memory holds it.
pub struct RawQueueInfo {
    pub state: GpuWeakPointer<RingState>,
    pub ring: GpuWeakPointer<[u64]>,
    pub notifier_list: GpuWeakPointer<NotifierList>,
    pub gpu_buf: GpuWeakPointer<[u8]>,
    pub gpu_rptr1: u32,
    pub gpu_rptr2: u32,
    pub gpu_rptr3: u32,
    pub event_id: i32,
    pub priority: u32,
    pub unk_4c: i32,
    pub uuid: u32,
    pub unk_54: i32,
    pub busy: u32,
    pub pending: u32,
    pub gpu_context: GpuWeakPointer<GpuContextData>,
}

impl GpuStruct for QueueInfo {
    type Raw = RawQueueInfo;
}

impl RawQueueInfo {
    /// The descriptor of a queue that was never submitted to: it points to
    /// the objects of `inner`, to `notifier_list` and to `gpu_context`,
    /// carries the low 32 bits of `id`, and has no event slot yet.
    pub open spec fn describes(
        &self,
        inner: QueueInfo,
        notifier_list: GpuWeakPointer<NotifierList>,
        gpu_context: GpuWeakPointer<GpuContextData>,
        id: u64,
    ) -> bool {
        &&& self.state.addr() == inner.state.allocation().gpu_ptr
        &&& self.ring.addr() == inner.ring.array().allocation().gpu_ptr
        &&& self.gpu_buf.addr() == inner.gpu_buf.array().allocation().gpu_ptr
        &&& self.notifier_list == notifier_list
        &&& self.gpu_context == gpu_context
        &&& self.gpu_rptr1 == 0
        &&& self.gpu_rptr2 == 0
        &&& self.gpu_rptr3 == 0
        &&& self.event_id == -1
        &&& self.priority == 0
        &&& self.unk_4c == -1
        &&& self.uuid == id as u32
        &&& self.unk_54 == -1
        &&& self.busy == 0
        &&& self.pending == 0
    }
}

impl QueueInfo {
    /// Stores the number of ring slots in the ring state's mirror.
    pub fn set_ring_size(&mut self, size: u32)
        ensures
            final(self).state.raw_view().rb_size == size,
            final(self).state.inner_view() == old(self).state.inner_view(),
            final(self).state.allocation() == old(self).state.allocation(),
            final(self).ring == old(self).ring,
            final(self).gpu_buf == old(self).gpu_buf,
    {
        let (raw, _shadow) = self.state.with_mut();
        raw.rb_size = size;
    }

    /// Publishes the CPU's write pointer: stores it in the mirror with
    /// release ordering, so that firmware, which polls it with acquire
    /// ordering, sees the ring slots that were written before it.
    pub fn publish_wptr(&mut self, wptr: u32)
        ensures
            final(self).state.inner_view() == (RingState {
                cpu_wptr: wptr,
                ..old(self).state.inner_view()
            }),
            final(self).state.raw_view().rb_size == old(self).state.raw_view().rb_size,
            final(self).state.allocation() == old(self).state.allocation(),
            final(self).ring == old(self).ring,
            final(self).gpu_buf == old(self).gpu_buf,
    {
        let (raw, shadow) = self.state.with_mut();
        raw.cpu_wptr.store(wptr, Ordering::Release);
        shadow.cpu_wptr = wptr;
    }

    /// Publishes, with release ordering, up to where the CPU considers
    /// the ring free again.
    pub fn publish_freeptr(&mut self, freeptr: u32)
        ensures
            final(self).state.inner_view() == (RingState {
                cpu_freeptr: freeptr,
                ..old(self).state.inner_view()
            }),
            final(self).state.raw_view().rb_size == old(self).state.raw_view().rb_size,
            final(self).state.allocation() == old(self).state.allocation(),
            final(self).ring == old(self).ring,
            final(self).gpu_buf == old(self).gpu_buf,
    {
        let (raw, shadow) = self.state.with_mut();
        raw.cpu_freeptr.store(freeptr, Ordering::Release);
        shadow.cpu_freeptr = freeptr;
    }

    /// Reads, with acquire ordering, the done pointer as firmware last
    /// wrote it. Firmware advances it at any time: nothing is known of
    /// the value.
    pub fn doneptr(&self) -> u32 {
        let load = |raw: &RawRingState, _shadow: &RingState| -> u32
            { raw.gpu_doneptr.load(Ordering::Acquire) };
        self.state.with(load)
    }

    /// Writes a command's device address into a slot of the ring.
    pub fn write_slot(&mut self, slot: u32, address: u64)
        requires
            slot < old(self).ring@.len(),
        ensures
            final(self).ring@ == old(self).ring@.update(slot as int, address),
            final(self).ring.array() == old(self).ring.array(),
            old(self).ring.wf() ==> final(self).ring.wf(),
            final(self).state == old(self).state,
            final(self).gpu_buf == old(self).gpu_buf,
    {
        let cell = self.ring.index_mut(slot as usize);
        *cell = address;
    }
}

/// The allocations that a work queue's device objects are placed in.
#[derive(Clone, Copy, Debug)]
pub struct QueueAllocations {
    /// For the ring's state; shared with firmware.
    pub state: Allocation,
    /// For the ring; shared with firmware.
    pub ring: Allocation,
    /// For firmware's scratch memory.
    pub gpu_buf: Allocation,
    /// For the descriptor.
    pub info: Allocation,
}

/// The doorbell: tells firmware that a queue's ring has new contents.
pub struct RunWorkQueueMsg {
    /// The pipeline class of the queue.
    pub pipe_type: PipeType,
    /// The queue's descriptor.
    pub work_queue: Option<GpuWeakPointer<QueueInfo>>,
    /// The queue's write pointer.
    pub wptr: u32,
    /// The slot of the completion counter that the queue's batches wait on.
    pub event_slot: u32,
    /// Whether this is the first submission on the queue.
    pub is_new: bool,
    /// Padding; zero.
    pub pad: u32,
}

} // verus!
