//! Work queues: one ring of command slots per pipeline class, the
//! commands pending in it, and the batches that firmware has not yet
//! reported complete.
//!
//! A queue is changed only by whoever holds it. A batch builder holds the
//! queue from `begin_batch` until it is submitted or rolled back, so that
//! nothing else touches the ring while commands are being added. What
//! firmware writes (the done pointer, the completion counter) is read by
//! the caller and handed in; what must wait or be sent (a wait for ring
//! space, the doorbell, the completions of finished batches) is handed
//! out for the caller to do.

use crate::array::mapped_array_error;
use crate::batch::{
    in_commit_order, is_reached_front, lemma_reached_are_front, lemma_reached_front_exists,
    lemma_reached_front_unique, lemma_total_push, lemma_total_same, lemma_total_split,
    reached_front, total_commands, Batch, BatchError,
};
use crate::descriptor::{
    GpuContextData, NotifierList, PipeType, QueueAllocations, QueueInfo, RawQueueInfo,
    RawRingState, RingState, RunWorkQueueMsg,
};
use crate::error::Error;
use crate::event::{Event, EventValue, Subscription, Token};
use crate::object::{placement_error, GpuDefault, GpuObject, OpaqueGpuObject, Placed};
use crate::array::GpuArray;
use crate::pointer::GpuWeakPointer;
use vstd::layout::size_of;
use vstd::pervasive::unreached;
use vstd::prelude::*;

verus! {

/// The number of command slots in a queue's ring.
pub const WQ_SIZE: u32 = 0x500;

/// The number of bytes of scratch memory that firmware gets per queue.
pub const GPU_BUF_SIZE: usize = 0x2c18;

/// A work queue as its contracts see it.
#[verifier::ext_equal]
pub struct WorkQueueView {
    /// The pipeline class that the queue feeds.
    pub pipe_type: PipeType,
    /// Whether nothing was submitted on the queue yet.
    pub is_new: bool,
    /// The number of slots in the ring.
    pub size: u32,
    /// The write pointer as of the last commit.
    pub wptr: u32,
    /// The device addresses of the commands that are not yet done, oldest
    /// first.
    pub pending: Seq<u64>,
    /// The batches that are not yet complete, in order of commit.
    pub batches: Seq<Batch>,
    /// The name of the latest subscription to a completion counter.
    pub last_token: Option<Token>,
    /// The active subscription, and the value that the latest commit was
    /// given (the counter's value at subscription, before any commit).
    pub event: Option<(Event, EventValue)>,
    /// The ring's slots.
    pub ring: Seq<u64>,
    /// The number of ring slots as the ring state's mirror holds it.
    pub rb_size: u32,
    /// The write pointer and the free pointer as last published in the
    /// ring state's mirror.
    pub state: RingState,
    /// The device address of the descriptor.
    pub descriptor_address: u64,
}

impl WorkQueueView {
    /// The queue's parts fit together, with `uncommitted` commands added
    /// since the last commit.
    pub open spec fn consistent(self, uncommitted: nat) -> bool {
        &&& self.size == WQ_SIZE
        &&& self.wptr < self.size
        &&& self.ring.len() == self.size
        &&& self.rb_size == self.size
        &&& self.descriptor_address != 0
        &&& self.event.is_none() ==> self.batches.len() == 0
        &&& in_commit_order(self.batches)
        &&& forall|i: int|
            0 <= i < self.batches.len() ==> {
                &&& (#[trigger] self.batches[i]).value.0 <= self.event.unwrap().1.0
                &&& self.batches[i].wptr < self.size
                &&& self.batches[i].commands > 0
            }
        &&& total_commands(self.batches) + uncommitted == self.pending.len()
    }

    /// The number of pending commands that no batch holds: those that a
    /// batch builder has added and not yet committed.
    pub open spec fn uncommitted(self) -> nat {
        if self.pending.len() >= total_commands(self.batches) {
            (self.pending.len() - total_commands(self.batches)) as nat
        } else {
            0
        }
    }

    /// The queue's parts fit together, whatever number of commands is
    /// uncommitted.
    pub open spec fn coherent(self) -> bool {
        self.consistent(self.uncommitted())
    }

    /// The batches that are complete once the counter stands at `current`.
    pub open spec fn completed_by(self, current: EventValue) -> Seq<Batch> {
        if self.event.is_none() {
            Seq::empty()
        } else {
            self.batches.take(reached_front(self.batches, current))
        }
    }

    /// The queue after the batches that `current` has reached have left
    /// it: their commands are no longer pending, the free pointer is the
    /// write pointer of the last of them, and the subscription ends with
    /// the last batch.
    pub open spec fn signaled(self, current: EventValue) -> WorkQueueView {
        if self.event.is_none() {
            self
        } else {
            let done = self.completed_by(current);
            let rest = self.batches.skip(done.len() as int);
            WorkQueueView {
                batches: rest,
                pending: self.pending.skip(total_commands(done) as int),
                state: if done.len() > 0 {
                    RingState { cpu_freeptr: done.last().wptr, ..self.state }
                } else {
                    self.state
                },
                event: if rest.len() == 0 {
                    None
                } else {
                    self.event
                },
                ..self
            }
        }
    }

    /// The queue after `error` was marked on the batches with a value up
    /// to `value`, each getting the error as its own execution context
    /// earned it.
    pub open spec fn marked(self, value: EventValue, error: BatchError) -> WorkQueueView {
        if self.event.is_none() {
            self
        } else {
            let k = reached_front(self.batches, value);
            WorkQueueView {
                batches: Seq::new(
                    self.batches.len(),
                    |i: int|
                        if i < k {
                            Batch {
                                error: Some(error.attributed_to(self.batches[i].vm_slot)),
                                ..self.batches[i]
                            }
                        } else {
                            self.batches[i]
                        },
                ),
                ..self
            }
        }
    }
}

/// Why the device objects of a queue cannot be placed in `allocs`: the
/// first of the reasons for the ring's state, the ring, the scratch memory
/// and the descriptor, in this order.
pub open spec fn queue_placement_error(allocs: QueueAllocations) -> Option<Error> {
    if placement_error(allocs.state, size_of::<RawRingState>()).is_some() {
        placement_error(allocs.state, size_of::<RawRingState>())
    } else if mapped_array_error(allocs.ring, WQ_SIZE * size_of::<u64>()).is_some() {
        mapped_array_error(allocs.ring, WQ_SIZE * size_of::<u64>())
    } else if mapped_array_error(allocs.gpu_buf, GPU_BUF_SIZE * size_of::<u8>()).is_some() {
        mapped_array_error(allocs.gpu_buf, GPU_BUF_SIZE * size_of::<u8>())
    } else {
        placement_error(allocs.info, size_of::<RawQueueInfo>())
    }
}

/// A work queue.
pub struct WorkQueue<C: OpaqueGpuObject> {
    info: GpuObject<QueueInfo>,
    info_pointer: GpuWeakPointer<QueueInfo>,
    new: bool,
    pipe_type: PipeType,
    size: u32,
    wptr: u32,
    pending: Vec<C>,
    batches: Vec<Batch>,
    last_token: Option<Token>,
    event: Option<(Event, EventValue)>,
}

/// What `signal` and `mark_error` leave for the caller to do.
pub struct Signaled {
    /// The batches that are complete, in order of commit. Their waiters
    /// are to be woken once the queue is no longer held.
    pub completed: Vec<Batch>,
    /// Whether no batch is outstanding any more.
    pub empty: bool,
}

/// The device addresses of `commands`.
pub open spec fn addresses<C: OpaqueGpuObject>(commands: Seq<C>) -> Seq<u64> {
    Seq::new(commands.len(), |i: int| commands[i].device_address())
}

impl<C: OpaqueGpuObject> View for WorkQueue<C> {
    type V = WorkQueueView;

    closed spec fn view(&self) -> WorkQueueView {
        WorkQueueView {
            pipe_type: self.pipe_type,
            is_new: self.new,
            size: self.size,
            wptr: self.wptr,
            pending: addresses(self.pending@),
            batches: self.batches@,
            last_token: self.last_token,
            event: self.event,
            ring: self.info.inner_view().ring@,
            rb_size: self.info.inner_view().state.raw_view().rb_size,
            state: self.info.inner_view().state.inner_view(),
            descriptor_address: self.info.allocation().gpu_ptr,
        }
    }
}

impl<C: OpaqueGpuObject> WorkQueue<C> {
    /// The descriptor as device memory holds it.
    pub closed spec fn descriptor(&self) -> RawQueueInfo {
        self.info.raw_view()
    }

    /// The device objects that the descriptor points to.
    pub closed spec fn shadow(&self) -> QueueInfo {
        self.info.inner_view()
    }

    /// The queue's device objects are whole.
    pub closed spec fn layout_wf(&self) -> bool {
        &&& self.info.inner_view().ring.wf()
        &&& self.info_pointer.addr() == self.info.allocation().gpu_ptr
    }

    /// The queue is whole; a batch builder that waits for ring space may
    /// have left uncommitted commands in it.
    pub open spec fn whole(&self) -> bool {
        &&& self.layout_wf()
        &&& self@.coherent()
    }

    /// The queue is whole and holds no uncommitted commands.
    pub open spec fn wf(&self) -> bool {
        &&& self.layout_wf()
        &&& self@.consistent(0)
    }

    /// A queue for `pipe_type`, with its device objects placed in `allocs`
    /// and a descriptor that points to them, to `notifier_list` and to
    /// `gpu_context`. The ring has `WQ_SIZE` slots; nothing is pending, no
    /// batch is outstanding and no completion counter is subscribed to.
    ///
    /// Fails where one of the allocations cannot hold its object.
    pub fn new(
        allocs: QueueAllocations,
        gpu_context: GpuWeakPointer<GpuContextData>,
        notifier_list: GpuWeakPointer<NotifierList>,
        pipe_type: PipeType,
        id: u64,
    ) -> (r: Result<WorkQueue<C>, Error>)
        ensures
            match r {
                Ok(q) => {
                    &&& queue_placement_error(allocs).is_none()
                    &&& q.wf()
                    &&& q@ == (WorkQueueView {
                        pipe_type,
                        is_new: true,
                        size: WQ_SIZE,
                        wptr: 0,
                        pending: Seq::empty(),
                        batches: Seq::empty(),
                        last_token: None,
                        event: None,
                        ring: Seq::new(WQ_SIZE as nat, |i: int| 0u64),
                        rb_size: WQ_SIZE,
                        state: RingState { cpu_wptr: 0, cpu_freeptr: 0 },
                        descriptor_address: allocs.info.gpu_ptr,
                    })
                    &&& q.descriptor().describes(q.shadow(), notifier_list, gpu_context, id)
                    &&& q.shadow().state.allocation() == allocs.state
                    &&& q.shadow().ring.array().allocation() == allocs.ring
                    &&& q.shadow().gpu_buf.array().allocation() == allocs.gpu_buf
                    &&& q.shadow().gpu_buf@ == Seq::new(GPU_BUF_SIZE as nat, |i: int| 0u8)
                },
                Err(e) => queue_placement_error(allocs) == Some(e),
            },
    {
        let state = match GpuObject::<RingState>::new_default(allocs.state) {
            Ok(state) => state,
            Err(e) => {
                return Err(e);
            },
        };
        let ring = match GpuArray::<u64>::empty(allocs.ring, WQ_SIZE as usize) {
            Ok(ring) => ring,
            Err(e) => {
                return Err(e);
            },
        };
        let gpu_buf = match GpuArray::<u8>::empty(allocs.gpu_buf, GPU_BUF_SIZE) {
            Ok(gpu_buf) => gpu_buf,
            Err(e) => {
                return Err(e);
            },
        };
        let mut shadow = QueueInfo { state, ring, gpu_buf };
        shadow.set_ring_size(WQ_SIZE);
        let boxed = Box::new(shadow);
        let ghost shadow_value = *boxed;
        let callback = |inner: &QueueInfo, place: usize| -> (o: Result<Placed<RawQueueInfo>, Error>)
            ensures
                o matches Ok(p) && p.addr == place && p.value.describes(
                    *inner,
                    notifier_list,
                    gpu_context,
                    id,
                ),
            {
                Ok(
                    Placed {
                        addr: place,
                        value: RawQueueInfo {
                            state: inner.state.weak_pointer(),
                            ring: inner.ring.deref().weak_pointer(),
                            notifier_list,
                            gpu_buf: inner.gpu_buf.deref().weak_pointer(),
                            gpu_rptr1: 0,
                            gpu_rptr2: 0,
                            gpu_rptr3: 0,
                            event_id: -1,
                            priority: 0,
                            unk_4c: -1,
                            uuid: #[verifier::truncate]
                            (id as u32),
                            unk_54: -1,
                            busy: 0,
                            pending: 0,
                            gpu_context,
                        },
                    },
                )
            };
        let info = match GpuObject::<QueueInfo>::new_boxed(allocs.info, boxed, callback) {
            Ok(info) => info,
            Err(e) => {
                return Err(e);
            },
        };
        let info_pointer = info.weak_pointer();
        let queue = WorkQueue {
            info,
            info_pointer,
            new: true,
            pipe_type,
            size: WQ_SIZE,
            wptr: 0,
            pending: Vec::new(),
            batches: Vec::new(),
            last_token: None,
            event: None,
        };
        proof {
            assert(queue@.pending =~= Seq::empty());
            assert(queue@.ring =~= Seq::new(WQ_SIZE as nat, |i: int| 0u64));
            assert(queue.shadow().gpu_buf@ =~= Seq::new(GPU_BUF_SIZE as nat, |i: int| 0u8));
            assert(total_commands(queue@.batches) == 0);
        }
        Ok(queue)
    }

    /// A copyable pointer to the descriptor.
    pub fn info_pointer(&self) -> (r: GpuWeakPointer<QueueInfo>)
        ensures
            self.layout_wf() ==> r.addr() == self@.descriptor_address,
    {
        self.info_pointer
    }

    /// The pipeline class that the queue feeds.
    pub fn pipe_type(&self) -> (r: PipeType)
        ensures
            r == self@.pipe_type,
    {
        self.pipe_type
    }

    /// The name of the latest subscription, for the notifier to follow.
    pub fn last_token(&self) -> (r: Option<Token>)
        ensures
            r == self@.last_token,
    {
        self.last_token
    }

    /// The active subscription, if there is one.
    pub fn event(&self) -> (r: Option<Event>)
        ensures
            r == match self@.event {
                Some(pair) => Some(pair.0),
                None => None,
            },
    {
        match self.event {
            Some(pair) => Some(pair.0),
            None => None,
        }
    }

    /// The number of commands that are pending.
    pub fn pending_len(&self) -> (r: usize)
        ensures
            r == self@.pending.len(),
    {
        self.pending.len()
    }

    /// The number of batches that are outstanding.
    pub fn batches_len(&self) -> (r: usize)
        ensures
            r == self@.batches.len(),
    {
        self.batches.len()
    }

    /// The device address in a slot of the ring.
    pub fn ring_slot(&self, slot: u32) -> (r: u64)
        requires
            slot < self@.ring.len(),
        ensures
            r == self@.ring[slot as int],
    {
        *self.info.deref().ring.index(slot as usize)
    }

    /// The write pointer and the free pointer as last published.
    pub fn ring_state(&self) -> (r: RingState)
        ensures
            r == self@.state,
    {
        *self.info.deref().state.deref()
    }

    /// Runs `callback` on the ring state's mirror and its shadow: the way
    /// to the words that firmware writes.
    pub fn with_ring_state<Ret, F: FnOnce(&RawRingState, &RingState) -> Ret>(
        &self,
        callback: F,
    ) -> (r: Ret)
        requires
            callback.requires((&self.shadow().state.raw_view(), &self.shadow().state.inner_view())),
        ensures
            callback.ensures(
                (&self.shadow().state.raw_view(), &self.shadow().state.inner_view()),
                r,
            ),
    {
        self.info.deref().state.with(callback)
    }

    /// The done pointer as firmware last wrote it, read with acquire
    /// ordering. Nothing is known of the value.
    pub fn doneptr(&self) -> u32 {
        self.info.deref().doneptr()
    }
}

impl<C: OpaqueGpuObject> WorkQueue<C> {
    /// Starts a batch for the execution context in slot `vm_slot`.
    ///
    /// A queue without a subscription to a completion counter takes
    /// `fresh` as its subscription and the counter's value in it as the
    /// baseline of the values that commits will give out. Where it has
    /// none and none is handed in, the queue comes back unchanged: the
    /// caller asks the notifier for a subscription that follows
    /// `last_token()`, and begins again with it. A queue with a
    /// subscription keeps it, whatever is handed in.
    pub fn begin_batch(self, vm_slot: u32, fresh: Option<Subscription>) -> (r: BeginBatch<C>)
        requires
            self.wf(),
        ensures
            match r {
                BeginBatch::Ready(b) => {
                    &&& b.wf()
                    &&& b.queue()@.event.is_some()
                    &&& b.commands() == 0
                    &&& b.wptr() == self@.wptr
                    &&& b.vm_slot() == vm_slot
                    &&& b.queue().descriptor() == self.descriptor()
                    &&& self@.event.is_some() ==> b.queue() == self
                    &&& self@.event.is_none() ==> fresh.is_some() && b.queue()@ == (WorkQueueView {
                        last_token: Some(fresh.unwrap().event.token),
                        event: Some((fresh.unwrap().event, fresh.unwrap().current)),
                        ..self@
                    })
                },
                BeginBatch::NeedsEvent(q) => {
                    &&& self@.event.is_none()
                    &&& fresh.is_none()
                    &&& q == self
                },
            },
    {
        let mut queue = self;
        if queue.event.is_none() {
            match fresh {
                None => {
                    return BeginBatch::NeedsEvent(queue);
                },
                Some(subscription) => {
                    queue.last_token = Some(subscription.event.token());
                    queue.event = Some((subscription.event, subscription.current));
                },
            }
        }
        let wptr: u32 = queue.wptr;
        BeginBatch::Ready(WorkQueueBatch { queue, commands: 0, wptr, vm_slot })
    }

    /// Gives the queue back to the batch builder that gave it up to wait
    /// for ring space. Batches may have left the queue in between; the
    /// uncommitted commands are those that the builder left.
    pub fn resume(self, parked: ParkedBatch) -> (r: WorkQueueBatch<C>)
        requires
            self.whole(),
            self@.uncommitted() == parked.commands,
            parked.wptr < WQ_SIZE,
        ensures
            r.wf(),
            r.queue() == self,
            r.commands() == parked.commands,
            r.wptr() == parked.wptr,
            r.vm_slot() == parked.vm_slot,
    {
        WorkQueueBatch {
            queue: self,
            commands: parked.commands,
            wptr: parked.wptr,
            vm_slot: parked.vm_slot,
        }
    }

    /// The number of pending commands that no batch holds.
    pub fn uncommitted_len(&self) -> (r: usize)
        requires
            self.whole(),
        ensures
            r == self@.uncommitted(),
    {
        let n: usize = self.batches.len();
        let pending_len: usize = self.pending.len();
        let mut committed: usize = 0;
        let mut k: usize = 0;
        while k < n
            invariant
                k <= n,
                n == self.batches@.len(),
                self.whole(),
                pending_len == self.pending@.len(),
                committed == total_commands(self.batches@.take(k as int)),
                committed <= pending_len,
            decreases n - k,
        {
            proof {
                let s = self.batches@;
                assert(s.take(k + 1) =~= s.take(k as int).push(s[k as int]));
                lemma_total_push(s.take(k as int), s[k as int]);
                lemma_total_split(s, k + 1);
                assert(total_commands(s) <= self@.pending.len());
                assert(self@.pending.len() == self.pending@.len());
            }
            committed = committed + self.batches[k].commands;
            k = k + 1;
        }
        proof {
            assert(self.batches@.take(n as int) =~= self.batches@);
        }
        pending_len - committed
    }

    /// Takes note that the completion counter stands at `current`.
    ///
    /// The batches whose value the counter has reached leave the queue,
    /// in order of commit, and are handed out for their waiters to be
    /// woken; the commands of these batches are no longer pending and are
    /// released; the free pointer in the ring state's mirror becomes the
    /// write pointer of the last of them. With the last outstanding batch
    /// the subscription ends. Whoever waits for ring space is to be woken
    /// after every call. A queue without a subscription is left as it is.
    pub fn signal(&mut self, current: EventValue) -> (r: Signaled)
        requires
            old(self).whole(),
        ensures
            final(self).whole(),
            final(self)@.uncommitted() == old(self)@.uncommitted(),
            final(self)@ == old(self)@.signaled(current),
            r.completed@ == old(self)@.completed_by(current),
            in_commit_order(r.completed@),
            r.empty == (final(self)@.batches.len() == 0),
            old(self)@.event.is_none() ==> r.empty,
            forall|i: int|
                0 <= i < old(self)@.batches.len() && old(self)@.event.is_some() ==> (
                old(self)@.batches[i].value.0 <= current.0 <==> i < r.completed@.len()),
            final(self).descriptor() == old(self).descriptor(),
    {
        if self.event.is_none() {
            return Signaled { completed: Vec::new(), empty: true };
        }
        let ghost before = self@;
        let n: usize = self.batches.len();
        let mut k: usize = 0;
        let mut completed_commands: usize = 0;
        let pending_len: usize = self.pending.len();
        while k < n && self.batches[k].value.0 <= current.0
            invariant
                k <= n,
                n == self.batches@.len(),
                *self == *old(self),
                self.whole(),
                forall|i: int| 0 <= i < k ==> self.batches@[i].value.0 <= current.0,
                completed_commands == total_commands(self.batches@.take(k as int)),
                completed_commands <= pending_len,
                pending_len == self.pending@.len(),
            decreases n - k,
        {
            proof {
                let s = self.batches@;
                assert(s.take(k + 1) =~= s.take(k as int).push(s[k as int]));
                lemma_total_push(s.take(k as int), s[k as int]);
                lemma_total_split(s, k + 1);
                assert(total_commands(s) <= self@.pending.len());
                assert(self@.pending.len() == self.pending@.len());
                assert(total_commands(s.take(k + 1)) == completed_commands + s[k as int].commands);
            }
            completed_commands = completed_commands + self.batches[k].commands;
            k = k + 1;
        }
        proof {
            assert(is_reached_front(before.batches, current, k as int));
            lemma_reached_front_unique(before.batches, current, k as int);
            lemma_total_split(before.batches, k as int);
        }
        let rest = self.batches.split_off(k);
        let mut completed = rest;
        core::mem::swap(&mut self.batches, &mut completed);
        if k > 0 {
            let last: Batch = completed[k - 1];
            self.info.deref_mut().publish_freeptr(last.wptr);
        }
        let still_pending = self.pending.split_off(completed_commands);
        self.pending = still_pending;
        let empty: bool = self.batches.len() == 0;
        if empty {
            self.event = None;
        }
        proof {
            let done = before.batches.take(k as int);
            assert(completed@ =~= done);
            assert(self.batches@ =~= before.batches.skip(k as int));
            assert(addresses(self.pending@) =~= before.pending.skip(total_commands(done) as int));
            assert(self@ =~= before.signaled(current));
            assert forall|i: int| 0 <= i < before.batches.len() implies (
            before.batches[i].value.0 <= current.0 <==> i < k) by {
                if i > k {
                    assert(before.batches[k as int].value.0 < before.batches[i].value.0);
                }
            }
        }
        Signaled { completed, empty }
    }

    /// Takes note that the work up to the counter value `value` has
    /// failed with `error`, while the counter stands at `current`.
    ///
    /// What the counter has reached is complete and counts as successful,
    /// as in `signal`. Of the batches that stay, those with a value up to
    /// `value` get the error: a fault of another execution context than
    /// the batch's own kills the batch, every other error is marked as it
    /// is. The marked batches stay outstanding.
    pub fn mark_error(&mut self, current: EventValue, value: EventValue, error: BatchError) -> (r:
        Signaled)
        requires
            old(self).whole(),
        ensures
            final(self).whole(),
            final(self)@.uncommitted() == old(self)@.uncommitted(),
            final(self)@ == old(self)@.signaled(current).marked(value, error),
            r.completed@ == old(self)@.completed_by(current),
            r.empty == (final(self)@.batches.len() == 0),
            final(self).descriptor() == old(self).descriptor(),
    {
        let signaled = self.signal(current);
        if self.event.is_none() {
            return signaled;
        }
        let ghost mid = self@;
        let n: usize = self.batches.len();
        let mut i: usize = 0;
        while i < n && self.batches[i].value.0 <= value.0
            invariant
                i <= n,
                n == self.batches@.len(),
                n == mid.batches.len(),
                mid.coherent(),
                mid.uncommitted() == old(self)@.uncommitted(),
                self.layout_wf(),
                self.descriptor() == old(self).descriptor(),
                self@ == (WorkQueueView { batches: self.batches@, ..mid }),
                forall|j: int|
                    0 <= j < i ==> self.batches@[j] == (Batch {
                        error: Some(error.attributed_to(mid.batches[j].vm_slot)),
                        ..mid.batches[j]
                    }),
                forall|j: int| i <= j < n ==> self.batches@[j] == mid.batches[j],
                forall|j: int| 0 <= j < i ==> mid.batches[j].value.0 <= value.0,
            decreases n - i,
        {
            let batch: Batch = self.batches[i];
            let marked = Batch {
                value: batch.value,
                commands: batch.commands,
                wptr: batch.wptr,
                vm_slot: batch.vm_slot,
                error: Some(error.attribute(batch.vm_slot)),
            };
            self.batches.set(i, marked);
            i = i + 1;
        }
        proof {
            assert(is_reached_front(mid.batches, value, i as int));
            lemma_reached_front_unique(mid.batches, value, i as int);
            assert(self.batches@ =~= mid.marked(value, error).batches);
            assert(self@ =~= mid.marked(value, error));
            lemma_marked_consistent(mid, mid.uncommitted(), value, error);
        }
        signaled
    }
}

/// When the counter's value is taken note of, the batches that leave are
/// those at the front whose value the counter has reached, and no other
/// batch has a reached value; the pending commands shrink by exactly the
/// commands of the batches that leave; and if any leaves, the free pointer
/// is the write pointer of the last one.
pub proof fn lemma_signal_drains(v: WorkQueueView, uncommitted: nat, current: EventValue)
    requires
        v.consistent(uncommitted),
        v.event.is_some(),
    ensures
        v.completed_by(current) + v.signaled(current).batches == v.batches,
        in_commit_order(v.completed_by(current)),
        forall|i: int|
            0 <= i < v.batches.len() ==> (v.batches[i].value.0 <= current.0 <==> i
                < v.completed_by(current).len()),
        v.signaled(current).pending.len() == v.pending.len() - total_commands(
            v.completed_by(current),
        ),
        v.completed_by(current).len() > 0 ==> v.signaled(current).state.cpu_freeptr
            == v.completed_by(current).last().wptr,
        v.completed_by(current).len() == 0 ==> v.signaled(current).state == v.state,
        v.signaled(current).consistent(uncommitted),
{
    lemma_reached_front_exists(v.batches, current);
    let k = reached_front(v.batches, current);
    let done = v.batches.take(k);
    let rest = v.batches.skip(k);
    lemma_total_split(v.batches, k);
    assert(done + rest =~= v.batches);
    assert forall|i: int| 0 <= i < v.batches.len() implies (v.batches[i].value.0 <= current.0
        <==> i < k) by {
        lemma_reached_are_front(v.batches, current, i);
    }
    assert forall|i: int| 0 <= i < rest.len() implies {
        &&& (#[trigger] rest[i]).value.0 <= v.event.unwrap().1.0
        &&& rest[i].wptr < v.size
        &&& rest[i].commands > 0
    } by {
        assert(rest[i] == v.batches[i + k]);
    }
    assert(in_commit_order(rest)) by {
        assert forall|i: int, j: int| 0 <= i < j < rest.len() implies rest[i].value.0
            < rest[j].value.0 by {
            assert(rest[i] == v.batches[i + k]);
            assert(rest[j] == v.batches[j + k]);
        }
    }
}

/// A batch builder that is rolled back before anything was committed
/// leaves as many commands pending as there were when it began.
pub proof fn lemma_rollback_restores(begun: WorkQueueView, held: WorkQueueView, uncommitted: nat)
    requires
        begun.consistent(0),
        held.consistent(uncommitted),
        held.batches == begun.batches,
    ensures
        held.pending.len() >= uncommitted,
        held.pending.take(held.pending.len() - uncommitted).len() == begun.pending.len(),
{
}

/// Marking an error changes no batch's value, commands or write pointer,
/// so a queue whose parts fit together stays so.
pub proof fn lemma_marked_consistent(
    v: WorkQueueView,
    uncommitted: nat,
    value: EventValue,
    error: BatchError,
)
    requires
        v.consistent(uncommitted),
    ensures
        v.marked(value, error).consistent(uncommitted),
{
    let m = v.marked(value, error);
    if v.event.is_some() {
        lemma_total_same(v.batches, m.batches);
        assert forall|i: int| 0 <= i < m.batches.len() implies {
            &&& (#[trigger] m.batches[i]).value.0 <= m.event.unwrap().1.0
            &&& m.batches[i].wptr < m.size
            &&& m.batches[i].commands > 0
        } by {
            assert(v.batches[i].commands > 0);
        }
    }
}

/// What `begin_batch` comes back with.
pub enum BeginBatch<C: OpaqueGpuObject> {
    /// The batch builder, which now holds the queue.
    Ready(WorkQueueBatch<C>),
    /// The queue, which has no subscription to a completion counter and
    /// was handed none.
    NeedsEvent(WorkQueue<C>),
}

/// What became of the caller's wait for ring space, if it waited.
#[derive(Clone, Copy, Debug, PartialEq, Eq, Structural)]
pub enum Wake {
    /// The caller has not waited.
    NotWaited,
    /// The caller has waited and was woken.
    Woken,
    /// The caller's wait was interrupted.
    Interrupted,
}

/// What `add` did with a command.
pub enum Added<C> {
    /// The command is in the ring.
    Queued,
    /// The ring is full. The command comes back; the caller waits for ring
    /// space and adds it again, saying how the wait ended.
    RingFull(C),
}

/// What a batch builder keeps while it has given its queue up to wait for
/// ring space.
#[derive(Clone, Copy, Debug, PartialEq, Eq, Structural)]
pub struct ParkedBatch {
    /// The number of commands added since the last commit.
    pub commands: usize,
    /// The write pointer behind the last command added.
    pub wptr: u32,
    /// The slot of the execution context that the batches run in.
    pub vm_slot: u32,
}

/// Accumulates commands for a work queue, which it holds until it is
/// submitted or rolled back.
pub struct WorkQueueBatch<C: OpaqueGpuObject> {
    queue: WorkQueue<C>,
    commands: usize,
    wptr: u32,
    vm_slot: u32,
}


impl<C: OpaqueGpuObject> WorkQueueBatch<C> {
    /// The queue that the builder holds.
    pub closed spec fn queue(&self) -> WorkQueue<C> {
        self.queue
    }

    /// The number of commands added since the last commit.
    pub closed spec fn commands(&self) -> usize {
        self.commands
    }

    /// The write pointer behind the last command added.
    pub closed spec fn wptr(&self) -> u32 {
        self.wptr
    }

    /// The slot of the execution context that the batches run in.
    pub closed spec fn vm_slot(&self) -> u32 {
        self.vm_slot
    }

    /// The builder and the queue that it holds fit together.
    pub open spec fn wf(&self) -> bool {
        &&& self.queue().layout_wf()
        &&& self.queue()@.consistent(self.commands() as nat)
        &&& self.wptr() < WQ_SIZE
    }

    /// The builder is as `other` is.
    pub open spec fn same_as(&self, other: &WorkQueueBatch<C>) -> bool {
        &&& self.queue()@ == other.queue()@
        &&& self.queue().descriptor() == other.queue().descriptor()
        &&& self.commands() == other.commands()
        &&& self.wptr() == other.wptr()
        &&& self.vm_slot() == other.vm_slot()
    }

    /// The ring position behind `wptr`.
    pub open spec fn next_wptr(wptr: u32) -> u32 {
        ((wptr + 1) % (WQ_SIZE as int)) as u32
    }

    /// What `add_at` makes of the builder `pre`: the builder `post` and
    /// the result `r`.
    pub open spec fn added_at(
        pre: &WorkQueueBatch<C>,
        post: &WorkQueueBatch<C>,
        command: C,
        wake: Wake,
        doneptr: u32,
        r: Result<Added<C>, Error>,
    ) -> bool {
        if wake == Wake::Interrupted {
            &&& r matches Err(e)
            &&& e == Error::RestartRequested
            &&& post.same_as(pre)
        } else if doneptr == Self::next_wptr(pre.wptr()) {
            &&& r matches Ok(Added::RingFull(c))
            &&& c == command
            &&& post.same_as(pre)
        } else {
            &&& r matches Ok(Added::Queued)
            &&& post.queue()@ == (WorkQueueView {
                ring: pre.queue()@.ring.update(pre.wptr() as int, command.device_address()),
                pending: pre.queue()@.pending.push(command.device_address()),
                ..pre.queue()@
            })
            &&& post.queue().descriptor() == pre.queue().descriptor()
            &&& post.wptr() == Self::next_wptr(pre.wptr())
            &&& post.commands() == pre.commands() + 1
            &&& post.vm_slot() == pre.vm_slot()
        }
    }

    /// Adds a command to the ring, if the ring has space.
    ///
    /// Reads the done pointer that firmware advances and goes on as
    /// `add_at` does with it. `wake` says how the caller's wait for ring
    /// space ended, if it waited: an interrupted wait fails with
    /// restart-requested and changes nothing, whatever the done pointer.
    pub fn add(&mut self, command: C, wake: Wake) -> (r: Result<Added<C>, Error>)
        requires
            old(self).wf(),
        ensures
            final(self).wf(),
            exists|doneptr: u32| Self::added_at(old(self), final(self), command, wake, doneptr, r),
            wake == Wake::Interrupted ==> (r matches Err(e) && e == Error::RestartRequested)
                && final(self).same_as(old(self)),
    {
        let doneptr: u32 = self.queue.doneptr();
        let r = self.add_at(command, wake, doneptr);
        proof {
            assert(Self::added_at(old(self), self, command, wake, doneptr, r));
        }
        r
    }

    /// Adds a command to the ring, if the ring has space, given the done
    /// pointer as firmware last wrote it.
    ///
    /// An interrupted wait fails with restart-requested. Else, where the
    /// ring position behind the write pointer is the done pointer, the
    /// ring is full and the command comes back: the caller waits for ring
    /// space and adds it again, saying how the wait ended. Else the
    /// command's device address is written into the slot at the write
    /// pointer, the write pointer advances, and the command is pending.
    /// Nothing changes but in the last case.
    pub fn add_at(&mut self, command: C, wake: Wake, doneptr: u32) -> (r: Result<
        Added<C>,
        Error,
    >)
        requires
            old(self).wf(),
        ensures
            final(self).wf(),
            Self::added_at(old(self), final(self), command, wake, doneptr, r),
    {
        if wake == Wake::Interrupted {
            return Err(Error::RestartRequested);
        }
        let next_wptr: u32 = (self.wptr + 1) % self.queue.size;
        if doneptr == next_wptr {
            return Ok(Added::RingFull(command));
        }
        let ghost before = self.queue@;
        let address: u64 = command.gpu_va();
        self.queue.info.deref_mut().write_slot(self.wptr, address);
        self.wptr = next_wptr;
        self.queue.pending.push(command);
        let pending: usize = self.queue.pending.len();
        proof {
            assert(self.queue@.pending =~= before.pending.push(address));
            assert(pending == before.pending.len() + 1);
        }
        self.commands = self.commands + 1;
        proof {
            assert(self.queue@ =~= (WorkQueueView {
                ring: before.ring.update(old(self).wptr() as int, address),
                pending: before.pending.push(address),
                ..before
            }));
        }
        Ok(Added::Queued)
    }

    /// Commits the commands added since the last commit as one batch.
    ///
    /// Fails with invalid-argument, and changes nothing, where no command
    /// was added. Else the batch gets the value that follows the one
    /// given out before, the write pointer is published in the ring
    /// state's mirror, and the batch is outstanding; a copy of it is
    /// handed out.
    pub fn commit(&mut self) -> (r: Result<Batch, Error>)
        requires
            old(self).wf(),
            old(self).queue()@.event.is_some(),
            old(self).queue()@.event.unwrap().1.0 < u64::MAX,
        ensures
            final(self).wf(),
            final(self).vm_slot() == old(self).vm_slot(),
            final(self).wptr() == old(self).wptr(),
            final(self).queue().descriptor() == old(self).queue().descriptor(),
            old(self).commands() == 0 ==> (r matches Err(e) && e == Error::InvalidArgument)
                && final(self).same_as(old(self)),
            old(self).commands() > 0 ==> {
                &&& r matches Ok(batch)
                &&& batch == (Batch {
                    value: EventValue((old(self).queue()@.event.unwrap().1.0 + 1) as u64),
                    commands: old(self).commands(),
                    wptr: old(self).wptr(),
                    vm_slot: old(self).vm_slot(),
                    error: None,
                })
                &&& final(self).commands() == 0
                &&& final(self).queue()@ == (WorkQueueView {
                    wptr: old(self).wptr(),
                    batches: old(self).queue()@.batches.push(batch),
                    event: Some((old(self).queue()@.event.unwrap().0, batch.value)),
                    state: RingState { cpu_wptr: old(self).wptr(), ..old(self).queue()@.state },
                    ..old(self).queue()@
                })
            },
    {
        if self.commands == 0 {
            return Err(Error::InvalidArgument);
        }
        let ghost before = self.queue@;
        let (event, baseline) = match self.queue.event {
            Some(pair) => pair,
            None => unreached(),
        };
        let mut event_value = baseline;
        event_value.increment();
        self.queue.event = Some((event, event_value));
        self.queue.info.deref_mut().publish_wptr(self.wptr);
        self.queue.wptr = self.wptr;
        let batch = Batch {
            value: event_value,
            commands: self.commands,
            wptr: self.wptr,
            vm_slot: self.vm_slot,
            error: None,
        };
        self.queue.batches.push(batch);
        self.commands = 0;
        proof {
            lemma_total_push(before.batches, batch);
            assert(self.queue@ =~= (WorkQueueView {
                wptr: old(self).wptr(),
                batches: before.batches.push(batch),
                event: Some((event, event_value)),
                state: RingState { cpu_wptr: old(self).wptr(), ..before.state },
                ..before
            }));
        }
        Ok(batch)
    }

    /// Gives the queue back, without the commands that were added and not
    /// committed: they are no longer pending and are released.
    pub fn rollback(self) -> (r: WorkQueue<C>)
        requires
            self.wf(),
        ensures
            r.wf(),
            r.descriptor() == self.queue().descriptor(),
            r@ == (WorkQueueView {
                pending: self.queue()@.pending.take(
                    self.queue()@.pending.len() - self.commands(),
                ),
                ..self.queue()@
            }),
            r@.pending.len() == total_commands(r@.batches),
    {
        let mut queue = self.queue;
        if self.commands != 0 {
            let new_len: usize = queue.pending.len() - self.commands;
            queue.pending.truncate(new_len);
        }
        proof {
            assert(queue@.pending =~= self.queue()@.pending.take(
                self.queue()@.pending.len() - self.commands(),
            ));
        }
        queue
    }

    /// Ends the batch builder and makes the doorbell message that tells
    /// firmware of the queue's new write pointer. The queue comes back
    /// with it, and is no longer new.
    ///
    /// Fails with invalid-argument where commands were added and not
    /// committed; the queue then comes back as `rollback` leaves it.
    pub fn submit(self) -> (r: (WorkQueue<C>, Result<RunWorkQueueMsg, Error>))
        requires
            self.wf(),
            self.commands() == 0 ==> self.queue()@.event.is_some(),
        ensures
            r.0.wf(),
            r.0.descriptor() == self.queue().descriptor(),
            self.commands() != 0 ==> (r.1 matches Err(e) && e == Error::InvalidArgument) && r.0@
                == (WorkQueueView {
                pending: self.queue()@.pending.take(
                    self.queue()@.pending.len() - self.commands(),
                ),
                ..self.queue()@
            }),
            self.commands() == 0 ==> {
                &&& r.0@ == (WorkQueueView { is_new: false, ..self.queue()@ })
                &&& r.1 matches Ok(msg)
                &&& msg.pipe_type == self.queue()@.pipe_type
                &&& msg.work_queue matches Some(p)
                &&& p.addr() == self.queue()@.descriptor_address
                &&& msg.wptr == self.queue()@.wptr
                &&& msg.event_slot == self.queue()@.event.unwrap().0.slot
                &&& msg.is_new == self.queue()@.is_new
                &&& msg.pad == 0
            },
    {
        if self.commands != 0 {
            return (self.rollback(), Err(Error::InvalidArgument));
        }
        let mut queue = self.queue;
        let event_slot: u32 = match queue.event {
            Some(pair) => pair.0.slot(),
            None => unreached(),
        };
        let msg = RunWorkQueueMsg {
            pipe_type: queue.pipe_type,
            work_queue: Some(queue.info.weak_pointer()),
            wptr: queue.wptr,
            event_slot,
            is_new: queue.new,
            pad: 0,
        };
        queue.new = false;
        (queue, Ok(msg))
    }

    /// Whether the queue still has its subscription. A builder that has
    /// given the queue up to wait for ring space may find it gone, and can
    /// then neither commit nor submit.
    pub fn has_event(&self) -> (r: bool)
        ensures
            r == self.queue()@.event.is_some(),
    {
        self.queue.event.is_some()
    }

    /// Gives the queue up for the time of a wait for ring space, with the
    /// uncommitted commands left pending in it, and keeps what the builder
    /// needs to go on afterwards.
    pub fn park(self) -> (r: (WorkQueue<C>, ParkedBatch))
        requires
            self.wf(),
        ensures
            r.0 == self.queue(),
            r.0.whole(),
            r.0@.uncommitted() == self.commands(),
            r.1 == (ParkedBatch {
                commands: self.commands(),
                wptr: self.wptr(),
                vm_slot: self.vm_slot(),
            }),
    {
        let parked = ParkedBatch {
            commands: self.commands,
            wptr: self.wptr,
            vm_slot: self.vm_slot,
        };
        (self.queue, parked)
    }

    /// The subscription that the batches wait on.
    pub fn event(&self) -> (r: Event)
        requires
            self.queue()@.event.is_some(),
        ensures
            r == self.queue()@.event.unwrap().0,
    {
        match self.queue.event {
            Some(pair) => pair.0,
            None => unreached(),
        }
    }

    /// The value that the latest commit was given.
    pub fn event_value(&self) -> (r: EventValue)
        requires
            self.queue()@.event.is_some(),
        ensures
            r == self.queue()@.event.unwrap().1,
    {
        match self.queue.event {
            Some(pair) => pair.1,
            None => unreached(),
        }
    }

    /// The pipeline class that the queue feeds.
    pub fn pipe_type(&self) -> (r: PipeType)
        ensures
            r == self.queue()@.pipe_type,
    {
        self.queue.pipe_type
    }

    /// Runs `callback` on the ring state's mirror and its shadow: the way
    /// to the words that firmware writes, also while the queue is held.
    pub fn with_ring_state<Ret, F: FnOnce(&RawRingState, &RingState) -> Ret>(
        &self,
        callback: F,
    ) -> (r: Ret)
        requires
            callback.requires(
                (
                    &self.queue().shadow().state.raw_view(),
                    &self.queue().shadow().state.inner_view(),
                ),
            ),
        ensures
            callback.ensures(
                (
                    &self.queue().shadow().state.raw_view(),
                    &self.queue().shadow().state.inner_view(),
                ),
                r,
            ),
    {
        self.queue.with_ring_state(callback)
    }

    /// The number of commands added since the last commit.
    pub fn uncommitted(&self) -> (r: usize)
        ensures
            r == self.commands(),
    {
        self.commands
    }
}

} // verus!
