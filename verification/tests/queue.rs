use asahi::allocation::Allocation;
use asahi::array::GpuOnlyArray;
use asahi::batch::{Batch, BatchError, FaultInfo};
use asahi::descriptor::{
    GpuContextData, NotifierList, PipeType, QueueAllocations, RawQueueInfo, RingState,
};
use asahi::error::Error;
use asahi::event::{Event, EventValue, Subscription, Token};
use asahi::object::{GpuObject, GpuStruct, OpaqueGpuObject};
use asahi::pointer::GpuWeakPointer;
use std::sync::atomic::Ordering;
use asahi::workqueue::{
    Added, BeginBatch, ParkedBatch, Wake, WorkQueue, WorkQueueBatch, GPU_BUF_SIZE, WQ_SIZE,
};

struct Cmd;

impl GpuStruct for Cmd {
    type Raw = u32;
}

type Command = GpuObject<Cmd>;
type Queue = WorkQueue<Command>;
type Builder = WorkQueueBatch<Command>;

fn command(gpu: u64) -> Command {
    GpuObject::new(Allocation::new(Some(0x100), gpu, 16), Cmd, |_| 0).unwrap()
}

fn allocations() -> QueueAllocations {
    QueueAllocations {
        state: Allocation::new(Some(0x1000), 0x10_0000, 0x100),
        ring: Allocation::new(Some(0x2000), 0x20_0000, 0x2800),
        gpu_buf: Allocation::new(Some(0x6000), 0x30_0000, GPU_BUF_SIZE),
        info: Allocation::new(Some(0xa000), 0x40_0000, 0x100),
    }
}

fn context() -> GpuWeakPointer<GpuContextData> {
    GpuOnlyArray::<GpuContextData>::new(Allocation::new(None, 0x50_0000, 0), 1)
        .unwrap()
        .weak_item_pointer(0)
}

fn notifiers() -> GpuWeakPointer<NotifierList> {
    GpuOnlyArray::<NotifierList>::new(Allocation::new(None, 0x60_0000, 0), 1)
        .unwrap()
        .weak_item_pointer(0)
}

fn queue() -> Queue {
    WorkQueue::new(allocations(), context(), notifiers(), PipeType::Fragment, 0x1_0000_0007)
        .unwrap()
}

fn subscription(current: u64) -> Subscription {
    Subscription { event: Event { slot: 5, token: Token(77) }, current: EventValue(current) }
}

fn begin(q: Queue, vm_slot: u32, current: u64) -> Builder {
    match q.begin_batch(vm_slot, Some(subscription(current))) {
        BeginBatch::Ready(b) => b,
        BeginBatch::NeedsEvent(_) => panic!("a subscription was handed in"),
    }
}

fn queued(b: &mut Builder, gpu: u64, doneptr: u32) {
    assert!(matches!(b.add_at(command(gpu), Wake::NotWaited, doneptr), Ok(Added::Queued)));
}

/// A queue with batches of the given sizes, committed at values 0x11, 0x12, ...
fn with_batches(sizes: &[usize], vm_slots: &[u32]) -> (Queue, Vec<Batch>) {
    let mut q = queue();
    let mut batches = Vec::new();
    let mut next = 0x1000u64;
    for (n, slot) in sizes.iter().zip(vm_slots) {
        let mut b = begin(q, *slot, 0x10);
        for _ in 0..*n {
            queued(&mut b, next, 0);
            next += 0x10;
        }
        batches.push(b.commit().unwrap());
        let (back, msg) = b.submit();
        assert!(msg.is_ok());
        q = back;
    }
    (q, batches)
}

#[test]
fn new_queue_is_idle() {
    let q = queue();
    assert_eq!(q.pending_len(), 0);
    assert_eq!(q.batches_len(), 0);
    assert_eq!(q.event(), None);
    assert_eq!(q.last_token(), None);
    assert_eq!(q.pipe_type(), PipeType::Fragment);
    assert_eq!(q.info_pointer().get(), 0x40_0000);
    assert_eq!(q.ring_slot(0), 0);
    assert_eq!(q.ring_slot(WQ_SIZE - 1), 0);
    assert_eq!(q.ring_state(), RingState { cpu_wptr: 0, cpu_freeptr: 0 });
    assert_eq!(q.with_ring_state(|raw, _| raw.rb_size), 0x500);
    assert_eq!(q.with_ring_state(|raw, _| raw.cpu_wptr.load(Ordering::Acquire)), 0);
    assert_eq!(q.with_ring_state(|raw, _| raw.cpu_freeptr.load(Ordering::Acquire)), 0);
    assert_eq!(q.doneptr(), 0);
    assert_eq!(WQ_SIZE, 0x500);
}

#[test]
fn new_queue_needs_room_for_every_object() {
    let small = Allocation::new(Some(0x1000), 0x10_0000, 1);
    let mut a = allocations();
    a.state = small;
    assert_eq!(
        Queue::new(a, context(), notifiers(), PipeType::Vertex, 1).err(),
        Some(Error::OutOfMemory)
    );
    let mut a = allocations();
    a.ring = Allocation::new(Some(0x2000), 0x20_0000, 0x27ff);
    assert_eq!(
        Queue::new(a, context(), notifiers(), PipeType::Vertex, 1).err(),
        Some(Error::OutOfMemory)
    );
    let mut a = allocations();
    a.gpu_buf = Allocation::new(None, 0x30_0000, GPU_BUF_SIZE);
    assert_eq!(
        Queue::new(a, context(), notifiers(), PipeType::Vertex, 1).err(),
        Some(Error::InvalidArgument)
    );
    let mut a = allocations();
    a.info = Allocation::new(Some(0xa000), 0, 0x100);
    assert_eq!(
        Queue::new(a, context(), notifiers(), PipeType::Vertex, 1).err(),
        Some(Error::InvalidArgument)
    );
    let mut a = allocations();
    a.info = Allocation::new(Some(0xa000), 0x40_0000, std::mem::size_of::<RawQueueInfo>() - 1);
    assert_eq!(
        Queue::new(a, context(), notifiers(), PipeType::Vertex, 1).err(),
        Some(Error::OutOfMemory)
    );
    // The ring's state is looked at first.
    let mut a = allocations();
    a.state = Allocation::new(Some(0x1000), 0, 0x100);
    a.ring = Allocation::new(Some(0x2000), 0x20_0000, 0);
    assert_eq!(
        Queue::new(a, context(), notifiers(), PipeType::Vertex, 1).err(),
        Some(Error::InvalidArgument)
    );
}

#[test]
fn begin_batch_asks_for_a_subscription_once() {
    let q = queue();
    let q = match q.begin_batch(1, None) {
        BeginBatch::NeedsEvent(q) => q,
        BeginBatch::Ready(_) => panic!("the queue has no subscription"),
    };
    assert_eq!(q.last_token(), None);
    let mut b = begin(q, 1, 0x10);
    assert_eq!(b.event(), Event { slot: 5, token: Token(77) });
    assert_eq!(b.event_value(), EventValue(0x10));
    assert_eq!(b.pipe_type(), PipeType::Fragment);
    queued(&mut b, 0x1000, 0);
    b.commit().unwrap();
    let (q, _) = b.submit();
    assert_eq!(q.last_token(), Some(Token(77)));
    // With a batch outstanding the subscription stays, whatever is handed in.
    let other = Subscription { event: Event { slot: 9, token: Token(78) }, current: EventValue(0) };
    let b = match q.begin_batch(1, Some(other)) {
        BeginBatch::Ready(b) => b,
        BeginBatch::NeedsEvent(_) => panic!("the queue has a subscription"),
    };
    assert_eq!(b.event(), Event { slot: 5, token: Token(77) });
    assert_eq!(b.event_value(), EventValue(0x11));
    let q = b.rollback();
    let b = match q.begin_batch(1, None) {
        BeginBatch::Ready(b) => b,
        BeginBatch::NeedsEvent(_) => panic!("the queue has a subscription"),
    };
    assert_eq!(b.uncommitted(), 0);
}

#[test]
fn add_writes_ring_slot_and_advances() {
    let mut b = begin(queue(), 1, 0x10);
    queued(&mut b, 0xaaa0, 0);
    queued(&mut b, 0xbbb0, 0);
    assert_eq!(b.uncommitted(), 2);
    let batch = b.commit().unwrap();
    assert_eq!(batch.wptr, 2);
    let (q, _) = b.submit();
    assert_eq!(q.ring_slot(0), 0xaaa0);
    assert_eq!(q.ring_slot(1), 0xbbb0);
    assert_eq!(q.ring_slot(2), 0);
    assert_eq!(q.pending_len(), 2);
}

#[test]
fn commit_of_nothing_is_invalid() {
    let mut b = begin(queue(), 1, 0x10);
    assert_eq!(b.commit().err(), Some(Error::InvalidArgument));
    assert_eq!(b.event_value(), EventValue(0x10));
    queued(&mut b, 0x1000, 0);
    assert!(b.commit().is_ok());
    assert_eq!(b.commit().err(), Some(Error::InvalidArgument));
    let (q, _) = b.submit();
    assert_eq!(q.batches_len(), 1);
}

#[test]
fn commit_counts_commands() {
    let mut b = begin(queue(), 4, 0x10);
    for i in 0..3 {
        queued(&mut b, 0x1000 + i * 0x10, 0);
    }
    let first = b.commit().unwrap();
    assert_eq!(
        first,
        Batch { value: EventValue(0x11), commands: 3, wptr: 3, vm_slot: 4, error: None }
    );
    assert_eq!(first.value(), EventValue(0x11));
    assert_eq!(b.uncommitted(), 0);
    queued(&mut b, 0x2000, 0);
    let second = b.commit().unwrap();
    assert_eq!(
        second,
        Batch { value: EventValue(0x12), commands: 1, wptr: 4, vm_slot: 4, error: None }
    );
    assert_eq!(b.event_value(), EventValue(0x12));
    let (q, _) = b.submit();
    assert_eq!(q.batches_len(), 2);
    assert_eq!(q.pending_len(), 4);
    assert_eq!(q.ring_state().cpu_wptr, 4);
}

#[test]
fn submit_makes_the_doorbell() {
    let mut b = begin(queue(), 1, 0x10);
    queued(&mut b, 0x1000, 0);
    queued(&mut b, 0x1010, 0);
    b.commit().unwrap();
    let (q, msg) = b.submit();
    let msg = msg.unwrap();
    assert_eq!(msg.pipe_type, PipeType::Fragment);
    assert_eq!(msg.work_queue.map(|p| p.get()), Some(0x40_0000));
    assert_eq!(msg.wptr, 2);
    assert_eq!(msg.event_slot, 5);
    assert!(msg.is_new);
    assert_eq!(msg.pad, 0);
    let mut b = begin(q, 1, 0x10);
    queued(&mut b, 0x1020, 0);
    b.commit().unwrap();
    let (_, msg) = b.submit();
    let msg = msg.unwrap();
    assert!(!msg.is_new);
    assert_eq!(msg.wptr, 3);
}

#[test]
fn submit_with_uncommitted_commands_is_invalid() {
    let mut b = begin(queue(), 1, 0x10);
    queued(&mut b, 0x1000, 0);
    b.commit().unwrap();
    queued(&mut b, 0x1010, 0);
    let (q, msg) = b.submit();
    assert_eq!(msg.err(), Some(Error::InvalidArgument));
    assert_eq!(q.pending_len(), 1);
    assert_eq!(q.batches_len(), 1);
    // The queue is still new: nothing was sent.
    let b = begin(q, 1, 0x10);
    let (_, msg) = b.submit();
    assert!(msg.unwrap().is_new);
}

#[test]
fn rollback_restores_pending() {
    let (q, _) = with_batches(&[2], &[1]);
    assert_eq!(q.pending_len(), 2);
    let mut b = begin(q, 1, 0x10);
    queued(&mut b, 0x9000, 0);
    queued(&mut b, 0x9010, 0);
    queued(&mut b, 0x9020, 0);
    assert_eq!(b.uncommitted(), 3);
    let q = b.rollback();
    assert_eq!(q.pending_len(), 2);
    assert_eq!(q.batches_len(), 1);
    assert_eq!(q.ring_state().cpu_wptr, 2);
    // The next builder starts at the committed write pointer again.
    let mut b = begin(q, 1, 0x10);
    queued(&mut b, 0x7000, 0);
    assert_eq!(b.commit().unwrap().wptr, 3);
    let (q, _) = b.submit();
    assert_eq!(q.ring_slot(2), 0x7000);
    let q = begin(q, 1, 0x10).rollback();
    assert_eq!(q.pending_len(), 3);
}

#[test]
fn signal_completes_in_commit_order() {
    let (mut q, batches) = with_batches(&[2, 1, 3], &[1, 1, 1]);
    assert_eq!(batches[0].value, EventValue(0x11));
    assert_eq!(batches[2].value, EventValue(0x13));
    let s = q.signal(EventValue(0x10));
    assert!(s.completed.is_empty());
    assert!(!s.empty);
    assert_eq!(q.pending_len(), 6);
    assert_eq!(q.ring_state().cpu_freeptr, 0);
    let s = q.signal(EventValue(0x12));
    assert_eq!(s.completed, vec![batches[0], batches[1]]);
    assert!(!s.empty);
    assert_eq!(q.pending_len(), 3);
    assert_eq!(q.batches_len(), 1);
    assert_eq!(q.ring_state().cpu_freeptr, 3);
    let s = q.signal(EventValue(0x12));
    assert!(s.completed.is_empty());
    assert_eq!(q.ring_state().cpu_freeptr, 3);
    let s = q.signal(EventValue(0x99));
    assert_eq!(s.completed, vec![batches[2]]);
    assert!(s.empty);
    assert_eq!(q.pending_len(), 0);
    assert_eq!(q.ring_state().cpu_freeptr, 6);
    assert_eq!(q.event(), None);
    assert_eq!(q.last_token(), Some(Token(77)));
    assert_eq!(s.completed[0].wait(), Ok(()));
}

#[test]
fn signal_without_subscription_changes_nothing() {
    let mut q = queue();
    let s = q.signal(EventValue(5));
    assert!(s.empty);
    assert!(s.completed.is_empty());
    assert_eq!(q.pending_len(), 0);
    q.mark_error(EventValue(0), EventValue(5), BatchError::Unknown);
    assert_eq!(q.batches_len(), 0);
}

#[test]
fn queue_subscribes_anew_after_draining() {
    let (mut q, _) = with_batches(&[1], &[1]);
    assert!(q.signal(EventValue(0x11)).empty);
    let q = match q.begin_batch(1, None) {
        BeginBatch::NeedsEvent(q) => q,
        BeginBatch::Ready(_) => panic!("the subscription has ended"),
    };
    assert_eq!(q.last_token(), Some(Token(77)));
    let fresh = Subscription { event: Event { slot: 6, token: Token(80) }, current: EventValue(0x40) };
    let mut b = match q.begin_batch(1, Some(fresh)) {
        BeginBatch::Ready(b) => b,
        BeginBatch::NeedsEvent(_) => panic!("a subscription was handed in"),
    };
    queued(&mut b, 0x1000, 0);
    assert_eq!(b.commit().unwrap().value, EventValue(0x41));
    let (q, msg) = b.submit();
    assert_eq!(msg.unwrap().event_slot, 6);
    assert_eq!(q.last_token(), Some(Token(80)));
}

#[test]
fn fault_kills_batches_of_other_contexts() {
    let (mut q, _) = with_batches(&[1, 1, 1, 1], &[3, 4, 3, 4]);
    let fault = BatchError::Fault(FaultInfo { address: 0xdead, vm_slot: 3 });
    // 0x11 is already complete; the fault reaches up to 0x13.
    let s = q.mark_error(EventValue(0x11), EventValue(0x13), fault);
    assert_eq!(s.completed.len(), 1);
    assert_eq!(s.completed[0].wait(), Ok(()));
    assert!(!s.empty);
    assert_eq!(q.batches_len(), 3);
    let s = q.signal(EventValue(0x14));
    assert!(s.empty);
    assert_eq!(s.completed.len(), 3);
    assert_eq!(s.completed[0].vm_slot, 4);
    assert_eq!(s.completed[0].wait(), Err(BatchError::Killed));
    assert_eq!(s.completed[1].vm_slot, 3);
    assert_eq!(s.completed[1].wait(), Err(fault));
    assert_eq!(s.completed[2].wait(), Ok(()));
}

#[test]
fn other_errors_are_marked_as_they_are() {
    let (mut q, _) = with_batches(&[1, 2], &[3, 4]);
    q.mark_error(EventValue(0x10), EventValue(0x11), BatchError::Timeout);
    q.mark_error(EventValue(0x10), EventValue(0x10), BatchError::Unknown);
    let s = q.signal(EventValue(0x12));
    assert_eq!(s.completed[0].wait(), Err(BatchError::Timeout));
    assert_eq!(s.completed[1].wait(), Ok(()));
    let (mut q, _) = with_batches(&[1, 2], &[3, 4]);
    let s = q.mark_error(EventValue(0x10), EventValue(0x12), BatchError::Killed);
    assert!(s.completed.is_empty());
    assert_eq!(q.pending_len(), 3);
    q.mark_error(EventValue(0x10), EventValue(0x11), BatchError::Unknown);
    let s = q.signal(EventValue(0x12));
    assert_eq!(s.completed[0].wait(), Err(BatchError::Unknown));
    assert_eq!(s.completed[1].wait(), Err(BatchError::Killed));
}

#[test]
fn attribute_goes_by_vm_slot() {
    let info = FaultInfo { address: 1, vm_slot: 7 };
    assert_eq!(BatchError::Fault(info).attribute(8), BatchError::Killed);
    assert_eq!(BatchError::Fault(info).attribute(7), BatchError::Fault(info));
    assert_eq!(BatchError::Timeout.attribute(7), BatchError::Timeout);
    assert_eq!(BatchError::Unknown.attribute(8), BatchError::Unknown);
    assert_eq!(BatchError::Killed.attribute(7), BatchError::Killed);
}

#[test]
fn add_waits_for_the_last_free_slot() {
    // The done pointer stands at 2: one slot is free behind the write pointer.
    let mut b = begin(queue(), 1, 0x10);
    queued(&mut b, 0x1000, 2);
    let cmd = match b.add_at(command(0x2000), Wake::NotWaited, 2) {
        Ok(Added::RingFull(cmd)) => cmd,
        _ => panic!("the ring is full"),
    };
    assert_eq!(b.uncommitted(), 1);
    // Woken, but firmware has not moved on: still full.
    let cmd = match b.add_at(cmd, Wake::Woken, 2) {
        Ok(Added::RingFull(cmd)) => cmd,
        _ => panic!("the ring is full"),
    };
    // Firmware has moved the done pointer on.
    assert!(matches!(b.add_at(cmd, Wake::Woken, 3), Ok(Added::Queued)));
    assert_eq!(b.uncommitted(), 2);
    assert_eq!(b.commit().unwrap().wptr, 2);
    let (q, _) = b.submit();
    assert_eq!(q.ring_slot(1), 0x2000);
}

#[test]
fn interrupted_add_changes_nothing() {
    let mut b = begin(queue(), 1, 0x10);
    queued(&mut b, 0x1000, 2);
    assert!(matches!(
        b.add_at(command(0x2000), Wake::Interrupted, 2),
        Err(Error::RestartRequested)
    ));
    // Also where there would be room by now.
    assert!(matches!(
        b.add_at(command(0x2000), Wake::Interrupted, 5),
        Err(Error::RestartRequested)
    ));
    assert_eq!(b.uncommitted(), 1);
    assert_eq!(b.commit().unwrap().wptr, 1);
    let (q, _) = b.submit();
    assert_eq!(q.pending_len(), 1);
    assert_eq!(q.ring_slot(1), 0);
}

#[test]
fn write_pointer_wraps_at_ring_size() {
    let mut b = begin(queue(), 1, 0x10);
    for i in 0..(WQ_SIZE as u64 - 1) {
        queued(&mut b, 0x1000 + i, 0);
    }
    // The slot behind the write pointer is slot 0, where the done pointer is.
    assert!(matches!(b.add_at(command(0x9999), Wake::NotWaited, 0), Ok(Added::RingFull(_))));
    assert!(matches!(b.add_at(command(0x9999), Wake::NotWaited, 1), Ok(Added::Queued)));
    let batch = b.commit().unwrap();
    assert_eq!(batch.wptr, 0);
    assert_eq!(batch.commands, 0x500);
    let (mut q, _) = b.submit();
    assert_eq!(q.ring_slot(WQ_SIZE - 1), 0x9999);
    assert_eq!(q.ring_state().cpu_wptr, 0);
    assert!(q.signal(EventValue(0x11)).empty);
    assert_eq!(q.ring_state().cpu_freeptr, 0);
    assert_eq!(q.pending_len(), 0);
}

#[test]
fn parked_builder_goes_on_after_signal() {
    let (q, _) = with_batches(&[2], &[1]);
    let mut b = begin(q, 1, 0x10);
    queued(&mut b, 0x5000, 0);
    let cmd = match b.add_at(command(0x6000), Wake::NotWaited, 4) {
        Ok(Added::RingFull(cmd)) => cmd,
        _ => panic!("the ring is full"),
    };
    let (mut q, parked) = b.park();
    assert_eq!(parked, ParkedBatch { commands: 1, wptr: 3, vm_slot: 1 });
    assert_eq!(q.uncommitted_len(), 1);
    assert_eq!(q.pending_len(), 3);
    // While the builder waits, the first batch completes.
    let s = q.signal(EventValue(0x11));
    assert_eq!(s.completed.len(), 1);
    assert!(s.empty);
    assert_eq!(q.uncommitted_len(), 1);
    assert_eq!(q.pending_len(), 1);
    let mut b = q.resume(parked);
    assert_eq!(b.uncommitted(), 1);
    // The last batch took the subscription with it.
    assert!(!b.has_event());
    assert!(matches!(b.add_at(cmd, Wake::Woken, 5), Ok(Added::Queued)));
    assert_eq!(b.uncommitted(), 2);
    // Nothing can be sent for commands that were not committed.
    let (q, msg) = b.submit();
    assert_eq!(msg.err(), Some(Error::InvalidArgument));
    assert_eq!(q.pending_len(), 0);
    assert_eq!(q.uncommitted_len(), 0);
}

#[test]
fn uncommitted_len_counts_what_no_batch_holds() {
    let (q, _) = with_batches(&[2, 3], &[1, 1]);
    assert_eq!(q.uncommitted_len(), 0);
    let mut b = begin(q, 1, 0x10);
    assert!(b.has_event());
    queued(&mut b, 0x5000, 0);
    queued(&mut b, 0x5010, 0);
    let (q, parked) = b.park();
    assert_eq!(q.uncommitted_len(), 2);
    let mut b = q.resume(parked);
    assert_eq!(b.commit().unwrap().commands, 2);
    let (q, parked) = b.park();
    assert_eq!(parked.commands, 0);
    assert_eq!(q.uncommitted_len(), 0);
    assert_eq!(q.batches_len(), 3);
}

struct Blit;

impl GpuStruct for Blit {
    type Raw = [u64; 4];
}

#[test]
fn queue_takes_commands_of_several_types() {
    let q: WorkQueue<Box<dyn OpaqueGpuObject>> =
        WorkQueue::new(allocations(), context(), notifiers(), PipeType::Compute, 1).unwrap();
    let mut b = match q.begin_batch(2, Some(subscription(0))) {
        BeginBatch::Ready(b) => b,
        BeginBatch::NeedsEvent(_) => panic!("a subscription was handed in"),
    };
    let blit =
        GpuObject::new(Allocation::new(Some(0x100), 0x7700, 64), Blit, |_| [0; 4]).unwrap();
    assert!(matches!(b.add_at(Box::new(command(0x6600)), Wake::NotWaited, 0), Ok(Added::Queued)));
    assert!(matches!(b.add_at(Box::new(blit), Wake::NotWaited, 0), Ok(Added::Queued)));
    let batch = b.commit().unwrap();
    assert_eq!(batch.commands, 2);
    assert_eq!(batch.value, EventValue(1));
    let (q, msg) = b.submit();
    assert_eq!(msg.unwrap().pipe_type, PipeType::Compute);
    assert_eq!(q.ring_slot(0), 0x6600);
    assert_eq!(q.ring_slot(1), 0x7700);
}

#[test]
fn pointers_are_published_to_the_mirror() {
    let (mut q, _) = with_batches(&[2, 1], &[1, 1]);
    assert_eq!(q.ring_state(), RingState { cpu_wptr: 3, cpu_freeptr: 0 });
    assert_eq!(q.with_ring_state(|raw, _| raw.cpu_wptr.load(Ordering::Acquire)), 3);
    q.signal(EventValue(0x11));
    assert_eq!(q.ring_state(), RingState { cpu_wptr: 3, cpu_freeptr: 2 });
    assert_eq!(q.with_ring_state(|raw, _| raw.cpu_freeptr.load(Ordering::Acquire)), 2);
    assert_eq!(q.with_ring_state(|raw, shadow| (raw.rb_size, shadow.cpu_wptr)), (0x500, 3));
}

#[test]
fn add_reads_the_done_pointer_that_firmware_wrote() {
    let q = queue();
    // Firmware leaves the done pointer at 2: one slot is free.
    q.with_ring_state(|raw, _| raw.gpu_doneptr.store(2, Ordering::Release));
    assert_eq!(q.doneptr(), 2);
    let mut b = begin(q, 1, 0x10);
    assert!(matches!(b.add(command(0x1000), Wake::NotWaited), Ok(Added::Queued)));
    let cmd = match b.add(command(0x2000), Wake::NotWaited) {
        Ok(Added::RingFull(cmd)) => cmd,
        _ => panic!("the ring is full"),
    };
    let cmd = match b.add(cmd, Wake::Woken) {
        Ok(Added::RingFull(cmd)) => cmd,
        _ => panic!("the ring is still full"),
    };
    assert!(matches!(b.add(command(0x3000), Wake::Interrupted), Err(Error::RestartRequested)));
    assert_eq!(b.uncommitted(), 1);
    // Firmware moves on while the builder holds the queue.
    b.with_ring_state(|raw, _| raw.gpu_doneptr.store(3, Ordering::Release));
    assert!(matches!(b.add(cmd, Wake::Woken), Ok(Added::Queued)));
    assert_eq!(b.uncommitted(), 2);
    assert_eq!(b.commit().unwrap().wptr, 2);
    let (q, _) = b.submit();
    assert_eq!(q.ring_slot(0), 0x1000);
    assert_eq!(q.ring_slot(1), 0x2000);
    assert_eq!(q.pending_len(), 2);
}
