//! Batches: what a commit makes of the commands added before it.

use crate::error::Error;
use crate::event::EventValue;
use vstd::prelude::*;

verus! {

/// What the device reports of a fault: where it happened, and in which
/// execution context.
#[derive(Clone, Copy, Debug, PartialEq, Eq, Structural)]
pub struct FaultInfo {
    /// The device address that faulted.
    pub address: u64,
    /// The slot of the execution context that faulted.
    pub vm_slot: u32,
}

/// How a batch failed.
#[derive(Clone, Copy, Debug, PartialEq, Eq, Structural)]
pub enum BatchError {
    /// A watchdog gave the batch up.
    Timeout,
    /// The batch's own execution context faulted.
    Fault(FaultInfo),
    /// The batch failed and no reason is known.
    Unknown,
    /// Another execution context faulted and took the batch with it.
    Killed,
}

impl BatchError {
    /// The error that a batch run in `vm_slot` gets when `self` is
    /// reported: a fault of another execution context kills the batch,
    /// every other error is its own.
    pub open spec fn attributed_to(self, vm_slot: u32) -> BatchError {
        match self {
            BatchError::Fault(info) => if info.vm_slot != vm_slot {
                BatchError::Killed
            } else {
                self
            },
            _ => self,
        }
    }

    /// The error that a batch run in `vm_slot` gets when `self` is
    /// reported.
    pub fn attribute(self, vm_slot: u32) -> (r: BatchError)
        ensures
            r == self.attributed_to(vm_slot),
    {
        match self {
            BatchError::Fault(info) => if info.vm_slot != vm_slot {
                BatchError::Killed
            } else {
                self
            },
            _ => self,
        }
    }
}

/// A fault marked on a batch of another execution context than the one
/// that faulted kills the batch; marked on a batch of the same execution
/// context it stays the fault; every other error stays what it is.
pub proof fn lemma_fault_attribution(info: FaultInfo, vm_slot: u32)
    ensures
        info.vm_slot != vm_slot ==> BatchError::Fault(info).attributed_to(vm_slot)
            == BatchError::Killed,
        info.vm_slot == vm_slot ==> BatchError::Fault(info).attributed_to(vm_slot)
            == BatchError::Fault(info),
        BatchError::Timeout.attributed_to(vm_slot) == BatchError::Timeout,
        BatchError::Unknown.attributed_to(vm_slot) == BatchError::Unknown,
        BatchError::Killed.attributed_to(vm_slot) == BatchError::Killed,
{
}

impl From<BatchError> for Error {
    fn from(err: BatchError) -> (r: Error) {
        match err {
            BatchError::Timeout => Error::TimedOut,
            BatchError::Fault(_) => Error::Io,
            BatchError::Unknown => Error::NoData,
            BatchError::Killed => Error::Canceled,
        }
    }
}

impl vstd::std_specs::convert::FromSpecImpl<BatchError> for Error {
    open spec fn obeys_from_spec() -> bool {
        true
    }

    open spec fn from_spec(err: BatchError) -> Error {
        match err {
            BatchError::Timeout => Error::TimedOut,
            BatchError::Fault(_) => Error::Io,
            BatchError::Unknown => Error::NoData,
            BatchError::Killed => Error::Canceled,
        }
    }
}

/// A committed unit of one or more commands, complete once the completion
/// counter has reached its value.
#[derive(Clone, Copy, Debug, PartialEq, Eq, Structural)]
pub struct Batch {
    /// The counter value at which the batch is complete.
    pub value: EventValue,
    /// The number of commands in the batch.
    pub commands: usize,
    /// The ring's write pointer just behind the batch's last command.
    pub wptr: u32,
    /// The slot of the execution context that the batch runs in.
    pub vm_slot: u32,
    /// How the batch failed, if it did.
    pub error: Option<BatchError>,
}

impl Batch {
    /// The counter value at which the batch is complete.
    pub fn value(&self) -> (r: EventValue)
        ensures
            r == self.value,
    {
        self.value
    }

    /// The settled outcome of the batch, for a caller that has waited for
    /// its completion: success unless an error was marked on it.
    pub fn wait(&self) -> (r: Result<(), BatchError>)
        ensures
            r == match self.error {
                None => Ok::<(), BatchError>(()),
                Some(e) => Err::<(), BatchError>(e),
            },
    {
        match self.error {
            None => Ok(()),
            Some(e) => Err(e),
        }
    }
}

/// The number of commands in the batches of `s`.
pub open spec fn total_commands(s: Seq<Batch>) -> nat
    decreases s.len(),
{
    if s.len() == 0 {
        0
    } else {
        total_commands(s.drop_last()) + s.last().commands as nat
    }
}

/// A batch appended to a run of batches adds its own commands to theirs.
pub proof fn lemma_total_push(s: Seq<Batch>, b: Batch)
    ensures
        total_commands(s.push(b)) == total_commands(s) + b.commands,
{
    assert(s.push(b).drop_last() =~= s);
}

/// The commands of a run of batches are those of any front part and those
/// of the rest.
pub proof fn lemma_total_split(s: Seq<Batch>, k: int)
    requires
        0 <= k <= s.len(),
    ensures
        total_commands(s) == total_commands(s.take(k)) + total_commands(s.skip(k)),
    decreases s.len(),
{
    if k == s.len() {
        assert(s.take(k) =~= s);
        assert(s.skip(k).len() == 0);
    } else {
        lemma_total_split(s.drop_last(), k);
        assert(s.drop_last().take(k) =~= s.take(k));
        assert(s.skip(k).drop_last() =~= s.drop_last().skip(k));
        assert(s.skip(k).last() == s.last());
    }
}

/// Runs of batches that agree in their commands have as many commands.
pub proof fn lemma_total_same(a: Seq<Batch>, b: Seq<Batch>)
    requires
        a.len() == b.len(),
        forall|i: int| 0 <= i < a.len() ==> a[i].commands == b[i].commands,
    ensures
        total_commands(a) == total_commands(b),
    decreases a.len(),
{
    if a.len() > 0 {
        lemma_total_same(a.drop_last(), b.drop_last());
    }
}

/// The batches are in order of commit: each value is above the one before.
pub open spec fn in_commit_order(s: Seq<Batch>) -> bool {
    forall|i: int, j: int| 0 <= i < j < s.len() ==> s[i].value.0 < s[j].value.0
}

/// `k` batches at the front of `s` have a value that `current` has
/// reached, and the one behind them, if there is one, has not.
pub open spec fn is_reached_front(s: Seq<Batch>, current: EventValue, k: int) -> bool {
    &&& 0 <= k <= s.len()
    &&& forall|i: int| 0 <= i < k ==> s[i].value.0 <= current.0
    &&& k < s.len() ==> s[k].value.0 > current.0
}

/// The number of batches at the front of `s` whose value `current` has
/// reached.
pub open spec fn reached_front(s: Seq<Batch>, current: EventValue) -> int {
    choose|k: int| is_reached_front(s, current, k)
}

/// There is one such number, so a count that fits is the count.
pub proof fn lemma_reached_front_unique(s: Seq<Batch>, current: EventValue, k: int)
    requires
        is_reached_front(s, current, k),
    ensures
        reached_front(s, current) == k,
{
    let c = reached_front(s, current);
    assert(is_reached_front(s, current, c));
    if c < k {
        assert(s[c].value.0 <= current.0);
    }
    if k < c {
        assert(s[k].value.0 <= current.0);
    }
}

/// Every run of batches has such a number.
pub proof fn lemma_reached_front_exists(s: Seq<Batch>, current: EventValue)
    ensures
        is_reached_front(s, current, reached_front(s, current)),
    decreases s.len(),
{
    if s.len() == 0 {
        assert(is_reached_front(s, current, 0));
    } else if s[0].value.0 > current.0 {
        assert(is_reached_front(s, current, 0));
    } else {
        let t = s.skip(1);
        lemma_reached_front_exists(t, current);
        let k = reached_front(t, current);
        assert forall|i: int| 0 <= i < k + 1 implies s[i].value.0 <= current.0 by {
            if i > 0 {
                assert(t[i - 1] == s[i]);
            }
        }
        if k + 1 < s.len() {
            assert(t[k] == s[k + 1]);
        }
        assert(is_reached_front(s, current, k + 1));
    }
}

/// Among batches in order of commit, the reached ones are exactly those at
/// the front: once the counter has reached a batch's value, that batch and
/// every batch committed before it are among them.
pub proof fn lemma_reached_are_front(s: Seq<Batch>, current: EventValue, i: int)
    requires
        in_commit_order(s),
        0 <= i < s.len(),
    ensures
        s[i].value.0 <= current.0 <==> i < reached_front(s, current),
{
    lemma_reached_front_exists(s, current);
    let k = reached_front(s, current);
    if i >= k {
        if i > k {
            assert(s[k].value.0 < s[i].value.0);
        }
    }
}

} // verus!
