use vstd::prelude::*;
use crate::error::ComputeError;
use crate::kernel::KernelArgs;

verus! {

/// How the device may use a buffer.
#[derive(Clone, Copy, Debug, PartialEq, Eq, Structural)]
pub enum Access {
    ReadOnly,
    WriteOnly,
    ReadWrite,
}

/// A handle to a fixed-length region of device memory. The host never reads
/// or writes through it: data moves only by the queue's transfers.
#[derive(Clone, Copy, Debug, PartialEq, Eq, Structural)]
pub struct DeviceBuffer {
    pub id: u64,
    pub len: usize,
    pub access: Access,
}

/// The token of one kernel launch. Only a launch makes one, and a read that
/// depends on it takes it by value, so no read can be issued before the
/// launch it waits for, and one token serves one read.
pub struct CompletionEvent {
    position: usize,
}

impl CompletionEvent {
    /// Where the launch that made this token stands in its queue.
    pub closed spec fn position(&self) -> nat {
        self.position as nat
    }
}

/// One operation submitted to the queue.
#[derive(Clone, Copy, Debug, PartialEq, Eq, Structural)]
pub enum QueueOp {
    /// A blocking host-to-device write of `len` elements.
    Write { buffer: u64, len: usize },
    /// A kernel launch over `work_size` work items.
    Launch { work_size: usize },
    /// A device-to-host read of `len` elements that waits for the launch at
    /// position `after`.
    Read { buffer: u64, len: usize, after: usize },
}

/// Every read waits for a launch that stands before it.
pub open spec fn reads_follow_launches(ops: Seq<QueueOp>) -> bool {
    forall|k: int|
        #![trigger ops[k]]
        0 <= k < ops.len() && ops[k] is Read ==> {
            let p = ops[k]->after as int;
            &&& p < k
            &&& ops[p] is Launch
        }
}

/// An in-order command queue: the operations submitted so far, in order.
pub struct CommandQueue {
    ops: Vec<QueueOp>,
}

impl CommandQueue {
    pub closed spec fn ops(&self) -> Seq<QueueOp> {
        self.ops@
    }

    pub open spec fn wf(&self) -> bool {
        reads_follow_launches(self.ops())
    }

    /// An empty queue.
    pub fn new() -> (r: CommandQueue)
        ensures
            r.wf(),
            r.ops() == Seq::<QueueOp>::empty(),
    {
        CommandQueue { ops: Vec::new() }
    }

    /// The operations submitted so far.
    pub fn operations(&self) -> (r: Vec<QueueOp>)
        ensures
            r@ == self.ops(),
    {
        self.ops.clone()
    }

    /// Writes `host_len` host elements into `buffer`. Fails with
    /// `TransferFailed`, submitting nothing, where the counts differ.
    pub fn write(&mut self, buffer: &DeviceBuffer, host_len: usize) -> (r: Result<
        (),
        ComputeError,
    >)
        requires
            old(self).wf(),
        ensures
            final(self).wf(),
            r is Ok <==> host_len == buffer.len,
            r is Err ==> r == Err::<(), ComputeError>(ComputeError::TransferFailed),
            r is Err ==> final(self).ops() == old(self).ops(),
            r is Ok ==> final(self).ops() == old(self).ops().push(
                QueueOp::Write { buffer: buffer.id, len: host_len },
            ),
    {
        if host_len != buffer.len {
            return Err(ComputeError::TransferFailed);
        }
        self.ops.push(QueueOp::Write { buffer: buffer.id, len: host_len });
        Ok(())
    }

    /// Launches a kernel over `work_size` work items and returns its
    /// completion token. Fails with `UnboundArgument`, submitting nothing,
    /// where a slot of `args` is unbound.
    pub fn launch(&mut self, args: &KernelArgs, work_size: usize) -> (r: Result<
        CompletionEvent,
        ComputeError,
    >)
        requires
            old(self).wf(),
        ensures
            final(self).wf(),
            r is Ok <==> args.all_bound(),
            r is Err ==> r == Err::<CompletionEvent, ComputeError>(ComputeError::UnboundArgument),
            r is Err ==> final(self).ops() == old(self).ops(),
            r is Ok ==> final(self).ops() == old(self).ops().push(QueueOp::Launch { work_size }),
            r is Ok ==> r->Ok_0.position() == old(self).ops().len(),
    {
        match args.check_bound() {
            Err(e) => Err(e),
            Ok(()) => {
                let position = self.ops.len();
                self.ops.push(QueueOp::Launch { work_size });
                assert(reads_follow_launches(self.ops@)) by {
                    assert forall|k: int|
                        #![trigger self.ops@[k]]
                        0 <= k < self.ops@.len() && self.ops@[k] is Read implies {
                        let p = self.ops@[k]->after as int;
                        &&& p < k
                        &&& self.ops@[p] is Launch
                    } by {
                        assert(self.ops@[k] == old(self).ops@[k]);
                        let p = self.ops@[k]->after as int;
                        assert(self.ops@[p] == old(self).ops@[p]);
                    }
                }
                Ok(CompletionEvent { position })
            },
        }
    }

    /// Reads `host_len` elements of `buffer` back to the host once the launch
    /// of `event` has completed. Fails with `TransferFailed`, submitting
    /// nothing, where the counts differ or the token is not of a launch of
    /// this queue.
    pub fn read(&mut self, buffer: &DeviceBuffer, host_len: usize, event: CompletionEvent) -> (r:
        Result<(), ComputeError>)
        requires
            old(self).wf(),
        ensures
            final(self).wf(),
            r is Ok <==> (host_len == buffer.len && event.position() < old(self).ops().len()
                && old(self).ops()[event.position() as int] is Launch),
            r is Err ==> r == Err::<(), ComputeError>(ComputeError::TransferFailed),
            r is Err ==> final(self).ops() == old(self).ops(),
            r is Ok ==> final(self).ops() == old(self).ops().push(
                QueueOp::Read { buffer: buffer.id, len: host_len, after: event.position() as usize },
            ),
    {
        if host_len != buffer.len || event.position >= self.ops.len() {
            return Err(ComputeError::TransferFailed);
        }
        let is_launch = match self.ops[event.position] {
            QueueOp::Launch { .. } => true,
            _ => false,
        };
        if !is_launch {
            return Err(ComputeError::TransferFailed);
        }
        let ghost before = self.ops@;
        self.ops.push(QueueOp::Read { buffer: buffer.id, len: host_len, after: event.position });
        assert(reads_follow_launches(self.ops@)) by {
            assert forall|k: int|
                #![trigger self.ops@[k]]
                0 <= k < self.ops@.len() && self.ops@[k] is Read implies {
                let p = self.ops@[k]->after as int;
                &&& p < k
                &&& self.ops@[p] is Launch
            } by {
                if k < before.len() {
                    assert(self.ops@[k] == before[k]);
                    let p = self.ops@[k]->after as int;
                    assert(self.ops@[p] == before[p]);
                } else {
                    assert(self.ops@[event.position as int] == before[event.position as int]);
                }
            }
        }
        Ok(())
    }
}

/// In a queue built through this API, every read waits for a launch that was
/// submitted before it: a read ahead of the computation it depends on cannot
/// be expressed.
pub proof fn lemma_read_after_launch(q: &CommandQueue, k: int)
    requires
        q.wf(),
        0 <= k < q.ops().len(),
        q.ops()[k] is Read,
    ensures
        q.ops()[k]->after < k,
        q.ops()[q.ops()[k]->after as int] is Launch,
{
}

} // verus!
