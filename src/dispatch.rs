use vstd::prelude::*;
use crate::error::ComputeError;
use crate::kernel::{kind_of, scalar_multiply_kinds, scalar_multiply_signature, ArgValue, KernelArgs};
use crate::queue::{CommandQueue, DeviceBuffer, QueueOp};

verus! {

/// The operations that one scalar-multiply dispatch of `len` elements
/// appends to a queue that already holds `before` operations: the upload of
/// the source, the launch, and the read of the destination that waits for
/// that launch.
pub open spec fn dispatch_ops(before: nat, src: DeviceBuffer, dst: DeviceBuffer, len: usize) -> Seq<
    QueueOp,
> {
    seq![
        QueueOp::Write { buffer: src.id, len },
        QueueOp::Launch { work_size: len },
        QueueOp::Read { buffer: dst.id, len, after: (before + 1) as usize },
    ]
}

/// Binds the three arguments of `multiply_by_scalar`: the source buffer, the
/// coefficient's four bytes and the destination buffer.
pub fn bind_scalar_multiply(src: &DeviceBuffer, coeff_bits: u32, dst: &DeviceBuffer) -> (r:
    KernelArgs)
    ensures
        r.wf(),
        r.kinds() == scalar_multiply_kinds(),
        r.all_bound(),
        r.slots() == seq![
            Some(ArgValue::Buffer(src.id)),
            Some(ArgValue::Scalar(coeff_bits)),
            Some(ArgValue::Buffer(dst.id)),
        ],
{
    let mut args = KernelArgs::new(scalar_multiply_signature());
    let _ = args.bind(0, ArgValue::Buffer(src.id));
    let _ = args.bind(1, ArgValue::Scalar(coeff_bits));
    let _ = args.bind(2, ArgValue::Buffer(dst.id));
    assert(args.slots() =~= seq![
        Some(ArgValue::Buffer(src.id)),
        Some(ArgValue::Scalar(coeff_bits)),
        Some(ArgValue::Buffer(dst.id)),
    ]);
    args
}

/// Submits one scalar-multiply dispatch of `host_len` elements: upload the
/// host array into `src`, launch over one work item per element, and read
/// `dst` back once that launch has completed. Fails with `TransferFailed`,
/// submitting nothing, where either buffer does not hold `host_len` elements.
pub fn submit_scalar_multiply(
    queue: &mut CommandQueue,
    src: &DeviceBuffer,
    dst: &DeviceBuffer,
    host_len: usize,
    coeff_bits: u32,
) -> (r: Result<(), ComputeError>)
    requires
        old(queue).wf(),
    ensures
        final(queue).wf(),
        r is Ok <==> (src.len == host_len && dst.len == host_len),
        r is Err ==> r == Err::<(), ComputeError>(ComputeError::TransferFailed),
        r is Err ==> final(queue).ops() == old(queue).ops(),
        r is Ok ==> final(queue).ops() == old(queue).ops() + dispatch_ops(
            old(queue).ops().len(),
            *src,
            *dst,
            host_len,
        ),
{
    if src.len != host_len || dst.len != host_len {
        return Err(ComputeError::TransferFailed);
    }
    let ghost start = queue.ops();
    let args = bind_scalar_multiply(src, coeff_bits, dst);
    let _ = queue.write(src, host_len);
    let event = match queue.launch(&args, host_len) {
        Ok(e) => e,
        Err(e) => {
            return Err(e);
        },
    };
    let _ = queue.read(dst, host_len, event);
    assert(queue.ops() =~= start + dispatch_ops(start.len(), *src, *dst, host_len));
    Ok(())
}

} // verus!
