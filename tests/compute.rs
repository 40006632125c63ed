use cl_frames::{
    advance, bind_scalar_multiply, scalar_multiply_signature, start, submit_scalar_multiply,
    Access, ArgKind, ArgValue, CommandQueue, ComputeAction, ComputeError, ComputeStage,
    DeviceBuffer, KernelArgs, QueueOp, StageOutcome,
};

fn buffer(id: u64, len: usize, access: Access) -> DeviceBuffer {
    DeviceBuffer { id, len, access }
}

#[test]
fn signature_of_scalar_multiply() {
    assert_eq!(scalar_multiply_signature(), vec![ArgKind::Buffer, ArgKind::Scalar, ArgKind::Buffer]);
}

#[test]
fn binding_checks_slot_and_type() {
    let mut args = KernelArgs::new(scalar_multiply_signature());
    assert_eq!(args.len(), 3);
    assert_eq!(args.bind(3, ArgValue::Buffer(1)), Err(ComputeError::ArgumentMismatch));
    assert_eq!(args.bind(1, ArgValue::Buffer(1)), Err(ComputeError::ArgumentMismatch));
    assert_eq!(args.bind(0, ArgValue::Scalar(7)), Err(ComputeError::ArgumentMismatch));
    assert_eq!(args.bind(0, ArgValue::Buffer(1)), Ok(()));
    assert_eq!(args.check_bound(), Err(ComputeError::UnboundArgument));
    assert_eq!(args.bind(1, ArgValue::Scalar(0x40ADD3C3)), Ok(()));
    assert_eq!(args.bind(2, ArgValue::Buffer(2)), Ok(()));
    assert_eq!(args.check_bound(), Ok(()));
}

#[test]
fn launch_with_unbound_slot_fails() {
    let mut queue = CommandQueue::new();
    let mut args = KernelArgs::new(scalar_multiply_signature());
    assert_eq!(args.bind(0, ArgValue::Buffer(1)), Ok(()));
    assert!(matches!(queue.launch(&args, 5), Err(ComputeError::UnboundArgument)));
    assert!(queue.operations().is_empty());
}

#[test]
fn write_with_mismatched_counts_fails() {
    let mut queue = CommandQueue::new();
    let src = buffer(1, 5, Access::ReadOnly);
    assert_eq!(queue.write(&src, 4), Err(ComputeError::TransferFailed));
    assert!(queue.operations().is_empty());
    assert_eq!(queue.write(&src, 5), Ok(()));
    assert_eq!(queue.operations(), vec![QueueOp::Write { buffer: 1, len: 5 }]);
}

#[test]
fn read_waits_for_its_launch() {
    let mut queue = CommandQueue::new();
    let src = buffer(1, 5, Access::ReadOnly);
    let dst = buffer(2, 5, Access::WriteOnly);
    let args = bind_scalar_multiply(&src, 0x40ADD3C3, &dst);
    assert_eq!(queue.write(&src, 5), Ok(()));
    let event = match queue.launch(&args, 5) {
        Ok(e) => e,
        Err(e) => panic!("launch failed: {:?}", e),
    };
    assert_eq!(queue.read(&dst, 5, event), Ok(()));
    assert_eq!(
        queue.operations(),
        vec![
            QueueOp::Write { buffer: 1, len: 5 },
            QueueOp::Launch { work_size: 5 },
            QueueOp::Read { buffer: 2, len: 5, after: 1 },
        ]
    );
}

#[test]
fn read_with_token_of_another_queue_fails() {
    let mut other = CommandQueue::new();
    let src = buffer(1, 5, Access::ReadOnly);
    let dst = buffer(2, 5, Access::WriteOnly);
    let args = bind_scalar_multiply(&src, 1, &dst);
    assert_eq!(other.write(&src, 5), Ok(()));
    let event = match other.launch(&args, 5) {
        Ok(e) => e,
        Err(e) => panic!("launch failed: {:?}", e),
    };
    let mut queue = CommandQueue::new();
    assert_eq!(queue.read(&dst, 5, event), Err(ComputeError::TransferFailed));
    assert!(queue.operations().is_empty());
}

#[test]
fn dispatch_submits_write_launch_read() {
    let mut queue = CommandQueue::new();
    let src = buffer(10, 5, Access::ReadOnly);
    let dst = buffer(11, 5, Access::WriteOnly);
    assert_eq!(submit_scalar_multiply(&mut queue, &src, &dst, 5, 0x40ADD3C3), Ok(()));
    assert_eq!(
        queue.operations(),
        vec![
            QueueOp::Write { buffer: 10, len: 5 },
            QueueOp::Launch { work_size: 5 },
            QueueOp::Read { buffer: 11, len: 5, after: 1 },
        ]
    );
    assert_eq!(submit_scalar_multiply(&mut queue, &src, &dst, 5, 0), Ok(()));
    assert_eq!(queue.operations()[5], QueueOp::Read { buffer: 11, len: 5, after: 4 });
}

#[test]
fn dispatch_with_short_buffer_submits_nothing() {
    let mut queue = CommandQueue::new();
    let src = buffer(10, 5, Access::ReadOnly);
    let dst = buffer(11, 4, Access::WriteOnly);
    assert_eq!(submit_scalar_multiply(&mut queue, &src, &dst, 5, 1), Err(ComputeError::TransferFailed));
    assert!(queue.operations().is_empty());
}

#[test]
fn bound_arguments_of_dispatch() {
    let src = buffer(3, 2, Access::ReadOnly);
    let dst = buffer(4, 2, Access::WriteOnly);
    let args = bind_scalar_multiply(&src, 99, &dst);
    assert_eq!(args.check_bound(), Ok(()));
}

#[test]
fn unavailable_device_aborts_the_run() {
    assert_eq!(start(), ComputeAction::Perform(ComputeStage::OpenSession));
    let next = advance(ComputeStage::OpenSession, StageOutcome::Failed("no platform".to_string()));
    assert_eq!(next, ComputeAction::Abort(ComputeError::AcceleratorUnavailable));
}

#[test]
fn compile_error_carries_the_diagnostic() {
    let log = "<source>:2:5: error: expected ';'".to_string();
    let next = advance(ComputeStage::Compile, StageOutcome::Failed(log.clone()));
    assert_eq!(next, ComputeAction::Abort(ComputeError::CompileError(log)));
}

#[test]
fn every_stage_failure_has_its_error() {
    let cases = [
        (ComputeStage::AllocateBuffers, ComputeError::AllocationFailed),
        (ComputeStage::Upload, ComputeError::TransferFailed),
        (ComputeStage::FindEntryPoint, ComputeError::EntryPointNotFound),
        (ComputeStage::BindArguments, ComputeError::ArgumentMismatch),
        (ComputeStage::Launch, ComputeError::UnboundArgument),
        (ComputeStage::Download, ComputeError::TransferFailed),
    ];
    for (stage, err) in cases {
        assert_eq!(advance(stage, StageOutcome::Failed(String::new())), ComputeAction::Abort(err));
    }
}

#[test]
fn successful_run_reports_after_download() {
    let mut action = start();
    let mut performed = Vec::new();
    while let ComputeAction::Perform(stage) = action {
        performed.push(stage);
        action = advance(stage, StageOutcome::Succeeded);
    }
    assert_eq!(action, ComputeAction::Report);
    assert_eq!(
        performed,
        vec![
            ComputeStage::OpenSession,
            ComputeStage::AllocateBuffers,
            ComputeStage::Upload,
            ComputeStage::Compile,
            ComputeStage::FindEntryPoint,
            ComputeStage::BindArguments,
            ComputeStage::Launch,
            ComputeStage::Download,
        ]
    );
}
