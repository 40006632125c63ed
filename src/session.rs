use vstd::prelude::*;
use crate::error::ComputeError;

verus! {

/// The stages of the one-shot compute run, in the order they are performed.
#[derive(Clone, Copy, Debug, PartialEq, Eq, Structural)]
pub enum ComputeStage {
    /// Pick a device and make its context and command queue.
    OpenSession,
    /// Allocate the source and destination buffers.
    AllocateBuffers,
    /// Write the host array into the source buffer.
    Upload,
    /// Compile the kernel source for the device.
    Compile,
    /// Look up the kernel's entry point in the compiled program.
    FindEntryPoint,
    /// Bind the source buffer, the coefficient and the destination buffer.
    BindArguments,
    /// Launch the kernel over one work item per element.
    Launch,
    /// Read the destination buffer back once the launch has completed.
    Download,
}

/// How the outside work of a stage went.
#[derive(Clone, Debug, PartialEq, Eq)]
pub enum StageOutcome {
    Succeeded,
    /// The stage failed; holds what the runtime said about it.
    Failed(String),
}

/// What the run does next.
#[derive(Clone, Debug, PartialEq, Eq)]
pub enum ComputeAction {
    /// Perform this stage and report how it went.
    Perform(ComputeStage),
    /// Every stage succeeded: print the source, the coefficient and the
    /// result.
    Report,
    /// Stop the run with this error; nothing of the result is printed.
    Abort(ComputeError),
}

pub open spec fn successor(stage: ComputeStage) -> Option<ComputeStage> {
    match stage {
        ComputeStage::OpenSession => Some(ComputeStage::AllocateBuffers),
        ComputeStage::AllocateBuffers => Some(ComputeStage::Upload),
        ComputeStage::Upload => Some(ComputeStage::Compile),
        ComputeStage::Compile => Some(ComputeStage::FindEntryPoint),
        ComputeStage::FindEntryPoint => Some(ComputeStage::BindArguments),
        ComputeStage::BindArguments => Some(ComputeStage::Launch),
        ComputeStage::Launch => Some(ComputeStage::Download),
        ComputeStage::Download => None,
    }
}

/// The error that a failure of `stage` ends the run with.
pub open spec fn error_for(stage: ComputeStage, diagnostic: String) -> ComputeError {
    match stage {
        ComputeStage::OpenSession => ComputeError::AcceleratorUnavailable,
        ComputeStage::AllocateBuffers => ComputeError::AllocationFailed,
        ComputeStage::Upload => ComputeError::TransferFailed,
        ComputeStage::Compile => ComputeError::CompileError(diagnostic),
        ComputeStage::FindEntryPoint => ComputeError::EntryPointNotFound,
        ComputeStage::BindArguments => ComputeError::ArgumentMismatch,
        ComputeStage::Launch => ComputeError::UnboundArgument,
        ComputeStage::Download => ComputeError::TransferFailed,
    }
}

pub open spec fn advance_spec(stage: ComputeStage, outcome: StageOutcome) -> ComputeAction {
    match outcome {
        StageOutcome::Succeeded => match successor(stage) {
            Some(next) => ComputeAction::Perform(next),
            None => ComputeAction::Report,
        },
        StageOutcome::Failed(d) => ComputeAction::Abort(error_for(stage, d)),
    }
}

/// The actions that follow `stage` when the stages performed from it on end
/// with the given outcomes, one per stage, until the run reports or aborts.
pub open spec fn run_actions(stage: ComputeStage, outcomes: Seq<StageOutcome>) -> Seq<
    ComputeAction,
>
    decreases outcomes.len(),
{
    if outcomes.len() == 0 {
        Seq::empty()
    } else {
        let a = advance_spec(stage, outcomes[0]);
        match a {
            ComputeAction::Perform(next) => seq![a] + run_actions(next, outcomes.drop_first()),
            _ => seq![a],
        }
    }
}

/// The first action of a run.
pub fn start() -> (r: ComputeAction)
    ensures
        r == ComputeAction::Perform(ComputeStage::OpenSession),
{
    ComputeAction::Perform(ComputeStage::OpenSession)
}

/// Decides what follows a stage: the next stage after a success, the report
/// after the last one, and after a failure the error of that stage.
pub fn advance(stage: ComputeStage, outcome: StageOutcome) -> (r: ComputeAction)
    ensures
        r == advance_spec(stage, outcome),
{
    match outcome {
        StageOutcome::Failed(d) => ComputeAction::Abort(
            match stage {
                ComputeStage::OpenSession => ComputeError::AcceleratorUnavailable,
                ComputeStage::AllocateBuffers => ComputeError::AllocationFailed,
                ComputeStage::Upload => ComputeError::TransferFailed,
                ComputeStage::Compile => ComputeError::CompileError(d),
                ComputeStage::FindEntryPoint => ComputeError::EntryPointNotFound,
                ComputeStage::BindArguments => ComputeError::ArgumentMismatch,
                ComputeStage::Launch => ComputeError::UnboundArgument,
                ComputeStage::Download => ComputeError::TransferFailed,
            },
        ),
        StageOutcome::Succeeded => match stage {
            ComputeStage::OpenSession => ComputeAction::Perform(ComputeStage::AllocateBuffers),
            ComputeStage::AllocateBuffers => ComputeAction::Perform(ComputeStage::Upload),
            ComputeStage::Upload => ComputeAction::Perform(ComputeStage::Compile),
            ComputeStage::Compile => ComputeAction::Perform(ComputeStage::FindEntryPoint),
            ComputeStage::FindEntryPoint => ComputeAction::Perform(ComputeStage::BindArguments),
            ComputeStage::BindArguments => ComputeAction::Perform(ComputeStage::Launch),
            ComputeStage::Launch => ComputeAction::Perform(ComputeStage::Download),
            ComputeStage::Download => ComputeAction::Report,
        },
    }
}

/// Where no accelerator can be opened, the run aborts at once with
/// `AcceleratorUnavailable` and never reaches the report.
pub proof fn lemma_unavailable_aborts(outcomes: Seq<StageOutcome>)
    requires
        outcomes.len() > 0,
        outcomes[0] is Failed,
    ensures
        run_actions(ComputeStage::OpenSession, outcomes) == seq![
            ComputeAction::Abort(ComputeError::AcceleratorUnavailable),
        ],
{
}

/// Where the kernel source does not compile, the run aborts with the
/// compiler's diagnostic right after the compile stage: the kernel is never
/// launched and nothing is reported.
pub proof fn lemma_compile_error_aborts(outcomes: Seq<StageOutcome>, diagnostic: String)
    requires
        outcomes.len() >= 4,
        outcomes[0] == StageOutcome::Succeeded,
        outcomes[1] == StageOutcome::Succeeded,
        outcomes[2] == StageOutcome::Succeeded,
        outcomes[3] == StageOutcome::Failed(diagnostic),
    ensures
        run_actions(ComputeStage::OpenSession, outcomes) == seq![
            ComputeAction::Perform(ComputeStage::AllocateBuffers),
            ComputeAction::Perform(ComputeStage::Upload),
            ComputeAction::Perform(ComputeStage::Compile),
            ComputeAction::Abort(ComputeError::CompileError(diagnostic)),
        ],
{
    let abort = ComputeAction::Abort(ComputeError::CompileError(diagnostic));
    let o1 = outcomes.drop_first();
    let o2 = o1.drop_first();
    let o3 = o2.drop_first();
    assert(o1[0] == outcomes[1] && o2[0] == outcomes[2] && o3[0] == outcomes[3]);
    let r3 = run_actions(ComputeStage::Compile, o3);
    assert(r3 == seq![abort]);
    let r2 = run_actions(ComputeStage::Upload, o2);
    assert(r2 == seq![ComputeAction::Perform(ComputeStage::Compile)] + r3);
    let r1 = run_actions(ComputeStage::AllocateBuffers, o1);
    assert(r1 == seq![ComputeAction::Perform(ComputeStage::Upload)] + r2);
    let r0 = run_actions(ComputeStage::OpenSession, outcomes);
    assert(r0 == seq![ComputeAction::Perform(ComputeStage::AllocateBuffers)] + r1);
    assert(r0 =~= seq![
        ComputeAction::Perform(ComputeStage::AllocateBuffers),
        ComputeAction::Perform(ComputeStage::Upload),
        ComputeAction::Perform(ComputeStage::Compile),
        abort,
    ]);
}

proof fn lemma_run_len(stage: ComputeStage, outcomes: Seq<StageOutcome>)
    ensures
        run_actions(stage, outcomes).len() <= outcomes.len(),
    decreases outcomes.len(),
{
    if outcomes.len() > 0 {
        if let ComputeAction::Perform(next) = advance_spec(stage, outcomes[0]) {
            lemma_run_len(next, outcomes.drop_first());
        }
    }
}

/// The run reports only where every stage, from opening the session to the
/// read of the result, succeeded in order.
pub proof fn lemma_report_needs_all_stages(stage: ComputeStage, outcomes: Seq<StageOutcome>)
    requires
        run_actions(stage, outcomes).len() > 0,
        run_actions(stage, outcomes).last() == ComputeAction::Report,
    ensures
        run_actions(stage, outcomes).len() <= outcomes.len(),
        forall|i: int| 0 <= i < run_actions(stage, outcomes).len() ==> outcomes[i]
            == StageOutcome::Succeeded,
    decreases outcomes.len(),
{
    lemma_run_len(stage, outcomes);
    let a = advance_spec(stage, outcomes[0]);
    match a {
        ComputeAction::Perform(next) => {
            let rest = run_actions(next, outcomes.drop_first());
            assert(run_actions(stage, outcomes) == seq![a] + rest);
            if rest.len() == 0 {
                assert(run_actions(stage, outcomes).last() == a);
            } else {
                assert(rest.last() == run_actions(stage, outcomes).last());
                lemma_report_needs_all_stages(next, outcomes.drop_first());
                assert forall|i: int| 0 <= i < run_actions(stage, outcomes).len() implies outcomes[i]
                    == StageOutcome::Succeeded by {
                    if i > 0 {
                        assert(outcomes[i] == outcomes.drop_first()[i - 1]);
                    }
                }
            }
        },
        _ => {},
    }
}

} // verus!
