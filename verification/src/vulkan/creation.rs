use vstd::prelude::*;

verus! {

/// Which driver call the creation of a buffer or an image has reached.
#[derive(Debug, Copy, Clone, PartialEq, Eq, Structural)]
pub enum CreationStage {
    /// Creating the handle (the buffer or the image).
    CreateHandle,
    /// Allocating its memory.
    AllocateMemory,
    /// Binding the memory to the handle.
    BindMemory,
    /// Created.
    Done,
    /// Given up; what was made has been undone.
    Failed,
}

/// What the caller does after the call of a creation stage.
#[derive(Debug, Copy, Clone, PartialEq, Eq, Structural)]
pub enum CreationAction {
    /// Allocate the memory.
    AllocateMemory,
    /// Bind the memory to the handle.
    BindMemory,
    /// Hand out the created resource.
    Finish,
    /// Undo what was made (destroy the handle, free the memory, as flagged),
    /// then report the failure.
    Fail { destroy_handle: bool, free_memory: bool },
}

/// One step of creating a resource, from the stage whose driver call just ran
/// and whether it `succeeded`, to the next stage and what to do. Memory is
/// bound only when `binds_memory` (an image binds its memory, a buffer does
/// not). A failure undoes exactly what earlier stages made.
pub open spec fn spec_creation_step(stage: CreationStage, binds_memory: bool, succeeded: bool) -> (CreationStage, CreationAction) {
    match stage {
        CreationStage::CreateHandle => if succeeded {
            (CreationStage::AllocateMemory, CreationAction::AllocateMemory)
        } else {
            (CreationStage::Failed, CreationAction::Fail { destroy_handle: false, free_memory: false })
        },
        CreationStage::AllocateMemory => if !succeeded {
            (CreationStage::Failed, CreationAction::Fail { destroy_handle: true, free_memory: false })
        } else if binds_memory {
            (CreationStage::BindMemory, CreationAction::BindMemory)
        } else {
            (CreationStage::Done, CreationAction::Finish)
        },
        CreationStage::BindMemory => if succeeded {
            (CreationStage::Done, CreationAction::Finish)
        } else {
            (CreationStage::Failed, CreationAction::Fail { destroy_handle: true, free_memory: true })
        },
        CreationStage::Done => (CreationStage::Done, CreationAction::Finish),
        CreationStage::Failed => (CreationStage::Failed, CreationAction::Fail { destroy_handle: false, free_memory: false }),
    }
}

/// One step of creating a resource; see [`spec_creation_step`].
pub fn creation_step(stage: CreationStage, binds_memory: bool, succeeded: bool) -> (r: (CreationStage, CreationAction))
    ensures
        r == spec_creation_step(stage, binds_memory, succeeded),
{
    match stage {
        CreationStage::CreateHandle => if succeeded {
            (CreationStage::AllocateMemory, CreationAction::AllocateMemory)
        } else {
            (CreationStage::Failed, CreationAction::Fail { destroy_handle: false, free_memory: false })
        },
        CreationStage::AllocateMemory => if !succeeded {
            (CreationStage::Failed, CreationAction::Fail { destroy_handle: true, free_memory: false })
        } else if binds_memory {
            (CreationStage::BindMemory, CreationAction::BindMemory)
        } else {
            (CreationStage::Done, CreationAction::Finish)
        },
        CreationStage::BindMemory => if succeeded {
            (CreationStage::Done, CreationAction::Finish)
        } else {
            (CreationStage::Failed, CreationAction::Fail { destroy_handle: true, free_memory: true })
        },
        CreationStage::Done => (CreationStage::Done, CreationAction::Finish),
        CreationStage::Failed => (CreationStage::Failed, CreationAction::Fail { destroy_handle: false, free_memory: false }),
    }
}

/// Whether the handle exists once the call of `stage` has run and succeeded.
pub open spec fn handle_made_before(stage: CreationStage) -> bool {
    stage == CreationStage::AllocateMemory || stage == CreationStage::BindMemory
}

/// Whether the memory exists once the call of `stage` has run and succeeded.
pub open spec fn memory_made_before(stage: CreationStage) -> bool {
    stage == CreationStage::BindMemory
}

/// When every call succeeds, a resource is made in order: the handle, then its
/// memory, then (only for a resource that binds its memory) the binding, and
/// then it is handed out; and binding is only ever asked for right after the
/// memory was allocated, for a resource that binds its memory.
pub proof fn lemma_successful_creation_order(binds_memory: bool)
    ensures
        ({
            let (s1, a1) = spec_creation_step(CreationStage::CreateHandle, binds_memory, true);
            let (s2, a2) = spec_creation_step(s1, binds_memory, true);
            let (s3, a3) = spec_creation_step(s2, binds_memory, true);
            &&& s1 == CreationStage::AllocateMemory
            &&& a1 == CreationAction::AllocateMemory
            &&& binds_memory ==> (s2 == CreationStage::BindMemory && a2 == CreationAction::BindMemory && s3
                == CreationStage::Done && a3 == CreationAction::Finish)
            &&& !binds_memory ==> (s2 == CreationStage::Done && a2 == CreationAction::Finish)
        }),
        forall|stage: CreationStage, binds: bool, succeeded: bool|
            #[trigger] spec_creation_step(stage, binds, succeeded).1 == CreationAction::BindMemory ==> (stage
                == CreationStage::AllocateMemory && binds && succeeded),
        forall|stage: CreationStage, binds: bool, succeeded: bool|
            #[trigger] spec_creation_step(stage, binds, succeeded).1 == CreationAction::AllocateMemory ==> (stage
                == CreationStage::CreateHandle && succeeded),
{
}

/// A failed call undoes exactly what the earlier calls made, and a resource is
/// handed out only after every call it needs has succeeded: creation, then
/// allocation, then (for an image) binding.
pub proof fn lemma_failure_undoes_earlier_stages(stage: CreationStage, binds_memory: bool)
    requires
        stage == CreationStage::CreateHandle || stage == CreationStage::AllocateMemory || stage == CreationStage::BindMemory,
    ensures
        spec_creation_step(stage, binds_memory, false) == (
            CreationStage::Failed,
            CreationAction::Fail { destroy_handle: handle_made_before(stage), free_memory: memory_made_before(stage) },
        ),
        spec_creation_step(stage, binds_memory, true).1 == CreationAction::Finish ==> (stage == CreationStage::BindMemory
            || (stage == CreationStage::AllocateMemory && !binds_memory)),
{
}

} // verus!
