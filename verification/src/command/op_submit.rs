//! Data used to submit commands to a queue.
//!
//! Vulkan objects are referred to by their raw handles (`VkSemaphore`, `VkCommandBuffer`).

use vstd::prelude::*;
use crate::flags::flag_set::flag_bit;
use crate::flags::pipeline_stage::PipelineStage;

verus! {

/// Data used to submit commands to a queue (`VkSubmitInfo`).
pub struct SubmitInfo {
    semaphores_to_wait_for: Vec<u64>,
    stages_waited_for: Vec<u32>,
    buffers: Vec<u64>,
    semaphores_to_signal_when_complete: Vec<u64>,
}

impl Default for SubmitInfo {
    fn default() -> (r: SubmitInfo)
        ensures
            r.spec_wait_semaphores() == Seq::<u64>::empty(),
            r.spec_wait_stages() == Seq::<u32>::empty(),
            r.spec_buffers() == Seq::<u64>::empty(),
            r.spec_signal_semaphores() == Seq::<u64>::empty(),
    {
        SubmitInfo {
            semaphores_to_wait_for: Vec::new(),
            stages_waited_for: Vec::new(),
            buffers: Vec::new(),
            semaphores_to_signal_when_complete: Vec::new(),
        }
    }
}

impl SubmitInfo {
    /// The semaphores waited for before the commands execute.
    pub closed spec fn spec_wait_semaphores(&self) -> Seq<u64> {
        self.semaphores_to_wait_for@
    }

    /// The raw `VkPipelineStageFlags` at which the waits happen.
    pub closed spec fn spec_wait_stages(&self) -> Seq<u32> {
        self.stages_waited_for@
    }

    /// The command buffers submitted.
    pub closed spec fn spec_buffers(&self) -> Seq<u64> {
        self.buffers@
    }

    /// The semaphores signaled once the commands have executed.
    pub closed spec fn spec_signal_semaphores(&self) -> Seq<u64> {
        self.semaphores_to_signal_when_complete@
    }

    /// Adds a collection of signals on the GPU that the command buffer should wait
    /// for before executing the commands in the buffer being presented.
    /// (No wait stage is recorded for them.)
    pub fn wait_for_semaphores(self, semaphores: &Vec<u64>) -> (r: Self)
        ensures
            r.spec_wait_semaphores() == self.spec_wait_semaphores() + semaphores@,
            r.spec_wait_stages() == self.spec_wait_stages(),
            r.spec_buffers() == self.spec_buffers(),
            r.spec_signal_semaphores() == self.spec_signal_semaphores(),
    {
        let mut this = self;
        let ghost before = this.semaphores_to_wait_for@;
        let mut i: usize = 0;
        while i < semaphores.len()
            invariant
                i <= semaphores@.len(),
                this.semaphores_to_wait_for@ == before + semaphores@.take(i as int),
                this.stages_waited_for@ == self.stages_waited_for@,
                this.buffers@ == self.buffers@,
                this.semaphores_to_signal_when_complete@ == self.semaphores_to_signal_when_complete@,
            decreases semaphores.len() - i,
        {
            this.semaphores_to_wait_for.push(semaphores[i]);
            proof {
                assert(semaphores@.take(i as int + 1) =~= semaphores@.take(i as int).push(semaphores@[i as int]));
            }
            i = i + 1;
        }
        proof {
            assert(semaphores@.take(semaphores@.len() as int) =~= semaphores@);
        }
        this
    }

    /// Adds a signal on the GPU that the command buffer should wait
    /// for, at a stage, before executing the commands in the buffer being presented.
    pub fn wait_for(self, semaphore: u64, stage: PipelineStage) -> (r: Self)
        ensures
            r.spec_wait_semaphores() == self.spec_wait_semaphores().push(semaphore),
            r.spec_wait_stages() == self.spec_wait_stages().push(flag_bit(stage)),
            r.spec_buffers() == self.spec_buffers(),
            r.spec_signal_semaphores() == self.spec_signal_semaphores(),
    {
        let mut this = self;
        this.semaphores_to_wait_for.push(semaphore);
        this.stages_waited_for.push(stage.to_vk());
        this
    }

    /// Adds a command buffer that should be submitted to the GPU for execution.
    pub fn add_buffer(self, buffer: u64) -> (r: Self)
        ensures
            r.spec_wait_semaphores() == self.spec_wait_semaphores(),
            r.spec_wait_stages() == self.spec_wait_stages(),
            r.spec_buffers() == self.spec_buffers().push(buffer),
            r.spec_signal_semaphores() == self.spec_signal_semaphores(),
    {
        let mut this = self;
        this.buffers.push(buffer);
        this
    }

    /// Adds a GPU signal that should be marked as "signaled" when the command buffer has been executed.
    pub fn signal_when_complete(self, semaphore: u64) -> (r: Self)
        ensures
            r.spec_wait_semaphores() == self.spec_wait_semaphores(),
            r.spec_wait_stages() == self.spec_wait_stages(),
            r.spec_buffers() == self.spec_buffers(),
            r.spec_signal_semaphores() == self.spec_signal_semaphores().push(semaphore),
    {
        let mut this = self;
        this.semaphores_to_signal_when_complete.push(semaphore);
        this
    }

    /// The semaphores waited for, in the order they were added.
    pub fn wait_semaphores(&self) -> (r: &Vec<u64>)
        ensures
            r@ == self.spec_wait_semaphores(),
    {
        &self.semaphores_to_wait_for
    }

    /// The raw stage masks of the waits, in the order they were added.
    pub fn wait_stages(&self) -> (r: &Vec<u32>)
        ensures
            r@ == self.spec_wait_stages(),
    {
        &self.stages_waited_for
    }

    /// The command buffers, in the order they were added.
    pub fn buffers(&self) -> (r: &Vec<u64>)
        ensures
            r@ == self.spec_buffers(),
    {
        &self.buffers
    }

    /// The semaphores signaled on completion, in the order they were added.
    pub fn signal_semaphores(&self) -> (r: &Vec<u64>)
        ensures
            r@ == self.spec_signal_semaphores(),
    {
        &self.semaphores_to_signal_when_complete
    }
}

} // verus!
