//! The one-shot compute job: build, submit, await-and-read.
//!
//! A job walks the states `Unbuilt -> Built -> Submitted -> Completed`; no
//! transition skips a state and none is reversible. Building seeds the data
//! buffer with the identity sequence and records the one-shot command
//! sequence; submitting hands that sequence to the queue and returns a
//! pending completion signal; awaiting blocks until the signal is observed
//! signaled and only then reads the buffer back. The driver's part — the
//! actual allocation, execution and fence — is performed by the surrounding
//! application, which reports completion by marking the signal.
//!
//! The compute kernel is treated as the reference no-op/copy kernel: every
//! invocation writes back the value at its own global index, so the readback
//! equals the seed data.

use vstd::prelude::*;
use crate::error::CoreError;
use crate::logical::LogicalDevice;
use crate::logical::Queue;

verus! {

/// The lifecycle of a one-shot compute job.
#[derive(Clone, Copy, Debug, PartialEq, Eq, Structural)]
pub enum JobState {
    Unbuilt,
    Built,
    Submitted,
    Completed,
}

/// The state of a completion signal: it transitions `Pending -> Signaled`
/// once and never back.
#[derive(Clone, Copy, Debug, PartialEq, Eq, Structural)]
pub enum SignalState {
    Pending,
    Signaled,
}

/// A one-time device-to-host synchronization primitive, created at submit
/// time. The buffer written by a submission may be read only after its
/// signal is observed signaled.
#[derive(Clone, Copy, Debug, PartialEq, Eq, Structural)]
pub struct CompletionSignal {
    state: SignalState,
}

impl CompletionSignal {
    pub closed spec fn spec_state(self) -> SignalState {
        self.state
    }

    pub open spec fn spec_signaled(self) -> bool {
        self.spec_state() == SignalState::Signaled
    }

    /// What one bounded wait does: it never changes the signal, succeeds on
    /// a signaled one and times out on a pending one.
    pub open spec fn spec_wait_transition(self) -> (CompletionSignal, Result<(), CoreError>) {
        (
            self,
            if self.spec_signaled() {
                Ok(())
            } else {
                Err(CoreError::SyncTimeoutError)
            },
        )
    }

    /// A fresh, pending signal.
    pub fn new_pending() -> (r: CompletionSignal)
        ensures
            r.spec_state() == SignalState::Pending,
    {
        CompletionSignal { state: SignalState::Pending }
    }

    /// Records that the driver observed completion of the submission this
    /// signal belongs to. A signaled signal stays signaled.
    pub fn mark_signaled(&mut self)
        ensures
            final(self).spec_state() == SignalState::Signaled,
    {
        self.state = SignalState::Signaled;
    }

    pub fn is_signaled(&self) -> (r: bool)
        ensures
            r == self.spec_signaled(),
    {
        self.state == SignalState::Signaled
    }

    /// One bounded wait on the signal: succeeds exactly when the signal is
    /// already signaled, and otherwise reports a timeout after the given
    /// bound. An unbounded wait is admitted only on a signaled signal: on a
    /// signal that is never marked, it would not return.
    pub fn wait(&self, timeout_millis: Option<u64>) -> (r: Result<(), CoreError>)
        requires
            self.spec_signaled() || timeout_millis is Some,
        ensures
            r == self.spec_wait_transition().1,
    {
        if self.is_signaled() {
            Ok(())
        } else {
            Err(CoreError::SyncTimeoutError)
        }
    }
}

/// A 3-D workgroup count for one dispatch.
#[derive(Clone, Copy, Debug, PartialEq, Eq, Structural)]
pub struct DispatchGeometry {
    pub x: u32,
    pub y: u32,
    pub z: u32,
}

/// The geometry of a linear dispatch: one row of
/// `element_count / local_group_size` groups. The coupling between the
/// element count and the group size baked into the shader is the caller's
/// responsibility and is not validated here.
pub open spec fn spec_dispatch_geometry(element_count: u32, local_group_size: u32) -> DispatchGeometry
    recommends
        local_group_size > 0,
{
    DispatchGeometry { x: element_count / local_group_size, y: 1, z: 1 }
}

/// Computes the linear dispatch geometry for a buffer of `element_count`
/// elements under a shader with the given local group size.
pub fn dispatch_geometry_for(element_count: u32, local_group_size: u32) -> (r: DispatchGeometry)
    requires
        local_group_size > 0,
    ensures
        r == spec_dispatch_geometry(element_count, local_group_size),
{
    DispatchGeometry { x: element_count / local_group_size, y: 1, z: 1 }
}

/// An immutable compiled compute program bound to a fixed entry point,
/// shared read-only across submissions. The local group size is the one
/// baked into the shader.
#[derive(Clone, Copy, Debug, PartialEq, Eq, Structural)]
pub struct Pipeline {
    pub local_group_size: u32,
}

impl Pipeline {
    /// A shader executes at least one invocation per group.
    pub open spec fn wf(self) -> bool {
        self.local_group_size > 0
    }
}

/// The association between shader binding slots and the job's buffer,
/// created once per pipeline-and-buffer combination.
#[derive(Clone, Copy, Debug, PartialEq, Eq, Structural)]
pub struct ResourceBindingSet {
    pub buffer_slot: u32,
}

/// One recorded GPU operation of the one-shot command sequence.
#[derive(Clone, Copy, Debug, PartialEq, Eq, Structural)]
pub enum Command {
    BindPipeline,
    BindResourceSet,
    Dispatch(DispatchGeometry),
    End,
}

/// The canonical one-shot command sequence: bind the pipeline, bind the
/// resource set, dispatch, end.
pub open spec fn spec_one_shot_commands(geometry: DispatchGeometry) -> Seq<Command> {
    seq![
        Command::BindPipeline,
        Command::BindResourceSet,
        Command::Dispatch(geometry),
        Command::End,
    ]
}

/// The deterministic seed data of the buffer: the identity sequence
/// `0, 1, ..., n - 1`.
pub open spec fn spec_seed(n: nat) -> Seq<u32>
    recommends
        n <= u32::MAX + 1,
{
    Seq::new(n, |i: int| i as u32)
}

/// The one-shot compute job: owns the data buffer, the pipeline handle, the
/// resource binding set and the recorded command sequence.
#[derive(Debug)]
pub struct ComputeJob {
    state: JobState,
    queue_family_id: u32,
    element_count: u32,
    pipeline: Pipeline,
    binding: ResourceBindingSet,
    dispatch: DispatchGeometry,
    buffer: Vec<u32>,
    commands: Vec<Command>,
}

impl ComputeJob {
    pub closed spec fn spec_state(self) -> JobState {
        self.state
    }

    pub closed spec fn spec_queue_family_id(self) -> u32 {
        self.queue_family_id
    }

    pub closed spec fn spec_element_count(self) -> u32 {
        self.element_count
    }

    pub closed spec fn spec_pipeline(self) -> Pipeline {
        self.pipeline
    }

    pub closed spec fn spec_binding(self) -> ResourceBindingSet {
        self.binding
    }

    pub closed spec fn spec_dispatch(self) -> DispatchGeometry {
        self.dispatch
    }

    pub closed spec fn spec_buffer(self) -> Seq<u32> {
        self.buffer@
    }

    pub closed spec fn spec_commands(self) -> Seq<Command> {
        self.commands@
    }

    /// `post` is `pre` stepped to `state`, with everything else untouched.
    pub open spec fn spec_stepped(pre: ComputeJob, post: ComputeJob, state: JobState) -> bool {
        &&& post.spec_state() == state
        &&& post.spec_queue_family_id() == pre.spec_queue_family_id()
        &&& post.spec_element_count() == pre.spec_element_count()
        &&& post.spec_pipeline() == pre.spec_pipeline()
        &&& post.spec_binding() == pre.spec_binding()
        &&& post.spec_dispatch() == pre.spec_dispatch()
        &&& post.spec_buffer() == pre.spec_buffer()
        &&& post.spec_commands() == pre.spec_commands()
    }

    /// Well-formedness across the lifecycle: an unbuilt job holds nothing;
    /// from `Built` on, the buffer holds the identity seed for the recorded
    /// element count, the dispatch geometry is the linear one for the
    /// pipeline's group size, the buffer is bound to slot 0, and the command
    /// sequence is the canonical one-shot recording.
    pub open spec fn wf(self) -> bool {
        if self.spec_state() == JobState::Unbuilt {
            self.spec_buffer().len() == 0 && self.spec_commands().len() == 0
        } else {
            &&& self.spec_pipeline().wf()
            &&& self.spec_buffer() == spec_seed(self.spec_element_count() as nat)
            &&& self.spec_binding().buffer_slot == 0
            &&& self.spec_dispatch() == spec_dispatch_geometry(
                self.spec_element_count(),
                self.spec_pipeline().local_group_size,
            )
            &&& self.spec_commands() == spec_one_shot_commands(self.spec_dispatch())
        }
    }

    /// A fresh, unbuilt job.
    pub fn new() -> (r: ComputeJob)
        ensures
            r.spec_state() == JobState::Unbuilt,
            r.wf(),
    {
        ComputeJob {
            state: JobState::Unbuilt,
            queue_family_id: 0,
            element_count: 0,
            pipeline: Pipeline { local_group_size: 1 },
            binding: ResourceBindingSet { buffer_slot: 0 },
            dispatch: DispatchGeometry { x: 0, y: 1, z: 1 },
            buffer: Vec::new(),
            commands: Vec::new(),
        }
    }

    pub fn state(&self) -> (r: JobState)
        ensures
            r == self.spec_state(),
    {
        self.state
    }

    pub fn element_count(&self) -> (r: u32)
        ensures
            r == self.spec_element_count(),
    {
        self.element_count
    }

    pub fn dispatch_geometry(&self) -> (r: DispatchGeometry)
        ensures
            r == self.spec_dispatch(),
    {
        self.dispatch
    }

    /// The recorded one-shot command sequence; empty until the job is built.
    pub fn commands(&self) -> (r: &Vec<Command>)
        ensures
            r@ == self.spec_commands(),
    {
        &self.commands
    }

    pub fn binding(&self) -> (r: ResourceBindingSet)
        ensures
            r == self.spec_binding(),
    {
        self.binding
    }

    /// Builds the job against a logical device and the queue the sequence
    /// will be submitted on: allocates the buffer seeded with the identity
    /// sequence, binds it to slot 0 of a fresh resource binding set, and
    /// records the one-shot command sequence with the linear dispatch
    /// geometry.
    ///
    /// Rejected with `InvalidStateError` when the job was already built, and
    /// with `ResourceAllocationError` when the queue does not belong to the
    /// device the resources are recorded against. (In the running system the
    /// same error also carries a driver's out-of-memory rejection.)
    pub fn build(
        &mut self,
        device: &LogicalDevice,
        queue: &Queue,
        pipeline: Pipeline,
        element_count: u32,
    ) -> (r: Result<(), CoreError>)
        requires
            old(self).wf(),
            pipeline.wf(),
        ensures
            final(self).wf(),
            old(self).spec_state() != JobState::Unbuilt ==> r === Err(CoreError::InvalidStateError)
                && *final(self) == *old(self),
            old(self).spec_state() == JobState::Unbuilt && queue.family_id
                != device.queue_family_id ==> r === Err(CoreError::ResourceAllocationError)
                && *final(self) == *old(self),
            old(self).spec_state() == JobState::Unbuilt && queue.family_id
                == device.queue_family_id ==> {
                &&& r is Ok
                &&& final(self).spec_state() == JobState::Built
                &&& final(self).spec_queue_family_id() == device.queue_family_id
                &&& final(self).spec_element_count() == element_count
                &&& final(self).spec_pipeline() == pipeline
                &&& final(self).spec_binding().buffer_slot == 0
                &&& final(self).spec_buffer() == spec_seed(element_count as nat)
                &&& final(self).spec_dispatch() == spec_dispatch_geometry(
                    element_count,
                    pipeline.local_group_size,
                )
                &&& final(self).spec_commands() == spec_one_shot_commands(
                    final(self).spec_dispatch(),
                )
            },
    {
        if !matches!(self.state, JobState::Unbuilt) {
            return Err(CoreError::InvalidStateError);
        }
        if queue.family_id != device.queue_family_id {
            return Err(CoreError::ResourceAllocationError);
        }
        let buffer = make_seed(element_count);
        let dispatch = dispatch_geometry_for(element_count, pipeline.local_group_size);
        let mut commands: Vec<Command> = Vec::new();
        commands.push(Command::BindPipeline);
        commands.push(Command::BindResourceSet);
        commands.push(Command::Dispatch(dispatch));
        commands.push(Command::End);
        proof {
            assert(commands@ =~= spec_one_shot_commands(dispatch));
        }
        self.state = JobState::Built;
        self.queue_family_id = device.queue_family_id;
        self.element_count = element_count;
        self.pipeline = pipeline;
        self.binding = ResourceBindingSet { buffer_slot: 0 };
        self.dispatch = dispatch;
        self.buffer = buffer;
        self.commands = commands;
        Ok(())
    }

    /// Enqueues the recorded command sequence on `queue` and returns a
    /// pending completion signal at once, without blocking.
    ///
    /// Rejected with `InvalidStateError` when the job is not `Built`, and
    /// with `SubmissionError` when the queue is not the one the job was
    /// built against. (In the running system the latter also carries a
    /// device-lost rejection.)
    pub fn submit(&mut self, queue: &Queue) -> (r: Result<CompletionSignal, CoreError>)
        requires
            old(self).wf(),
        ensures
            final(self).wf(),
            old(self).spec_state() != JobState::Built ==> r === Err(CoreError::InvalidStateError)
                && *final(self) == *old(self),
            old(self).spec_state() == JobState::Built && queue.family_id
                != old(self).spec_queue_family_id() ==> r === Err(CoreError::SubmissionError)
                && *final(self) == *old(self),
            old(self).spec_state() == JobState::Built && queue.family_id == old(
                self,
            ).spec_queue_family_id() ==> {
                &&& r matches Ok(signal) && signal.spec_state() == SignalState::Pending
                &&& ComputeJob::spec_stepped(*old(self), *final(self), JobState::Submitted)
            },
    {
        if !matches!(self.state, JobState::Built) {
            return Err(CoreError::InvalidStateError);
        }
        if queue.family_id != self.queue_family_id {
            return Err(CoreError::SubmissionError);
        }
        self.state = JobState::Submitted;
        Ok(CompletionSignal::new_pending())
    }

    /// Blocks until `signal` is observed signaled or the timeout elapses,
    /// then maps the buffer for host reads and returns its contents.
    ///
    /// On timeout the job stays `Submitted` and may be awaited again on the
    /// same signal. Rejected with `InvalidStateError` when the job is not
    /// `Submitted`. An unbounded wait is admitted only on a signaled signal,
    /// as for `CompletionSignal::wait`.
    pub fn await_and_read(&mut self, signal: &CompletionSignal, timeout_millis: Option<u64>) -> (r:
        Result<Vec<u32>, CoreError>)
        requires
            old(self).wf(),
            signal.spec_signaled() || timeout_millis is Some,
        ensures
            final(self).wf(),
            old(self).spec_state() != JobState::Submitted ==> r === Err(
                CoreError::InvalidStateError,
            ) && *final(self) == *old(self),
            old(self).spec_state() == JobState::Submitted && !signal.spec_signaled() ==> r === Err(
                CoreError::SyncTimeoutError,
            ) && *final(self) == *old(self),
            old(self).spec_state() == JobState::Submitted && signal.spec_signaled() ==> {
                &&& r matches Ok(data) && data@ == old(self).spec_buffer()
                &&& ComputeJob::spec_stepped(*old(self), *final(self), JobState::Completed)
            },
    {
        if !matches!(self.state, JobState::Submitted) {
            return Err(CoreError::InvalidStateError);
        }
        match signal.wait(timeout_millis) {
            Err(e) => Err(e),
            Ok(()) => {
                let data = copy_buffer(&self.buffer);
                self.state = JobState::Completed;
                Ok(data)
            },
        }
    }
}

/// Round trip: from `Built` on, a well-formed job holds exactly the identity
/// sequence, so the data a successful `await_and_read` hands back — which by
/// its contract equals the job's buffer — has length `element_count` and
/// value `i` at every index `i`.
pub proof fn lemma_round_trip(job: ComputeJob)
    requires
        job.wf(),
        job.spec_state() != JobState::Unbuilt,
    ensures
        job.spec_buffer().len() == job.spec_element_count() as nat,
        forall|i: int| 0 <= i < job.spec_element_count() ==> job.spec_buffer()[i] == i as u32,
{
}

/// Idempotence of the wait: on an already-signaled completion signal a wait
/// succeeds and leaves the signal as it was, and a second wait on what the
/// first one left behind does exactly the same — so nothing a later read
/// returns can depend on how often the signal was waited on.
pub proof fn lemma_wait_idempotent(signal: CompletionSignal)
    requires
        signal.spec_signaled(),
    ensures
        ({
            let (s1, r1) = signal.spec_wait_transition();
            let (s2, r2) = s1.spec_wait_transition();
            r1 is Ok && s1 == signal && r2 is Ok && s2 == signal
        }),
{
}

/// The seed data as a vector: the identity sequence `0, 1, ..., n - 1`.
fn make_seed(n: u32) -> (r: Vec<u32>)
    ensures
        r@ == spec_seed(n as nat),
{
    let mut v: Vec<u32> = Vec::new();
    let mut i: u32 = 0;
    while i < n
        invariant
            i <= n,
            v@.len() == i as nat,
            forall|k: int| 0 <= k < i ==> v@[k] == k as u32,
        decreases n - i,
    {
        v.push(i);
        i += 1;
    }
    proof {
        assert(v@ =~= spec_seed(n as nat));
    }
    v
}

/// The host-side read of the mapped buffer: element-for-element.
fn copy_buffer(buffer: &Vec<u32>) -> (r: Vec<u32>)
    ensures
        r@ == buffer@,
{
    let n = buffer.len();
    let mut v: Vec<u32> = Vec::new();
    let mut i: usize = 0;
    while i < n
        invariant
            n == buffer@.len(),
            i <= n,
            v@.len() == i as nat,
            forall|k: int| 0 <= k < i ==> v@[k] == buffer@[k],
        decreases n - i,
    {
        v.push(buffer[i]);
        i += 1;
    }
    proof {
        assert(v@ =~= buffer@);
    }
    v
}

} // verus!
