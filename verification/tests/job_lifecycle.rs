use std::time::Duration;
use std::time::Instant;

use rusthero::error::CoreError;
use rusthero::job::Command;
use rusthero::job::ComputeJob;
use rusthero::job::DispatchGeometry;
use rusthero::job::JobState;
use rusthero::job::Pipeline;
use rusthero::job::dispatch_geometry_for;
use rusthero::logical::LogicalDevice;
use rusthero::logical::Queue;
use rusthero::logical::QueuePriority;

fn test_device_and_queue() -> (LogicalDevice, Queue) {
    let device = LogicalDevice { queue_family_id: 1 };
    let queue = Queue { family_id: 1, priority: QueuePriority::half() };
    (device, queue)
}

fn built_job(element_count: u32) -> (ComputeJob, Queue) {
    let (device, queue) = test_device_and_queue();
    let mut job = ComputeJob::new();
    job.build(&device, &queue, Pipeline { local_group_size: 64 }, element_count)
        .expect("build");
    (job, queue)
}

#[test]
fn round_trip_returns_identity_sequence() {
    let (mut job, queue) = built_job(640);
    let mut signal = job.submit(&queue).expect("submit");
    signal.mark_signaled();
    let data = job.await_and_read(&signal, None).expect("await");
    assert_eq!(data.len(), 640);
    for (i, v) in data.iter().enumerate() {
        assert_eq!(*v, i as u32);
    }
    assert_eq!(job.state(), JobState::Completed);
}

#[test]
fn reference_scenario_dispatches_1024_groups_and_reads_back_identity() {
    let started = Instant::now();
    let (mut job, queue) = built_job(65536);
    assert_eq!(job.dispatch_geometry(), DispatchGeometry { x: 1024, y: 1, z: 1 });
    let mut signal = job.submit(&queue).expect("submit");
    signal.mark_signaled();
    let data = job.await_and_read(&signal, Some(5000)).expect("await");
    assert_eq!(data.len(), 65536);
    assert_eq!(data[0], 0);
    assert_eq!(data[1], 1);
    assert_eq!(data[65535], 65535);
    for (i, v) in data.iter().enumerate() {
        assert_eq!(*v, i as u32);
    }
    assert!(started.elapsed() < Duration::from_secs(5));
}

#[test]
fn build_records_the_canonical_one_shot_sequence() {
    let (job, _) = built_job(65536);
    assert_eq!(
        job.commands().as_slice(),
        &[
            Command::BindPipeline,
            Command::BindResourceSet,
            Command::Dispatch(DispatchGeometry { x: 1024, y: 1, z: 1 }),
            Command::End,
        ]
    );
    assert_eq!(job.binding().buffer_slot, 0);
    let fresh = ComputeJob::new();
    assert!(fresh.commands().is_empty());
}

#[test]
fn dispatch_geometry_formula() {
    assert_eq!(dispatch_geometry_for(65536, 64), DispatchGeometry { x: 1024, y: 1, z: 1 });
    assert_eq!(dispatch_geometry_for(128, 64), DispatchGeometry { x: 2, y: 1, z: 1 });
    assert_eq!(dispatch_geometry_for(1, 64), DispatchGeometry { x: 0, y: 1, z: 1 });
    assert_eq!(dispatch_geometry_for(0, 64), DispatchGeometry { x: 0, y: 1, z: 1 });
}

#[test]
fn never_signaled_wait_times_out_and_job_stays_submitted() {
    let (mut job, queue) = built_job(64);
    let signal = job.submit(&queue).expect("submit");
    let r = job.await_and_read(&signal, Some(1));
    assert_eq!(r, Err(CoreError::SyncTimeoutError));
    assert_eq!(job.state(), JobState::Submitted);
    // Re-awaitable: once the driver marks completion, the same job succeeds.
    let mut signal = signal;
    signal.mark_signaled();
    let data = job.await_and_read(&signal, Some(1)).expect("await after timeout");
    assert_eq!(data.len(), 64);
    assert_eq!(job.state(), JobState::Completed);
}

#[test]
fn wait_on_signaled_signal_is_idempotent() {
    let (mut job, queue) = built_job(8);
    let mut signal = job.submit(&queue).expect("submit");
    signal.mark_signaled();
    assert_eq!(signal.wait(None), Ok(()));
    assert_eq!(signal.wait(Some(1)), Ok(()));
    assert!(signal.is_signaled());
    let data = job.await_and_read(&signal, None).expect("await");
    assert_eq!(data, vec![0, 1, 2, 3, 4, 5, 6, 7]);
}

#[test]
fn submit_before_build_is_rejected() {
    let (_, queue) = test_device_and_queue();
    let mut job = ComputeJob::new();
    assert_eq!(job.submit(&queue).unwrap_err(), CoreError::InvalidStateError);
    assert_eq!(job.state(), JobState::Unbuilt);
}

#[test]
fn await_before_submit_is_rejected() {
    let (mut job, _) = built_job(16);
    let mut probe = ComputeJob::new();
    let (_, queue) = test_device_and_queue();
    let signal = {
        // A signal can only come from a submission; borrow one from a twin job.
        let mut twin = built_job(16).0;
        twin.submit(&queue).expect("submit")
    };
    // Built but never submitted: the read is rejected, the state is kept.
    assert_eq!(job.await_and_read(&signal, Some(1)).unwrap_err(), CoreError::InvalidStateError);
    assert_eq!(job.state(), JobState::Built);
    // Not even built: rejected the same way.
    assert_eq!(
        probe.await_and_read(&signal, Some(1)).unwrap_err(),
        CoreError::InvalidStateError
    );
    assert_eq!(probe.state(), JobState::Unbuilt);
}

#[test]
fn build_twice_is_rejected() {
    let (mut job, queue) = built_job(16);
    let (device, _) = test_device_and_queue();
    let r = job.build(&device, &queue, Pipeline { local_group_size: 64 }, 16);
    assert_eq!(r, Err(CoreError::InvalidStateError));
    assert_eq!(job.state(), JobState::Built);
}

#[test]
fn build_against_foreign_queue_is_rejected() {
    let device = LogicalDevice { queue_family_id: 1 };
    let foreign_queue = Queue { family_id: 2, priority: QueuePriority::half() };
    let mut job = ComputeJob::new();
    let r = job.build(&device, &foreign_queue, Pipeline { local_group_size: 64 }, 16);
    assert_eq!(r, Err(CoreError::ResourceAllocationError));
    assert_eq!(job.state(), JobState::Unbuilt);
}

#[test]
fn submit_on_foreign_queue_is_rejected() {
    let (mut job, _) = built_job(16);
    let foreign_queue = Queue { family_id: 7, priority: QueuePriority::half() };
    let r = job.submit(&foreign_queue);
    assert_eq!(r.unwrap_err(), CoreError::SubmissionError);
    assert_eq!(job.state(), JobState::Built);
}

#[test]
fn completed_job_cannot_be_resubmitted_or_reread() {
    let (mut job, queue) = built_job(4);
    let mut signal = job.submit(&queue).expect("submit");
    signal.mark_signaled();
    job.await_and_read(&signal, None).expect("await");
    assert_eq!(job.submit(&queue).unwrap_err(), CoreError::InvalidStateError);
    assert_eq!(job.await_and_read(&signal, None).unwrap_err(), CoreError::InvalidStateError);
    assert_eq!(job.state(), JobState::Completed);
}

#[test]
fn empty_job_reads_back_empty() {
    let (mut job, queue) = built_job(0);
    assert_eq!(job.element_count(), 0);
    let mut signal = job.submit(&queue).expect("submit");
    signal.mark_signaled();
    let data = job.await_and_read(&signal, None).expect("await");
    assert!(data.is_empty());
}
