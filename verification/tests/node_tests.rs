//! Tests of the executor, the priority-ceiling lock, and the telemetry task.

use telemetry_node::sched::CeilingGuard;
use telemetry_node::sched::Executor;
use telemetry_node::sched::SchedError;
use telemetry_node::sched::TaskDesc;
use telemetry_node::sched::TaskKind;
use telemetry_node::telemetry::CycleAction;
use telemetry_node::telemetry::PERIOD;
use telemetry_node::telemetry::TelemetryTask;
use telemetry_node::telemetry::assemble_frame;
use telemetry_node::telemetry::split_u16_to_byte_array;

/// Telemetry task 0 (priority 5), console task 1 (priority 3), idle task 2
/// (priority 0); sensor and engine slots owned by telemetry alone, the bus
/// slot shared by telemetry and console.
fn node_executor() -> Executor {
    let tasks = vec![
        TaskDesc { priority: 5, kind: TaskKind::Periodic },
        TaskDesc { priority: 3, kind: TaskKind::Interrupt },
        TaskDesc { priority: 0, kind: TaskKind::Idle },
    ];
    let slot_owners = vec![vec![0], vec![0, 1], vec![0]];
    Executor::new(tasks, slot_owners)
}

#[test]
fn ceilings_are_maximum_owner_priorities() {
    let ex = node_executor();
    assert_eq!(ex.ceilings, vec![5, 5, 5]);
    let shared = Executor::new(
        vec![
            TaskDesc { priority: 2, kind: TaskKind::Interrupt },
            TaskDesc { priority: 7, kind: TaskKind::Interrupt },
        ],
        vec![vec![0], vec![0, 1], vec![]],
    );
    assert_eq!(shared.ceilings, vec![2, 7, 0]);
}

#[test]
fn ceiling_lock_defers_contender_until_release() {
    // A low-priority task holds a slot; a higher-priority contender on the
    // same slot pends, is deferred while the slot is held, and runs only
    // after release — the simulated-preemption harness.
    let mut ex = Executor::new(
        vec![
            TaskDesc { priority: 1, kind: TaskKind::Periodic },
            TaskDesc { priority: 5, kind: TaskKind::Interrupt },
        ],
        vec![vec![0, 1]],
    );
    let guard = ex.acquire(0, 0);
    assert_eq!(ex.mask, 5); // raised to the slot's ceiling
    assert_eq!(ex.holder[0], Some(0));

    ex.pend(1);
    assert_eq!(ex.dispatch(), None); // deferred: 5 is not above the mask

    ex.release(guard);
    assert_eq!(ex.mask, 0);
    assert_eq!(ex.holder[0], None);
    assert_eq!(ex.dispatch(), Some(1)); // admitted once the slot is free
}

#[test]
fn ceiling_lock_nests_and_restores() {
    let mut ex = node_executor();
    let outer = ex.acquire(1, 1); // console takes the bus: ceiling 5
    assert_eq!(ex.mask, 5);
    let inner: CeilingGuard = ex.acquire(0, 0);
    assert_eq!(ex.mask, 5);
    ex.release(inner);
    assert_eq!(ex.mask, 5);
    ex.release(outer);
    assert_eq!(ex.mask, 0);
}

#[test]
fn dispatch_picks_highest_priority_pending() {
    let mut ex = node_executor();
    assert_eq!(ex.dispatch(), None);
    ex.pend(2);
    ex.pend(1);
    assert_eq!(ex.dispatch(), Some(1));
    ex.pend(0);
    assert_eq!(ex.dispatch(), Some(0));
    ex.complete(0);
    ex.complete(1);
    // Idle has priority 0, not above the zero mask: nothing preempts.
    assert_eq!(ex.dispatch(), None);
}

#[test]
fn schedule_twice_is_an_error() {
    let mut ex = node_executor();
    assert_eq!(ex.schedule(0, 100), Ok(()));
    assert_eq!(ex.schedule(0, 200), Err(SchedError::AlreadyScheduled));
    assert_eq!(ex.queued[0], Some(100)); // the double-schedule changed nothing
}

#[test]
fn fire_timer_activates_due_tasks_only() {
    let mut ex = node_executor();
    ex.schedule(0, 50).unwrap();
    ex.schedule(1, 100).unwrap();
    ex.fire_timer(60);
    assert_eq!(ex.queued[0], None);
    assert!(ex.pending[0]);
    assert_eq!(ex.queued[1], Some(100));
    assert!(!ex.pending[1]);
}

#[test]
fn periodic_deadlines_are_drift_free() {
    // Across N activations the deadlines are d0, d0+P, ..., d0+(N-1)P
    // exactly, whatever the jitter in when each activation actually ran.
    let mut ex = node_executor();
    let d0: u64 = 1_000;
    let period = PERIOD as u64;
    let mut task = TelemetryTask::new(0, d0, period);
    ex.schedule(0, d0).unwrap();
    let jitters: [u64; 5] = [0, 17, 3_999, 1, 2_500];
    for (i, jitter) in jitters.iter().enumerate() {
        assert_eq!(task.deadline, d0 + i as u64 * period);
        ex.fire_timer(task.deadline + jitter); // activation runs late by `jitter`
        assert!(ex.pending[0]);
        ex.complete(0);
        task.reschedule(&mut ex).unwrap();
        assert_eq!(ex.queued[0], Some(task.deadline));
    }
    assert_eq!(task.deadline, d0 + 5 * period);
}

#[test]
fn reschedule_reports_double_scheduling() {
    let mut ex = node_executor();
    let mut task = TelemetryTask::new(0, 500, PERIOD as u64);
    ex.schedule(0, 500).unwrap();
    let deadline_before = task.deadline;
    assert_eq!(task.reschedule(&mut ex), Err(SchedError::AlreadyScheduled));
    assert_eq!(task.deadline, deadline_before);
}

#[test]
fn split_sample_big_endian() {
    assert_eq!(split_u16_to_byte_array(0xABCD), [0xAB, 0xCD]);
    assert_eq!(split_u16_to_byte_array(0), [0, 0]);
    assert_eq!(split_u16_to_byte_array(0x00FF), [0x00, 0xFF]);
    assert_eq!(split_u16_to_byte_array(u16::MAX), [0xFF, 0xFF]);
    let [hi, lo] = split_u16_to_byte_array(48_813);
    assert_eq!(u16::from(hi) * 256 + u16::from(lo), 48_813);
}

#[test]
fn frame_is_iv_then_ciphertext() {
    let iv: Vec<u8> = (0..16).collect();
    let ciphertext: Vec<u8> = (16..32).collect();
    let frame = assemble_frame(&iv, &ciphertext);
    assert_eq!(frame.len(), 32);
    assert_eq!(&frame[..16], iv.as_slice());
    assert_eq!(&frame[16..], ciphertext.as_slice());
}

#[test]
fn plan_cycle_sends_frame_and_next_deadline() {
    let task = TelemetryTask::new(0, 100, PERIOD as u64);
    let iv = vec![0xA0u8; 16];
    let ciphertext = vec![0x5Bu8; 16];
    match task.plan_cycle(Some(iv.clone()), Some(ciphertext.clone())) {
        CycleAction::Send { frame, next_deadline } => {
            assert_eq!(&frame[..16], iv.as_slice());
            assert_eq!(&frame[16..], ciphertext.as_slice());
            assert_eq!(next_deadline, 100 + PERIOD as u64);
        },
        CycleAction::Halt => panic!("expected a send"),
    }
}

#[test]
fn plan_cycle_halts_on_engine_failure() {
    let task = TelemetryTask::new(0, 100, PERIOD as u64);
    assert!(matches!(task.plan_cycle(None, Some(vec![0u8; 16])), CycleAction::Halt));
    assert!(matches!(task.plan_cycle(Some(vec![0u8; 16]), None), CycleAction::Halt));
    assert!(matches!(task.plan_cycle(None, None), CycleAction::Halt));
}
