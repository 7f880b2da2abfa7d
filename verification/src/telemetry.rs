//! The periodic telemetry task: each period it splits the sensor sample into
//! a big-endian byte pair, has the cryptographic engine draw a fresh
//! initialization vector and encrypt the pair in cipher-block-chaining mode,
//! assembles the 32-byte wire payload `IV || ciphertext`, hands it to the bus,
//! and reschedules itself at the absolute instant `previous deadline + period`.
//!
//! The sensor, bus and cryptographic engine are external collaborators; this
//! module holds the decisions and the byte-level assembly, both verified, and
//! takes the collaborators' results as inputs.

use vstd::prelude::*;

verus! {

use crate::sched::Executor;
use crate::sched::SchedError;

/// Reactivation period of the telemetry task, in hardware cycles.
pub const PERIOD: u32 = 8_000;

/// Length of the initialization vector, in bytes.
pub const IV_LEN: usize = 16;

/// Length of one cipher block, in bytes.
pub const BLOCK_LEN: usize = 16;

/// Length of the outbound wire payload: the initialization vector followed by
/// the ciphertext block.
pub const FRAME_LEN: usize = 32;

/// Split a sample into its big-endian byte pair: high byte first. The pair
/// reassembles to exactly the sample.
pub fn split_u16_to_byte_array(n: u16) -> (r: [u8; 2])
    ensures
        r@.len() == 2,
        r@[0] as int == n as int / 256,
        r@[1] as int == n as int % 256,
        r@[0] as int * 256 + r@[1] as int == n as int,
{
    let x: u8 = ((n >> 8) & 0xff) as u8;
    let y: u8 = (n & 0xff) as u8;
    proof {
        assert(((n >> 8) & 0xff) < 256 && ((n >> 8) & 0xff) == n / 256) by (bit_vector);
        assert((n & 0xff) < 256 && (n & 0xff) == n % 256) by (bit_vector);
        assert(n / 256 * 256 + n % 256 == n) by (bit_vector);
    }
    [x, y]
}

/// Assemble the wire payload: bytes 0..16 the initialization vector, bytes
/// 16..32 the ciphertext block.
pub fn assemble_frame(iv: &Vec<u8>, ciphertext: &Vec<u8>) -> (frame: Vec<u8>)
    requires
        iv@.len() == IV_LEN,
        ciphertext@.len() == BLOCK_LEN,
    ensures
        frame@.len() == FRAME_LEN,
        frame@ == iv@ + ciphertext@,
        frame@.subrange(0, IV_LEN as int) == iv@,
        frame@.subrange(IV_LEN as int, FRAME_LEN as int) == ciphertext@,
{
    let mut frame: Vec<u8> = Vec::new();
    frame.extend_from_slice(iv.as_slice());
    frame.extend_from_slice(ciphertext.as_slice());
    proof {
        assert(frame@ =~= iv@ + ciphertext@);
        assert(frame@.subrange(0, IV_LEN as int) =~= iv@);
        assert(frame@.subrange(IV_LEN as int, FRAME_LEN as int) =~= ciphertext@);
    }
    frame
}

/// What one activation of the telemetry task decides to do, once the
/// collaborators have answered.
pub enum CycleAction {
    /// Transmit `frame` on the bus and reactivate at `next_deadline`.
    Send { frame: Vec<u8>, next_deadline: u64 },
    /// A cryptographic collaborator failed: halt the node.
    Halt,
}

/// The periodic telemetry task: its activation slot, its current absolute
/// deadline, and its fixed period.
#[derive(Clone, Copy, Debug, PartialEq, Eq, Structural)]
pub struct TelemetryTask {
    /// Task id in the executor's table.
    pub task_id: usize,
    /// Absolute instant of the current activation, in cycles.
    pub deadline: u64,
    /// Fixed reactivation period, in cycles.
    pub period: u64,
}

impl TelemetryTask {
    pub fn new(task_id: usize, first_deadline: u64, period: u64) -> (t: TelemetryTask)
        ensures
            t == (TelemetryTask { task_id, deadline: first_deadline, period }),
    {
        TelemetryTask { task_id, deadline: first_deadline, period }
    }

    /// Decide the rest of the cycle from the cryptographic collaborator's
    /// answers: with an initialization vector and a ciphertext in hand, send
    /// `IV || ciphertext` and reactivate one period after the current
    /// deadline; on either failure, halt.
    pub fn plan_cycle(&self, iv: Option<Vec<u8>>, ciphertext: Option<Vec<u8>>) -> (a: CycleAction)
        requires
            self.deadline + self.period <= u64::MAX,
            iv matches Some(v) ==> v@.len() == IV_LEN,
            ciphertext matches Some(c) ==> c@.len() == BLOCK_LEN,
        ensures
            match a {
                CycleAction::Send { frame, next_deadline } => {
                    &&& iv matches Some(v) && ciphertext matches Some(c) && frame@ == v@ + c@
                    &&& frame@.len() == FRAME_LEN
                    &&& next_deadline == self.deadline + self.period
                },
                CycleAction::Halt => iv is None || ciphertext is None,
            },
    {
        match (iv, ciphertext) {
            (Some(v), Some(c)) => {
                let frame = assemble_frame(&v, &c);
                CycleAction::Send { frame, next_deadline: self.deadline + self.period }
            },
            _ => CycleAction::Halt,
        }
    }

    /// Reactivate the task at the absolute instant `deadline + period` —
    /// anchored to the previous deadline, never to the current time, so
    /// jitter in a cycle's execution time cannot accumulate drift.
    /// A double-schedule is reported, changing nothing.
    pub fn reschedule(&mut self, ex: &mut Executor) -> (r: Result<(), SchedError>)
        requires
            old(ex).wf(),
            old(self).task_id < old(ex).tasks@.len(),
            old(self).deadline + old(self).period <= u64::MAX,
        ensures
            final(ex).wf(),
            if old(ex).queued@[old(self).task_id as int] is Some {
                &&& r == Err::<(), SchedError>(SchedError::AlreadyScheduled)
                &&& *final(self) == *old(self)
                &&& *final(ex) == *old(ex)
            } else {
                &&& r == Ok::<(), SchedError>(())
                &&& final(self).deadline == old(self).deadline + old(self).period
                &&& final(self).period == old(self).period
                &&& final(self).task_id == old(self).task_id
                &&& Executor::same_static(*final(ex), *old(ex))
                &&& final(ex).queued@ == old(ex).queued@.update(
                    old(self).task_id as int,
                    Some((old(self).deadline + old(self).period) as u64),
                )
                &&& final(ex).pending@ == old(ex).pending@
                &&& final(ex).holder@ == old(ex).holder@
                &&& final(ex).mask == old(ex).mask
            },
    {
        let next = self.deadline + self.period;
        match ex.schedule(self.task_id, next) {
            Ok(()) => {
                self.deadline = next;
                Ok(())
            },
            Err(e) => Err(e),
        }
    }
}

/// The deadline of the `n`-th activation after a start at `d0` with period
/// `p`, under the reschedule rule `deadline' = deadline + p`.
pub open spec fn deadline_after(d0: int, p: int, n: nat) -> int
    decreases n,
{
    if n == 0 {
        d0
    } else {
        deadline_after(d0, p, (n - 1) as nat) + p
    }
}

/// Law (drift-free periodicity): across any number of consecutive
/// activations the deadlines form the exact arithmetic sequence `d0`,
/// `d0 + p`, `d0 + 2p`, ... — independent of when within its period each
/// activation actually executed, since the reschedule rule never consults
/// the current time.
pub proof fn lemma_deadlines_drift_free(d0: int, p: int, n: nat)
    ensures
        deadline_after(d0, p, n) == d0 + n * p,
    decreases n,
{
    if n == 0 {
    } else {
        lemma_deadlines_drift_free(d0, p, (n - 1) as nat);
        assert((n - 1) as int * p + p == n as int * p) by (nonlinear_arith);
    }
}

/// Law: with a positive period the deadline sequence strictly increases.
pub proof fn lemma_deadlines_strictly_increase(d0: int, p: int, n: nat)
    requires
        p >= 1,
    ensures
        deadline_after(d0, p, n + 1) > deadline_after(d0, p, n),
{
}

} // verus!
