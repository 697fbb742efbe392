use vstd::prelude::*;
use crate::channel::{try_send_frame, FrameSender, SendAttempt};
use crate::queue::{increasing_positions, is_subsequence, picked};

verus! {

pub const NANOS_PER_SEC: u64 = 1000000000;

/// How many timed frame acquisitions the throughput probe averages (one
/// more, untimed, warms the source up first).
pub const PROBE_SAMPLES: usize = 30;

/// The instant, in nanoseconds after the loop started, at which tick `index`
/// of a schedule of `fps` ticks per second falls due. Each tick is computed
/// from the start, so rounding never accumulates.
pub open spec fn tick_at(index: nat, fps: nat) -> nat {
    (index * NANOS_PER_SEC as nat) / fps
}

pub open spec fn sum_of(s: Seq<u64>) -> nat
    decreases s.len(),
{
    if s.len() == 0 {
        0
    } else {
        sum_of(s.drop_last()) + s.last() as nat
    }
}

/// The frame rate that a source sustains when acquisitions took `samples`
/// nanoseconds each: whole frames per second over the mean latency, capped
/// to the `u32` range (a mean of zero counts as unbounded).
pub open spec fn achievable_rate(samples: Seq<u64>) -> nat {
    if sum_of(samples) == 0 {
        u32::MAX as nat
    } else {
        let r = ((samples.len() * NANOS_PER_SEC as nat) / sum_of(samples)) as nat;
        if r > u32::MAX { u32::MAX as nat } else { r }
    }
}

/// The rate a recording runs at: the target, lowered to what the source
/// sustains, and never below one frame per second.
pub open spec fn clamped_rate(target: nat, achievable: nat) -> nat {
    let m = if target <= achievable { target } else { achievable };
    if m == 0 { 1 } else { m }
}

/// The throughput probe: the rate that `samples` (latencies in nanoseconds)
/// allow.
pub fn achievable_fps(samples: &Vec<u64>) -> (r: u32)
    ensures
        r == achievable_rate(samples@),
{
    let mut total: u128 = 0;
    let mut i: usize = 0;
    while i < samples.len()
        invariant
            i <= samples@.len(),
            total == sum_of(samples@.take(i as int)),
            total <= i * (u64::MAX as nat),
        decreases samples@.len() - i,
    {
        proof {
            assert(samples@.take(i + 1).drop_last() =~= samples@.take(i as int));
        }
        total = total + samples[i] as u128;
        i = i + 1;
    }
    proof {
        assert(samples@.take(i as int) =~= samples@);
    }
    if total == 0 {
        u32::MAX
    } else {
        let r = (samples.len() as u128 * NANOS_PER_SEC as u128) / total;
        if r > u32::MAX as u128 {
            u32::MAX
        } else {
            r as u32
        }
    }
}

/// The rate to record at, from the requested rate and the probe's result.
pub fn clamp_fps(target: u32, achievable: u32) -> (r: u32)
    ensures
        r == clamped_rate(target as nat, achievable as nat),
        r >= 1,
        r <= target || target == 0,
        r <= achievable || achievable == 0,
{
    let m = if target <= achievable { target } else { achievable };
    if m == 0 { 1 } else { m }
}

/// Consecutive ticks lie at most one frame interval (rounded up) apart.
pub proof fn lemma_tick_gap(index: nat, fps: nat)
    requires
        fps >= 1,
    ensures
        tick_at(index, fps) <= tick_at(index + 1, fps),
        tick_at(index + 1, fps) <= tick_at(index, fps) + NANOS_PER_SEC as nat / fps + 1,
{
    let a: int = (index * NANOS_PER_SEC as nat) as int;
    let b: int = ((index + 1) * NANOS_PER_SEC as nat) as int;
    let n = NANOS_PER_SEC as int;
    let f = fps as int;
    assert(b == a + n) by (nonlinear_arith)
        requires
            a == index * NANOS_PER_SEC as nat,
            b == (index + 1) * NANOS_PER_SEC as nat,
            n == NANOS_PER_SEC,
    ;
    let qa = a / f;
    let ra = a % f;
    let qn = n / f;
    let rn = n % f;
    let qb = b / f;
    let rb = b % f;
    assert(a == f * qa + ra && 0 <= ra < f) by (nonlinear_arith)
        requires
            f >= 1,
            qa == a / f,
            ra == a % f,
    ;
    assert(n == f * qn + rn && 0 <= rn < f) by (nonlinear_arith)
        requires
            f >= 1,
            qn == n / f,
            rn == n % f,
    ;
    assert(b == f * qb + rb && 0 <= rb < f) by (nonlinear_arith)
        requires
            f >= 1,
            qb == b / f,
            rb == b % f,
    ;
    assert(qa <= qb && qb <= qa + qn + 1) by (nonlinear_arith)
        requires
            f >= 1,
            b == a + n,
            a == f * qa + ra,
            0 <= ra < f,
            n == f * qn + rn,
            0 <= rn < f,
            b == f * qb + rb,
            0 <= rb < f,
            qn >= 0,
    ;
}

/// A stop is seen within one frame interval: once a tick was taken at
/// `elapsed_ns` or earlier, the loop sleeps at most one interval (rounded
/// up) before it looks at the liveness flag again.
pub proof fn lemma_sleep_within_one_interval(ticks: nat, fps: nat, elapsed_ns: nat)
    requires
        fps >= 1,
        ticks >= 1,
        elapsed_ns >= tick_at((ticks - 1) as nat, fps),
    ensures
        tick_at(ticks, fps) <= elapsed_ns + NANOS_PER_SEC as nat / fps + 1,
{
    lemma_tick_gap((ticks - 1) as nat, fps);
}

/// What the capture loop does next.
#[derive(Clone, Copy, Debug, PartialEq, Eq, Structural)]
pub enum CaptureStep {
    /// The liveness flag is down (or the consumer is gone): leave the loop,
    /// which drops the sending side of the channel.
    Stop,
    /// The next tick is this many nanoseconds away: sleep, then ask again.
    Sleep(u64),
    /// The next tick has come: acquire one frame and offer it to the channel.
    Capture,
}

/// How one acquisition went.
#[derive(Clone, Copy, Debug, PartialEq, Eq, Structural)]
pub enum FrameOutcome {
    /// The source failed this once; the tick is skipped.
    CaptureFailed,
    /// The frame entered the channel.
    Queued,
    /// The channel was full; the frame was discarded.
    Dropped,
    /// The consumer side of the channel is gone.
    Disconnected,
}

/// The producer's schedule: a fixed rate, and the index of the next tick,
/// which advances by exactly one per acquisition whatever its outcome.
pub struct CaptureLoop {
    fps: u32,
    next_tick: u64,
    queued: u64,
    dropped: u64,
    failed: u64,
    disconnected: bool,
}

impl CaptureLoop {
    pub closed spec fn rate(&self) -> nat {
        self.fps as nat
    }

    /// How many acquisitions were made so far.
    pub closed spec fn ticks(&self) -> nat {
        self.next_tick as nat
    }

    pub closed spec fn queued_count(&self) -> nat {
        self.queued as nat
    }

    pub closed spec fn dropped_count(&self) -> nat {
        self.dropped as nat
    }

    pub closed spec fn failed_count(&self) -> nat {
        self.failed as nat
    }

    pub closed spec fn is_disconnected(&self) -> bool {
        self.disconnected
    }

    pub closed spec fn wf(&self) -> bool {
        &&& self.fps >= 1
        &&& self.queued + self.dropped + self.failed + (if self.disconnected {
            1int
        } else {
            0int
        }) == self.next_tick
    }

    /// The loop has nothing more to do whatever the flag says: the consumer
    /// is gone, or the schedule's last tick was spent.
    pub open spec fn exhausted(&self) -> bool {
        self.is_disconnected() || self.ticks() == u64::MAX
    }

    /// A loop at `fps` frames per second, whose first tick is due at once.
    pub fn new(fps: u32) -> (r: Self)
        requires
            fps >= 1,
        ensures
            r.wf(),
            r.rate() == fps,
            r.ticks() == 0,
            r.queued_count() == 0,
            r.dropped_count() == 0,
            r.failed_count() == 0,
            !r.is_disconnected(),
    {
        CaptureLoop { fps, next_tick: 0, queued: 0, dropped: 0, failed: 0, disconnected: false }
    }

    pub fn fps(&self) -> (r: u32)
        ensures
            r == self.rate(),
    {
        self.fps
    }

    pub fn queued(&self) -> (r: u64)
        ensures
            r == self.queued_count(),
    {
        self.queued
    }

    pub fn dropped(&self) -> (r: u64)
        ensures
            r == self.dropped_count(),
    {
        self.dropped
    }

    pub fn failed(&self) -> (r: u64)
        ensures
            r == self.failed_count(),
    {
        self.failed
    }

    /// When the next tick falls due, in nanoseconds after the loop started.
    pub fn next_due(&self) -> (r: u128)
        requires
            self.wf(),
        ensures
            r == tick_at(self.ticks(), self.rate()),
    {
        (self.next_tick as u128 * NANOS_PER_SEC as u128) / self.fps as u128
    }

    /// The decision at the top of each iteration, given the liveness flag and
    /// the time elapsed since the loop started.
    pub fn next_step(&self, alive: bool, elapsed_ns: u64) -> (r: CaptureStep)
        requires
            self.wf(),
        ensures
            !alive || self.exhausted() <==> r == CaptureStep::Stop,
            alive && !self.exhausted() && elapsed_ns >= tick_at(self.ticks(), self.rate())
                <==> r == CaptureStep::Capture,
            r matches CaptureStep::Sleep(d) ==> {
                &&& elapsed_ns < tick_at(self.ticks(), self.rate())
                &&& d as nat == if tick_at(self.ticks(), self.rate()) - elapsed_ns
                    <= u64::MAX as int {
                    (tick_at(self.ticks(), self.rate()) - elapsed_ns) as nat
                } else {
                    u64::MAX as nat
                }
            },
    {
        if !alive || self.disconnected || self.next_tick == u64::MAX {
            return CaptureStep::Stop;
        }
        let due = self.next_due();
        if elapsed_ns as u128 >= due {
            CaptureStep::Capture
        } else {
            let wait = due - elapsed_ns as u128;
            if wait > u64::MAX as u128 {
                CaptureStep::Sleep(u64::MAX)
            } else {
                CaptureStep::Sleep(wait as u64)
            }
        }
    }

    /// Records how the acquisition of the current tick went and moves to the
    /// next tick. Returns whether the loop goes on.
    pub fn record(&mut self, outcome: FrameOutcome) -> (go_on: bool)
        requires
            old(self).wf(),
            !old(self).exhausted(),
        ensures
            final(self).wf(),
            final(self).rate() == old(self).rate(),
            final(self).ticks() == old(self).ticks() + 1,
            final(self).queued_count() == old(self).queued_count() + if outcome
                == FrameOutcome::Queued {
                1nat
            } else {
                0nat
            },
            final(self).dropped_count() == old(self).dropped_count() + if outcome
                == FrameOutcome::Dropped {
                1nat
            } else {
                0nat
            },
            final(self).failed_count() == old(self).failed_count() + if outcome
                == FrameOutcome::CaptureFailed {
                1nat
            } else {
                0nat
            },
            final(self).is_disconnected() == (outcome == FrameOutcome::Disconnected),
            go_on == !final(self).exhausted(),
    {
        match outcome {
            FrameOutcome::CaptureFailed => {
                self.failed = self.failed + 1;
            },
            FrameOutcome::Queued => {
                self.queued = self.queued + 1;
            },
            FrameOutcome::Dropped => {
                self.dropped = self.dropped + 1;
            },
            FrameOutcome::Disconnected => {
                self.disconnected = true;
            },
        }
        self.next_tick = self.next_tick + 1;
        !self.disconnected && self.next_tick != u64::MAX
    }

    /// Offers the frame of the current tick to the channel, without
    /// blocking, and records the outcome: queued (the frame entered the
    /// channel), dropped because the channel was full, or the end of the loop
    /// because the consumer is gone. Returns whether the loop goes on.
    pub fn offer(&mut self, tx: &mut FrameSender, frame: Vec<u8>) -> (go_on: bool)
        requires
            old(self).wf(),
            !old(self).exhausted(),
        ensures
            final(self).wf(),
            final(self).rate() == old(self).rate(),
            final(self).ticks() == old(self).ticks() + 1,
            final(self).failed_count() == old(self).failed_count(),
            final(self).queued_count() + final(self).dropped_count() + (if final(self).is_disconnected() {
                1int
            } else {
                0int
            }) == old(self).queued_count() + old(self).dropped_count() + 1,
            final(self).queued_count() >= old(self).queued_count(),
            final(self).dropped_count() >= old(self).dropped_count(),
            final(self).queued_count() == old(self).queued_count() + 1 ==> final(tx).sent()
                == old(tx).sent().push(frame),
            final(self).queued_count() == old(self).queued_count()
                ==> final(tx).sent() == old(tx).sent(),
            final(tx).capacity() == old(tx).capacity(),
            final(tx).offered() == old(tx).offered().push(frame),
            is_subsequence(old(tx).sent(), old(tx).offered()) ==> is_subsequence(
                final(tx).sent(),
                final(tx).offered(),
            ),
            go_on == !final(self).exhausted(),
    {
        let ghost sent0 = tx.sent();
        let ghost offered0 = tx.offered();
        let ghost f = frame;
        let attempt = try_send_frame(tx, frame);
        proof {
            if is_subsequence(sent0, offered0) {
                let at = choose|at: Seq<int>|
                    #[trigger] increasing_positions(offered0, at) && sent0 == picked(offered0, at);
                let offered1 = offered0.push(f);
                assert(picked(offered1, at) =~= picked(offered0, at));
                if attempt is Sent {
                    let at1 = at.push(offered0.len() as int);
                    assert(increasing_positions(offered1, at1));
                    assert(picked(offered1, at1) =~= sent0.push(f));
                } else {
                    assert(increasing_positions(offered1, at));
                }
            }
        }
        let outcome = match attempt {
            SendAttempt::Sent => FrameOutcome::Queued,
            SendAttempt::Full(_) => FrameOutcome::Dropped,
            SendAttempt::Disconnected(_) => FrameOutcome::Disconnected,
        };
        self.record(outcome)
    }
}

} // verus!
