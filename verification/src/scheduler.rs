//! The sampling scheduler: a single-threaded, run-to-completion loop body
//! split into its two decisions. On a timer tick the sampling path turns a
//! sensor reading into an annunciator direction and a best-effort telemetry
//! record; between ticks the drain path disposes of queued telemetry.
//!
//! The loop itself, the sensor, the annunciator and the timer are outside
//! collaborators: they hand readings in and carry outcomes out as plain
//! values, so every decision in here is checked.

use crate::buffer::TELEMETRY_CAPACITY;
use crate::buffer::TelemetryRingBuffer;
use crate::buffer::rb_contig;
use crate::buffer::rb_queued;
use crate::buffer::rb_space;
use crate::buffer::rb_wdata;
use crate::buffer::rb_wf;
use crate::classify::atan2_norm_milli;
use crate::classify::bucket_spec;
use crate::classify::is_flat_spec;
use crate::classify::tilt_direction;
use crate::direction::Direction;
use crate::payload::PAYLOAD_LEN;
use crate::payload::encode_payload;
use crate::payload::payload_spec;
use crate::vector::BoardVector;
use crate::vector::RawSample;
use crate::vector::UnitVector;
use crate::vector::g_from_raw_acc_value;
use crate::vector::normalize;
use crate::vector::unit_of;
use vstd::prelude::*;

verus! {

/// Failure reported by the sensor collaborator: a bus or transaction fault.
#[derive(Clone, Copy, Debug, PartialEq, Eq, Structural)]
pub struct SensorError;

/// What one sampling step decided.
#[derive(Clone, Copy, Debug)]
pub enum SampleOutcome {
    /// The sensor failed and the recovery policy allows another attempt:
    /// read again and call the step with the new reading. Nothing else
    /// happened; the annunciator must not be touched.
    Retry,
    /// The sensor failed with the retry budget exhausted: escalate. The
    /// default policy treats this as fatal.
    Fatal,
    /// The reading was degenerate (zero magnitude): this sample is skipped
    /// and the loop continues; the annunciator must not be touched.
    Skipped,
    /// The sample was classified: show `direction` on the annunciator
    /// (`None` meaning flat, all outputs off). `stored` tells whether the
    /// telemetry record was enqueued or dropped for want of space.
    Sampled { direction: Option<Direction>, stored: bool },
}

/// What one drain step did.
#[derive(Clone, Copy, Debug, PartialEq, Eq, Structural)]
pub enum DrainOutcome {
    /// `len` queued bytes were read and disposed of.
    Drained { len: usize },
    /// The buffer was empty: a normal idle condition, not an error.
    Idle,
}

/// The gravity vector of a raw sample, in the board frame.
pub open spec fn board_of(raw: RawSample) -> BoardVector {
    BoardVector { x: raw.y as i32, y: (-(raw.x as int)) as i32, z: raw.z as i32 }
}

/// A raw sample is degenerate when every axis reads zero.
pub open spec fn is_degenerate(raw: RawSample) -> bool {
    raw.x == 0 && raw.y == 0 && raw.z == 0
}

/// The unit vector a raw sample normalizes to.
pub open spec fn unit_of_sample(raw: RawSample) -> UnitVector {
    unit_of(board_of(raw))
}

/// The classification of a raw sample: `None` for flat, otherwise its
/// compass bucket.
pub open spec fn direction_of_sample(raw: RawSample) -> Option<Direction> {
    let u = unit_of_sample(raw);
    if is_flat_spec(u) {
        Option::None
    } else {
        Option::Some(bucket_spec(atan2_norm_milli(u.x as int, u.y as int)))
    }
}

/// The record a raw sample enqueues.
pub open spec fn record_of_sample(raw: RawSample) -> Seq<u8> {
    payload_spec(unit_of_sample(raw), direction_of_sample(raw))
}

/// The telemetry backlog of a well-formed scheduler never exceeds the
/// ring's capacity.
pub proof fn lemma_backlog_within_capacity(s: SampleScheduler)
    requires
        s.wf(),
    ensures
        s.queued().len() <= TELEMETRY_CAPACITY,
{
}

/// The sampling scheduler: owns the telemetry ring and the sensor recovery
/// policy. Created once at startup; the loop around it runs forever.
pub struct SampleScheduler {
    ring: TelemetryRingBuffer,
    retry_limit: u32,
    failures: u32,
}

impl SampleScheduler {
    /// The telemetry bytes queued and not yet drained.
    pub closed spec fn queued(self) -> Seq<u8> {
        rb_queued(self.ring)
    }

    /// The free contiguous space of the telemetry ring.
    pub closed spec fn space(self) -> nat {
        rb_space(self.ring)
    }

    /// The readable prefix of the queued telemetry bytes.
    pub closed spec fn contig(self) -> nat {
        rb_contig(self.ring)
    }

    /// Consecutive sensor failures seen so far.
    pub closed spec fn failures(self) -> nat {
        self.failures as nat
    }

    /// How many consecutive failures the recovery policy retries before it
    /// escalates.
    pub closed spec fn retry_limit(self) -> nat {
        self.retry_limit as nat
    }

    /// Between steps the ring holds no outstanding write grant, is well
    /// formed, and the failure count is within the policy.
    pub closed spec fn wf(self) -> bool {
        &&& rb_wdata(self.ring).len() == 0
        &&& rb_wf(self.ring)
        &&& self.failures <= self.retry_limit
    }

    /// Creates a scheduler with an empty telemetry ring and a sensor
    /// recovery policy that retries up to `retry_limit` times.
    pub fn new(retry_limit: u32) -> (s: SampleScheduler)
        ensures
            s.wf(),
            s.queued() == Seq::<u8>::empty(),
            s.contig() == 0,
            s.space() == TELEMETRY_CAPACITY,
            s.failures() == 0,
            s.retry_limit() == retry_limit,
    {
        SampleScheduler { ring: TelemetryRingBuffer::new(), retry_limit, failures: 0 }
    }

    /// The sampling path of one timer tick, handed the sensor reading.
    ///
    /// A failed reading consumes one unit of the retry budget and asks for
    /// another attempt, or escalates once the budget is spent; neither
    /// touches the queue or the annunciator. A degenerate reading is
    /// skipped. Every other reading is classified; its record is enqueued
    /// exactly when a full record fits, and dropped silently otherwise --
    /// the documented lossy backpressure policy.
    pub fn produce_sample(&mut self, reading: Result<RawSample, SensorError>) -> (r:
        SampleOutcome)
        requires
            old(self).wf(),
        ensures
            final(self).wf(),
            final(self).retry_limit() == old(self).retry_limit(),
            reading is Err && old(self).failures() < old(self).retry_limit() ==> r is Retry
                && final(self).failures() == old(self).failures() + 1,
            reading is Err && old(self).failures() >= old(self).retry_limit() ==> r is Fatal
                && final(self).failures() == old(self).failures(),
            reading is Err ==> final(self).queued() == old(self).queued() && final(self).contig()
                == old(self).contig() && final(self).space() == old(self).space(),
            reading is Ok ==> final(self).failures() == 0,
            reading is Ok && PAYLOAD_LEN <= old(self).space() ==> final(self).space() >= old(
                self,
            ).space() - PAYLOAD_LEN,
            reading matches Ok(raw) ==> ((is_degenerate(raw) ==> r is Skipped
                && final(self).queued() == old(self).queued()
                && final(self).contig() == old(self).contig()
                && final(self).space() == old(self).space()) && (!is_degenerate(raw) ==> (
            r matches SampleOutcome::Sampled { direction, stored }
                && direction == direction_of_sample(raw)
                && stored == (PAYLOAD_LEN <= old(self).space()))) && (!is_degenerate(raw)
                && PAYLOAD_LEN <= old(self).space()
                ==> final(self).queued() == old(self).queued() + record_of_sample(raw)) && (
            !is_degenerate(raw) && PAYLOAD_LEN > old(self).space()
                ==> final(self).queued() == old(self).queued()
                && final(self).contig() == old(self).contig()
                && final(self).space() == old(self).space())),
    {
        match reading {
            Err(_) => {
                if self.failures < self.retry_limit {
                    self.failures = self.failures + 1;
                    SampleOutcome::Retry
                } else {
                    SampleOutcome::Fatal
                }
            }
            Ok(raw) => {
                self.failures = 0;
                let board = g_from_raw_acc_value(&raw);
                proof {
                    assert(board == board_of(raw));
                }
                match normalize(&board) {
                    Err(_) => SampleOutcome::Skipped,
                    Ok(unit) => {
                        let direction = tilt_direction(&unit);
                        let record = encode_payload(&unit, direction);
                        let stored = match self.ring.reserve_exact(PAYLOAD_LEN) {
                            Ok(_) => {
                                self.ring.write_all(&record);
                                self.ring.commit(PAYLOAD_LEN);
                                true
                            }
                            Err(_) => false,
                        };
                        proof {
                            assert(rb_wdata(self.ring).len() == 0);
                        }
                        SampleOutcome::Sampled { direction, stored }
                    }
                }
            }
        }
    }

    /// The drain path of one idle slot: one best-effort read, whose whole
    /// readable window is disposed of at once. An empty buffer is the normal
    /// idle answer and changes nothing.
    pub fn attempt_drain(&mut self) -> (r: DrainOutcome)
        requires
            old(self).wf(),
        ensures
            final(self).wf(),
            final(self).retry_limit() == old(self).retry_limit(),
            final(self).failures() == old(self).failures(),
            old(self).queued().len() == 0 ==> r == DrainOutcome::Idle && final(self).queued()
                == old(self).queued(),
            old(self).queued().len() > 0 ==> r == (DrainOutcome::Drained {
                len: old(self).contig() as usize,
            }) && final(self).queued() == old(self).queued().skip(old(self).contig() as int),
    {
        match self.ring.read() {
            Ok(bytes) => {
                let len = bytes.len();
                self.ring.release(len);
                DrainOutcome::Drained { len }
            }
            Err(_) => DrainOutcome::Idle,
        }
    }
}

} // verus!
