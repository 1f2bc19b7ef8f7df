//! The clock handles: one writer, any number of readers.
//!
//! The shared storage is one heap block holding an independent atomic per
//! mutable field, reached through `Arc` from every handle. The single writer
//! keeps an authoritative mirror of the state in plain fields — it is the only
//! thread that ever stores — so all of its arithmetic is verified against the
//! model in [`crate::model`]; each mutation is then published with release
//! ordering. Readers load with acquire ordering. The three fields are
//! independent atomics, so a reader may observe them from different, causally
//! ordered writer updates; what a reader loads therefore depends on the
//! concurrent writer, and the read-side contracts constrain only the exact
//! shape the loaded values are returned in, never which update they came from.

use crate::model::apply_op;
use crate::model::ClockModel;
use crate::model::ClockOp;
use std::sync::atomic::AtomicU64;
use std::sync::atomic::AtomicUsize;
use std::sync::atomic::Ordering;
use std::sync::Arc;
use vstd::prelude::*;

verus! {

/// Tempos are counted in thousandths of a beat per minute.
pub const TEMPO_SCALE: u64 = 1000;

/// Denominator of a beat duration: `beat_duration` is the tempo divided by
/// sixty, which for a tempo of `t` thousandths of a beat per minute is the
/// fraction `t / 60_000`; the cumulative beat position is a fraction over
/// `60_000 * rate`.
pub const DURATION_DEN: u64 = 60 * TEMPO_SCALE;

/// An exact fraction `num / den`. Beat positions and beat durations are
/// returned in this form; the denominator is fixed by the construction-time
/// sample rate, so callers may compare values by cross-multiplying.
#[derive(Clone, Copy, Debug, PartialEq, Eq, Structural)]
pub struct Ratio {
    /// Numerator.
    pub num: u64,
    /// Denominator; never zero for a value handed out by the clock.
    pub den: u64,
}

/// The shared storage block. Written only by the single writer; read by any
/// thread. Each field is an independent atomic: readers never block, at the
/// price of not seeing the three fields as one snapshot.
struct SharedClock {
    /// Cumulative frames; published with release ordering.
    frames: AtomicUsize,
    /// Numerator of the cumulative beat position over `DURATION_DEN * rate`.
    beat_num: AtomicU64,
    /// Current tempo, in thousandths of a beat per minute.
    tempo: AtomicU64,
}

/// Relies on std's `Arc::clone`, which returns a handle to the very same
/// allocation: the value behind the clone equals the value behind the
/// original.
#[verifier::external_body]
fn clone_shared(v: &Arc<SharedClock>) -> (r: Arc<SharedClock>)
    ensures
        r == *v,
{
    v.clone()
}

/// The writer half of the clock: held by the one realtime producer thread.
///
/// The plain fields mirror the shared atomics exactly — this handle is the
/// only writer, so nothing else ever moves them — and its view is the
/// [`ClockModel`] those mirrors denote.
pub struct ClockUpdater {
    shared: Arc<SharedClock>,
    frames: usize,
    beat_num: u64,
    tempo: u64,
    rate: u32,
}

impl View for ClockUpdater {
    type V = ClockModel;

    closed spec fn view(&self) -> ClockModel {
        ClockModel {
            frames: self.frames as nat,
            beat_num: self.beat_num as nat,
            tempo: self.tempo as nat,
            rate: self.rate as nat,
        }
    }
}

impl ClockUpdater {
    /// Advance the clock by `frames` audio frames.
    ///
    /// Adds `frames` to the frame counter and, using the tempo in force at
    /// this moment, `tempo * frames` to the beat numerator — that is,
    /// `(tempo / 60_000) * frames / rate` beats. The new beat position is
    /// published before the new frame count, each with release ordering, so a
    /// thread that observes the new frame count with an acquire load also
    /// observes a beat position at least this advanced. Never blocks, never
    /// allocates.
    pub fn increment(&mut self, frames: usize)
        requires
            old(self)@.frames + frames <= usize::MAX,
            old(self)@.beat_num + old(self)@.tempo * frames <= u64::MAX,
        ensures
            final(self)@ == apply_op(old(self)@, ClockOp::Increment { frames: frames as nat }),
    {
        let delta: u64 = self.tempo * (frames as u64);
        self.frames = self.frames + frames;
        self.beat_num = self.beat_num + delta;
        self.shared.beat_num.store(self.beat_num, Ordering::Release);
        self.shared.frames.store(self.frames, Ordering::Release);
    }

    /// Advance the clock by `frames` audio frames, declining instead of
    /// overflowing.
    ///
    /// Performs exactly [`Self::increment`] and returns `true` when neither
    /// the frame counter nor the beat numerator would overflow its width;
    /// otherwise leaves the clock untouched and returns `false`.
    pub fn try_increment(&mut self, frames: usize) -> (ok: bool)
        ensures
            ok <==> (old(self)@.frames + frames <= usize::MAX && old(self)@.beat_num + old(
                self,
            )@.tempo * frames <= u64::MAX),
            ok ==> final(self)@ == apply_op(
                old(self)@,
                ClockOp::Increment { frames: frames as nat },
            ),
            !ok ==> *final(self) == *old(self),
    {
        let frames_fit = self.frames.checked_add(frames).is_some();
        if frames_fit {
            if let Some(delta) = self.tempo.checked_mul(frames as u64) {
                if self.beat_num.checked_add(delta).is_some() {
                    self.increment(frames);
                    return true;
                }
            }
        }
        false
    }

    /// Switch to a new tempo, in thousandths of a beat per minute, published
    /// with release ordering.
    ///
    /// Takes effect for the increments that come after it: the frame counter
    /// and the beat position are exactly as they were. Never blocks.
    pub fn set_tempo(&mut self, new_tempo: u64)
        ensures
            final(self)@ == apply_op(old(self)@, ClockOp::SetTempo { millibpm: new_tempo as nat }),
    {
        self.tempo = new_tempo;
        self.shared.tempo.store(new_tempo, Ordering::Release);
    }
}

/// Build the beat-position fraction from a loaded beat numerator.
///
/// This is the whole read-side computation of [`ClockConsumer::beat`], on a
/// numerator that an acquire load handed back: the returned fraction is
/// exactly `beat_num / (60_000 * rate)`.
pub fn beats_ratio(beat_num: u64, rate: u32) -> (r: Ratio)
    ensures
        r.num == beat_num,
        r.den == DURATION_DEN * rate,
{
    Ratio { num: beat_num, den: DURATION_DEN * (rate as u64) }
}

/// Build the beat-duration fraction from a loaded tempo.
///
/// This is the whole read-side computation of [`ClockConsumer::beat_duration`]:
/// for a tempo of `millibpm` thousandths of a beat per minute the returned
/// fraction is exactly `millibpm / 60_000`, that is the tempo in beats per
/// minute divided by sixty — and it depends on the tempo alone, not on any
/// frame position.
pub fn duration_ratio(millibpm: u64) -> (r: Ratio)
    ensures
        r.num == millibpm,
        r.den == DURATION_DEN,
{
    Ratio { num: millibpm, den: DURATION_DEN }
}

/// A reader of the clock: usable from any thread, concurrently with the
/// writer and with other readers, and freely duplicable. Every query is one
/// acquire load plus verified arithmetic; none blocks, allocates or fails.
pub struct ClockConsumer {
    shared: Arc<SharedClock>,
    rate: u32,
}

impl ClockConsumer {
    /// The sample rate this reader was constructed with.
    pub closed spec fn spec_rate(&self) -> nat {
        self.rate as nat
    }

    /// Whether this reader observes the state block of the given writer.
    pub closed spec fn observes(&self, writer: &ClockUpdater) -> bool {
        self.shared == writer.shared && self.rate == writer.rate
    }

    /// The most recently published frame count visible to this thread, by one
    /// acquire load. Which writer update it comes from depends on the
    /// concurrent writer; successive calls on one thread never go backwards.
    pub fn frames(&self) -> usize {
        self.shared.frames.load(Ordering::Acquire)
    }

    /// The most recently published beat position visible to this thread, as
    /// the exact fraction `beat_num / (60_000 * rate)`: one acquire load of
    /// the beat numerator, handed to [`beats_ratio`].
    pub fn beat(&self) -> (r: Ratio)
        ensures
            r.den == DURATION_DEN * self.spec_rate(),
    {
        let n: u64 = self.shared.beat_num.load(Ordering::Acquire);
        beats_ratio(n, self.rate)
    }

    /// The duration of one beat under the most recently published tempo
    /// visible to this thread, as the exact fraction `tempo / 60_000` — the
    /// tempo in beats per minute divided by sixty, independent of the frame
    /// position: one acquire load of the tempo, handed to [`duration_ratio`].
    pub fn beat_duration(&self) -> (r: Ratio)
        ensures
            r.den == DURATION_DEN,
    {
        let t: u64 = self.shared.tempo.load(Ordering::Acquire);
        duration_ratio(t)
    }
}

impl Clone for ClockConsumer {
    /// Duplicate this reader. The duplicate shares the same underlying state
    /// block — no snapshot is taken — so it observes exactly what the
    /// original observes at every future point.
    fn clone(&self) -> (r: ClockConsumer)
        ensures
            r == *self,
    {
        ClockConsumer { shared: clone_shared(&self.shared), rate: self.rate }
    }
}

/// Create a clock with `frame_count = 0`, `beat_position = 0` and the given
/// tempo (in thousandths of a beat per minute), returning exactly one writer
/// and one reader bound to newly allocated shared state. Further readers come
/// from duplicating the reader; the writer is the sole mutator by
/// construction. The sample rate must be at least one frame per second, so
/// that beat positions are fractions over a nonzero denominator.
pub fn audio_clock(tempo: u64, rate: u32) -> (out: (ClockUpdater, ClockConsumer))
    requires
        rate >= 1,
    ensures
        out.0@ == (ClockModel {
            frames: 0,
            beat_num: 0,
            tempo: tempo as nat,
            rate: rate as nat,
        }),
        out.1.observes(&out.0),
        out.1.spec_rate() == rate as nat,
{
    let shared = Arc::new(
        SharedClock {
            frames: AtomicUsize::new(0),
            beat_num: AtomicU64::new(0),
            tempo: AtomicU64::new(tempo),
        },
    );
    let consumer = ClockConsumer { shared: clone_shared(&shared), rate };
    let updater = ClockUpdater { shared, frames: 0, beat_num: 0, tempo, rate };
    (updater, consumer)
}

} // verus!
