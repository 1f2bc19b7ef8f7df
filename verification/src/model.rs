//! The mathematical model of the clock.
//!
//! A [`ClockModel`] is the state the single writer advances in program order:
//! the cumulative frame count, the numerator of the cumulative beat position,
//! the current tempo, and the fixed sample rate. [`ClockOp`] names the two
//! operations the writer may perform, and [`apply_op`] / [`apply_ops`] say
//! what each does to the state. The proof functions at the end are the laws
//! the clock obeys over arbitrary operation sequences.

use vstd::prelude::*;

verus! {

/// The writer's state, in exact integers.
///
/// `tempo` is counted in thousandths of a beat per minute. `beat_num` is the
/// numerator of the cumulative beat position over the fixed denominator
/// `60_000 * rate`: each increment of `f` frames at tempo `t` contributes
/// `(t / 60_000) * f / rate` beats, that is `t * f` to this numerator.
pub ghost struct ClockModel {
    /// Cumulative frames processed since the clock was created.
    pub frames: nat,
    /// Numerator of the cumulative beat position over `60_000 * rate`.
    pub beat_num: nat,
    /// Current tempo, in thousandths of a beat per minute.
    pub tempo: nat,
    /// Sample rate in frames per second; fixed at construction.
    pub rate: nat,
}

/// An operation of the writer, in the order the writer performs them.
pub ghost enum ClockOp {
    /// Advance the clock by this many audio frames.
    Increment { frames: nat },
    /// Switch to this tempo, in thousandths of a beat per minute.
    SetTempo { millibpm: nat },
}

/// The effect of one writer operation on the state.
///
/// An increment adds its frame count to `frames` and `tempo * frames` to the
/// beat numerator, using the tempo in force at that moment; a tempo change
/// replaces `tempo` and touches nothing else. No operation moves `rate`.
pub open spec fn apply_op(m: ClockModel, op: ClockOp) -> ClockModel {
    match op {
        ClockOp::Increment { frames } => ClockModel {
            frames: m.frames + frames,
            beat_num: m.beat_num + m.tempo * frames,
            ..m
        },
        ClockOp::SetTempo { millibpm } => ClockModel { tempo: millibpm, ..m },
    }
}

/// The effect of a sequence of writer operations, first to last.
pub open spec fn apply_ops(m: ClockModel, ops: Seq<ClockOp>) -> ClockModel
    decreases ops.len(),
{
    if ops.len() == 0 {
        m
    } else {
        apply_ops(apply_op(m, ops[0]), ops.skip(1))
    }
}

/// How many frames one operation contributes.
pub open spec fn op_frames(op: ClockOp) -> nat {
    match op {
        ClockOp::Increment { frames } => frames,
        ClockOp::SetTempo { .. } => 0,
    }
}

/// The total frames contributed by a sequence of operations.
pub open spec fn frames_sum(ops: Seq<ClockOp>) -> nat
    decreases ops.len(),
{
    if ops.len() == 0 {
        0
    } else {
        op_frames(ops[0]) + frames_sum(ops.skip(1))
    }
}

/// The beat numerator contributed by a sequence of operations when the tempo
/// in force before the first of them is `tempo`: the sum over each increment
/// of `tempo_at_that_increment * frames`, where a tempo change applies to the
/// increments after it and to none before.
pub open spec fn beat_sum(tempo: nat, ops: Seq<ClockOp>) -> nat
    decreases ops.len(),
{
    if ops.len() == 0 {
        0
    } else {
        match ops[0] {
            ClockOp::Increment { frames } => tempo * frames + beat_sum(tempo, ops.skip(1)),
            ClockOp::SetTempo { millibpm } => beat_sum(millibpm, ops.skip(1)),
        }
    }
}

/// After any sequence of operations the frame counter has advanced by exactly
/// the sum of the increments' frame arguments; tempo changes never move it.
pub proof fn lemma_frames_after_ops(m: ClockModel, ops: Seq<ClockOp>)
    ensures
        apply_ops(m, ops).frames == m.frames + frames_sum(ops),
    decreases ops.len(),
{
    if ops.len() != 0 {
        lemma_frames_after_ops(apply_op(m, ops[0]), ops.skip(1));
    }
}

/// After any sequence of operations the beat numerator has advanced by the sum
/// over each increment of `tempo_at_that_increment * frames`. Over the fixed
/// denominator `60_000 * rate`, that numerator is the sum over each increment
/// of `(tempo / 60_000) * frames / rate` beats: each increment is weighted by
/// the tempo in force when it happened.
pub proof fn lemma_beat_after_ops(m: ClockModel, ops: Seq<ClockOp>)
    ensures
        apply_ops(m, ops).beat_num == m.beat_num + beat_sum(m.tempo, ops),
    decreases ops.len(),
{
    if ops.len() != 0 {
        lemma_beat_after_ops(apply_op(m, ops[0]), ops.skip(1));
    }
}

/// An increment leaves the tempo (and with it the beat duration derived from
/// it) and the sample rate untouched, whatever the frame position is.
pub proof fn lemma_increment_keeps_tempo(m: ClockModel, frames: nat)
    ensures
        apply_op(m, ClockOp::Increment { frames }).tempo == m.tempo,
        apply_op(m, ClockOp::Increment { frames }).rate == m.rate,
{
}

/// A tempo change alters neither the frame counter nor the beat position at
/// the moment of the change: it only sets the tempo that weights the
/// increments that come after it.
pub proof fn lemma_set_tempo_keeps_position(m: ClockModel, millibpm: nat)
    ensures
        apply_op(m, ClockOp::SetTempo { millibpm }).frames == m.frames,
        apply_op(m, ClockOp::SetTempo { millibpm }).beat_num == m.beat_num,
        apply_op(m, ClockOp::SetTempo { millibpm }).rate == m.rate,
        apply_op(m, ClockOp::SetTempo { millibpm }).tempo == millibpm,
{
}

} // verus!
