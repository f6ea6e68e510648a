//! A fixed-point ADSR amplitude envelope. Times are in microseconds and
//! amplitudes in millionths of full scale, so the attack/decay/release ramps
//! are exact integer arithmetic: the amplitude during the attack is
//! `lifetime / attack_time` of the start amplitude, the decay ramps linearly
//! from the start amplitude to the sustain level, the sustain holds, and
//! after note-off the release ramps the held level linearly down to zero.
//! Amplitudes at or below the cutoff (0.01 of full scale) are clamped to
//! silence.

use vstd::arithmetic::div_mod::{
    lemma_div_nonincreasing, lemma_div_pos_is_pos, lemma_multiply_divide_le,
};
use vstd::arithmetic::mul::{
    lemma_mul_inequality, lemma_mul_is_commutative, lemma_mul_nonnegative, lemma_mul_upper_bound,
};
use vstd::prelude::*;

verus! {

/// One second, in envelope time units (microseconds).
pub const TIME_UNITS_PER_SECOND: i64 = 1000000;

/// Full amplitude, in millionths.
pub const AMP_SCALE: i64 = 1000000;

/// Amplitudes at or below this (0.01 of full scale) are silence.
pub const AMP_CUTOFF: i64 = 10000;

/// The largest supported time, about 12 days in microseconds: products of a
/// time and an amplitude stay well inside `i64`.
pub const MAX_TIME: i64 = 0x100_0000_0000;

#[derive(Clone, Copy, PartialEq, Eq, Structural, Debug)]
pub struct EnvelopeASDR {
    /// Length of the attack ramp, microseconds.
    pub attack_time: i64,
    /// Length of the decay ramp, microseconds.
    pub decay_time: i64,
    /// Held amplitude after the decay, millionths.
    pub sustain_amp: i64,
    /// Length of the release ramp, microseconds.
    pub release_time: i64,
    /// Amplitude the attack ramps up to, millionths.
    pub start_amplitude: i64,
    /// When the note last went on, microseconds.
    pub trigger_on_time: i64,
    /// When the note last went off, microseconds.
    pub trigger_off_time: i64,
    pub note_on: bool,
}

impl EnvelopeASDR {
    /// Ramp lengths are positive and bounded; amplitudes and trigger times
    /// are in range.
    pub open spec fn wf(self) -> bool {
        &&& 1 <= self.attack_time <= MAX_TIME
        &&& 1 <= self.decay_time <= MAX_TIME
        &&& 1 <= self.release_time <= MAX_TIME
        &&& 0 <= self.sustain_amp <= AMP_SCALE
        &&& 0 <= self.start_amplitude <= AMP_SCALE
        &&& 0 <= self.trigger_on_time <= MAX_TIME
        &&& 0 <= self.trigger_off_time <= MAX_TIME
    }

    /// The attack-decay-sustain shape, `lifetime` after the note went on:
    /// a linear ramp to the start amplitude over the attack, a linear ramp
    /// from start to sustain over the decay, then the sustain level held.
    pub open spec fn ramp_amplitude(self, lifetime: int) -> int {
        if lifetime <= self.attack_time {
            lifetime * (self.start_amplitude as int) / (self.attack_time as int)
        } else if lifetime <= self.attack_time + self.decay_time {
            if self.sustain_amp >= self.start_amplitude {
                self.start_amplitude + (lifetime - self.attack_time) * (self.sustain_amp
                    - self.start_amplitude) / (self.decay_time as int)
            } else {
                self.start_amplitude - (lifetime - self.attack_time) * (self.start_amplitude
                    - self.sustain_amp) / (self.decay_time as int)
            }
        } else {
            self.sustain_amp as int
        }
    }

    /// The envelope value before the silence cutoff: the ADS shape while the
    /// note is on; after note-off, the level the shape had reached when the
    /// note went off, ramped linearly down over the release time (and on
    /// below zero once the release has run out).
    pub open spec fn raw_amplitude(self, time: int) -> int {
        if self.note_on {
            self.ramp_amplitude(time - self.trigger_on_time)
        } else {
            let held = self.ramp_amplitude(self.trigger_off_time - self.trigger_on_time);
            held - (time - self.trigger_off_time) * held / (self.release_time as int)
        }
    }

    /// The envelope value: the raw amplitude, clamped to silence at or below
    /// the cutoff.
    pub open spec fn amplitude_spec(self, time: int) -> int {
        if self.raw_amplitude(time) <= AMP_CUTOFF {
            0
        } else {
            self.raw_amplitude(time)
        }
    }

    /// The defaults: 0.1 s attack, 0.1 s decay, 0.5 sustain, 0.1 s release,
    /// 0.5 start amplitude, note off.
    pub fn new() -> (env: EnvelopeASDR)
        ensures
            env == (EnvelopeASDR {
                attack_time: 100000,
                decay_time: 100000,
                sustain_amp: 500000,
                release_time: 100000,
                start_amplitude: 500000,
                trigger_on_time: 0,
                trigger_off_time: 0,
                note_on: false,
            }),
            env.wf(),
    {
        EnvelopeASDR {
            attack_time: 100000,
            decay_time: 100000,
            sustain_amp: 500000,
            release_time: 100000,
            start_amplitude: 500000,
            trigger_on_time: 0,
            trigger_off_time: 0,
            note_on: false,
        }
    }

    pub open spec fn note_on_spec(self, time_on: i64) -> EnvelopeASDR {
        if !self.note_on {
            EnvelopeASDR { trigger_on_time: time_on, note_on: true, ..self }
        } else {
            self
        }
    }

    /// Starts the note: records the trigger time and latches on; a note
    /// already on stays as it was.
    pub fn note_on(&mut self, time_on: i64)
        ensures
            *final(self) == old(self).note_on_spec(time_on),
    {
        if !self.note_on {
            self.trigger_on_time = time_on;
            self.note_on = true;
        }
    }

    pub open spec fn note_off_spec(self, time_off: i64) -> EnvelopeASDR {
        EnvelopeASDR { trigger_off_time: time_off, note_on: false, ..self }
    }

    /// Ends the note: records the trigger time and latches off.
    pub fn note_off(&mut self, time_off: i64)
        ensures
            *final(self) == old(self).note_off_spec(time_off),
    {
        self.trigger_off_time = time_off;
        self.note_on = false;
    }

    /// The envelope amplitude at `time`, in millionths of full scale. The
    /// clock is monotonic: `time` is never before the trigger the envelope
    /// last recorded.
    pub fn get_amplitude(&self, time: i64) -> (amp: i64)
        requires
            self.wf(),
            0 <= time <= MAX_TIME,
            self.note_on ==> self.trigger_on_time <= time,
            !self.note_on ==> self.trigger_on_time <= self.trigger_off_time <= time,
        ensures
            amp == self.amplitude_spec(time as int),
            0 <= amp <= AMP_SCALE,
    {
        let raw: i64 = if self.note_on {
            self.ramp(time - self.trigger_on_time)
        } else {
            let held = self.ramp(self.trigger_off_time - self.trigger_on_time);
            let elapsed = time - self.trigger_off_time;
            proof {
                lemma_mul_nonnegative(elapsed as int, held as int);
                lemma_div_pos_is_pos(elapsed as int * held as int, self.release_time as int);
                lemma_mul_upper_bound(elapsed as int, MAX_TIME as int, held as int, AMP_SCALE as int);
                lemma_div_nonincreasing(elapsed as int * held as int, self.release_time as int);
            }
            held - (elapsed * held) / self.release_time
        };
        if raw <= AMP_CUTOFF {
            0
        } else {
            raw
        }
    }

    /// The attack-decay-sustain shape at a nonnegative `lifetime`.
    fn ramp(&self, lifetime: i64) -> (amp: i64)
        requires
            self.wf(),
            0 <= lifetime <= 2 * MAX_TIME,
        ensures
            amp == self.ramp_amplitude(lifetime as int),
            0 <= amp <= AMP_SCALE,
    {
        if lifetime <= self.attack_time {
            proof {
                lemma_mul_upper_bound(
                    lifetime as int,
                    MAX_TIME as int,
                    self.start_amplitude as int,
                    AMP_SCALE as int,
                );
                lemma_mul_nonnegative(lifetime as int, self.start_amplitude as int);
                lemma_scaled_ratio_bounds(
                    lifetime as int,
                    self.start_amplitude as int,
                    self.attack_time as int,
                );
            }
            (lifetime * self.start_amplitude) / self.attack_time
        } else if lifetime <= self.attack_time + self.decay_time {
            let into_decay = lifetime - self.attack_time;
            if self.sustain_amp >= self.start_amplitude {
                proof {
                    lemma_mul_upper_bound(
                        into_decay as int,
                        MAX_TIME as int,
                        self.sustain_amp - self.start_amplitude,
                        AMP_SCALE as int,
                    );
                    lemma_mul_nonnegative(into_decay as int, self.sustain_amp - self.start_amplitude);
                    lemma_scaled_ratio_bounds(
                        into_decay as int,
                        self.sustain_amp - self.start_amplitude,
                        self.decay_time as int,
                    );
                }
                self.start_amplitude + (into_decay * (self.sustain_amp - self.start_amplitude))
                    / self.decay_time
            } else {
                proof {
                    lemma_mul_upper_bound(
                        into_decay as int,
                        MAX_TIME as int,
                        self.start_amplitude - self.sustain_amp,
                        AMP_SCALE as int,
                    );
                    lemma_mul_nonnegative(into_decay as int, self.start_amplitude - self.sustain_amp);
                    lemma_scaled_ratio_bounds(
                        into_decay as int,
                        self.start_amplitude - self.sustain_amp,
                        self.decay_time as int,
                    );
                }
                self.start_amplitude - (into_decay * (self.start_amplitude - self.sustain_amp))
                    / self.decay_time
            }
        } else {
            self.sustain_amp
        }
    }
}

/// For `0 <= x <= c` and `0 <= b`, the scaled ratio `x * b / c` lies between
/// 0 and `b`.
proof fn lemma_scaled_ratio_bounds(x: int, b: int, c: int)
    requires
        0 <= x <= c,
        0 <= b,
        0 < c,
    ensures
        0 <= x * b / c <= b,
{
    lemma_mul_nonnegative(x, b);
    lemma_div_pos_is_pos(x * b, c);
    lemma_mul_inequality(x, c, b);
    lemma_mul_is_commutative(c, b);
    lemma_multiply_divide_le(x * b, c, b);
}

} // verus!
