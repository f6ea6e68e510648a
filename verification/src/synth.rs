//! The control-message protocol between the GUI and the synthesizer: a closed
//! set of fire-and-forget messages, a bounded queue with an explicit
//! backpressure policy (drop the newest message and count it, never block and
//! never crash), and the synthesizer-side parameter state that drains all
//! pending messages before each buffer.
//!
//! Frequencies are in millihertz, times in microseconds, amplitudes in
//! millionths, as in the envelope.

use vstd::prelude::*;

use crate::envelope::{EnvelopeASDR, AMP_SCALE, MAX_TIME};

verus! {

/// A control message from the GUI to the synthesizer.
#[derive(Clone, Copy, PartialEq, Eq, Structural, Debug)]
pub enum Message {
    /// The note's base frequency, millihertz.
    Note(i64),
    /// Key down (true) or up (false).
    Key(bool),
    /// Carrier frequency, millihertz.
    CarrierFrequency(i64),
    /// Modulation frequency, millihertz.
    ModulationFrequency(i64),
    /// Modulation amplitude, millionths.
    ModulationAmplitude(i64),
    /// Envelope attack time, microseconds.
    Attack(i64),
    /// Envelope sustain level, millionths.
    Sustain(i64),
    /// Envelope decay time, microseconds.
    Decay(i64),
    /// Envelope release time, microseconds.
    Release(i64),
}

/// A message whose payload the synthesizer state can absorb: envelope times
/// positive and bounded, levels in scale.
pub open spec fn message_wf(m: Message) -> bool {
    match m {
        Message::Attack(v) => 1 <= v <= MAX_TIME,
        Message::Decay(v) => 1 <= v <= MAX_TIME,
        Message::Release(v) => 1 <= v <= MAX_TIME,
        Message::Sustain(v) => 0 <= v <= AMP_SCALE,
        _ => true,
    }
}

/// The parameters the synthesizer runs on, updated from drained control
/// messages before each buffer.
#[derive(Clone, Copy, PartialEq, Eq, Structural, Debug)]
pub struct SynthParams {
    /// Note base frequency, millihertz.
    pub base_freq: i64,
    /// Carrier frequency, millihertz.
    pub carrier_freq: i64,
    /// Modulation frequency, millihertz.
    pub mod_freq: i64,
    /// Modulation amplitude, millionths.
    pub mod_amp: i64,
    pub envelope: EnvelopeASDR,
}

impl SynthParams {
    pub open spec fn wf(self) -> bool {
        self.envelope.wf()
    }

    /// One message applied: key state drives the envelope's note at the given
    /// time, every other message overwrites the parameter it names.
    pub open spec fn apply_spec(self, m: Message, time: i64) -> SynthParams {
        match m {
            Message::Note(v) => SynthParams { base_freq: v, ..self },
            Message::Key(down) => if down {
                SynthParams { envelope: self.envelope.note_on_spec(time), ..self }
            } else {
                SynthParams { envelope: self.envelope.note_off_spec(time), ..self }
            },
            Message::CarrierFrequency(v) => SynthParams { carrier_freq: v, ..self },
            Message::ModulationFrequency(v) => SynthParams { mod_freq: v, ..self },
            Message::ModulationAmplitude(v) => SynthParams { mod_amp: v, ..self },
            Message::Attack(v) => SynthParams {
                envelope: EnvelopeASDR { attack_time: v, ..self.envelope },
                ..self
            },
            Message::Sustain(v) => SynthParams {
                envelope: EnvelopeASDR { sustain_amp: v, ..self.envelope },
                ..self
            },
            Message::Decay(v) => SynthParams {
                envelope: EnvelopeASDR { decay_time: v, ..self.envelope },
                ..self
            },
            Message::Release(v) => SynthParams {
                envelope: EnvelopeASDR { release_time: v, ..self.envelope },
                ..self
            },
        }
    }

    /// All messages applied, first to last.
    pub open spec fn apply_all_spec(self, msgs: Seq<Message>, time: i64) -> SynthParams
        decreases msgs.len(),
    {
        if msgs.len() == 0 {
            self
        } else {
            self.apply_spec(msgs[0], time).apply_all_spec(msgs.skip(1), time)
        }
    }

    /// The defaults the synthesizer starts with: a 110 Hz note, 440 Hz
    /// carrier, no modulation, the default envelope.
    pub fn new() -> (p: SynthParams)
        ensures
            p == (SynthParams {
                base_freq: 110000,
                carrier_freq: 440000,
                mod_freq: 0,
                mod_amp: AMP_SCALE as i64,
                envelope: (EnvelopeASDR {
                    attack_time: 100000,
                    decay_time: 100000,
                    sustain_amp: 500000,
                    release_time: 100000,
                    start_amplitude: 500000,
                    trigger_on_time: 0,
                    trigger_off_time: 0,
                    note_on: false,
                }),
            }),
            p.wf(),
    {
        SynthParams {
            base_freq: 110000,
            carrier_freq: 440000,
            mod_freq: 0,
            mod_amp: AMP_SCALE,
            envelope: EnvelopeASDR::new(),
        }
    }

    /// Applies one control message at the given time.
    pub fn apply_message(&mut self, m: Message, time: i64)
        requires
            old(self).wf(),
            message_wf(m),
            0 <= time <= MAX_TIME,
        ensures
            *final(self) == old(self).apply_spec(m, time),
            final(self).wf(),
    {
        match m {
            Message::Note(v) => {
                self.base_freq = v;
            },
            Message::Key(down) => {
                if down {
                    self.envelope.note_on(time);
                } else {
                    self.envelope.note_off(time);
                }
            },
            Message::CarrierFrequency(v) => {
                self.carrier_freq = v;
            },
            Message::ModulationFrequency(v) => {
                self.mod_freq = v;
            },
            Message::ModulationAmplitude(v) => {
                self.mod_amp = v;
            },
            Message::Attack(v) => {
                self.envelope.attack_time = v;
            },
            Message::Sustain(v) => {
                self.envelope.sustain_amp = v;
            },
            Message::Decay(v) => {
                self.envelope.decay_time = v;
            },
            Message::Release(v) => {
                self.envelope.release_time = v;
            },
        }
    }

    /// Applies every drained message in order, as the synthesizer does at the
    /// start of each buffer.
    pub fn apply_all(&mut self, msgs: &Vec<Message>, time: i64)
        requires
            old(self).wf(),
            forall|i: int| 0 <= i < msgs@.len() ==> message_wf(msgs@[i]),
            0 <= time <= MAX_TIME,
        ensures
            *final(self) == old(self).apply_all_spec(msgs@, time),
            final(self).wf(),
    {
        let n = msgs.len();
        let mut i: usize = 0;
        proof {
            assert(msgs@.skip(0) =~= msgs@);
        }
        while i < n
            invariant
                i <= n,
                n == msgs@.len(),
                self.wf(),
                forall|j: int| 0 <= j < msgs@.len() ==> message_wf(msgs@[j]),
                old(self).apply_all_spec(msgs@, time) == self.apply_all_spec(
                    msgs@.skip(i as int),
                    time,
                ),
                0 <= time <= MAX_TIME,
            decreases n - i,
        {
            let ghost pre = *self;
            self.apply_message(msgs[i], time);
            proof {
                assert(msgs@.skip(i as int)[0] == msgs@[i as int]);
                assert(msgs@.skip(i as int).skip(1) =~= msgs@.skip(i as int + 1));
                assert(pre.apply_all_spec(msgs@.skip(i as int), time) == self.apply_all_spec(
                    msgs@.skip(i as int + 1),
                    time,
                ));
            }
            i = i + 1;
        }
        proof {
            assert(msgs@.skip(n as int) =~= Seq::<Message>::empty());
        }
    }
}

/// The bounded control queue between the GUI and the synthesizer, with the
/// explicit backpressure policy: a send to a full queue drops the new message
/// and counts it, rather than blocking or crashing.
pub struct ControlQueue {
    msgs: Vec<Message>,
    capacity: usize,
    dropped: u64,
}

impl View for ControlQueue {
    type V = Seq<Message>;

    closed spec fn view(&self) -> Seq<Message> {
        self.msgs@
    }
}

impl ControlQueue {
    pub closed spec fn capacity_spec(&self) -> usize {
        self.capacity
    }

    pub closed spec fn dropped_spec(&self) -> u64 {
        self.dropped
    }

    pub fn new(capacity: usize) -> (q: ControlQueue)
        ensures
            q@ == Seq::<Message>::empty(),
            q.capacity_spec() == capacity,
            q.dropped_spec() == 0,
    {
        let q = ControlQueue { msgs: Vec::new(), capacity, dropped: 0 };
        proof {
            assert(q@ =~= Seq::<Message>::empty());
        }
        q
    }

    pub fn len(&self) -> (n: usize)
        ensures
            n == self@.len(),
    {
        self.msgs.len()
    }

    pub fn capacity(&self) -> (n: usize)
        ensures
            n == self.capacity_spec(),
    {
        self.capacity
    }

    /// How many messages full-queue sends have dropped.
    pub fn dropped_count(&self) -> (n: u64)
        ensures
            n == self.dropped_spec(),
    {
        self.dropped
    }

    /// Offers a message: appended when there is room; dropped and counted
    /// when the queue is full. Never blocks, never fails.
    pub fn send(&mut self, m: Message) -> (accepted: bool)
        ensures
            accepted == (old(self)@.len() < old(self).capacity_spec()),
            final(self)@ == (if accepted {
                old(self)@.push(m)
            } else {
                old(self)@
            }),
            final(self).capacity_spec() == old(self).capacity_spec(),
            final(self).dropped_spec() == (if accepted {
                old(self).dropped_spec()
            } else if old(self).dropped_spec() < u64::MAX {
                (old(self).dropped_spec() + 1) as u64
            } else {
                old(self).dropped_spec()
            }),
    {
        if self.msgs.len() < self.capacity {
            self.msgs.push(m);
            true
        } else {
            if self.dropped < u64::MAX {
                self.dropped = self.dropped + 1;
            }
            false
        }
    }

    /// Takes every pending message, in order; the queue is empty afterwards.
    pub fn drain(&mut self) -> (msgs: Vec<Message>)
        ensures
            msgs@ == old(self)@,
            final(self)@ == Seq::<Message>::empty(),
            final(self).capacity_spec() == old(self).capacity_spec(),
            final(self).dropped_spec() == old(self).dropped_spec(),
    {
        let mut out: Vec<Message> = Vec::new();
        core::mem::swap(&mut out, &mut self.msgs);
        proof {
            assert(self@ =~= Seq::<Message>::empty());
        }
        out
    }
}

} // verus!
