//! The GUI-side control logic of the synthesizer example: which control
//! messages a key press or a slider change produces, and the scope geometry
//! that draws the envelope shape. The host sends the returned messages over
//! the control queue and hands the returned points to the canvas.

use vstd::prelude::*;

use crate::entity::Entity;
use crate::envelope::AMP_SCALE;
use crate::events::KeyCode;
use crate::input::Point;
use crate::synth::Message;

verus! {

/// The note frequency a key plays, in millihertz: an octave of semitone
/// steps up from 110 Hz on the Z..M row.
pub open spec fn note_for_key_spec(key: KeyCode) -> Option<i64> {
    match key {
        KeyCode::Z => Some(110000),
        KeyCode::S => Some(116540),
        KeyCode::X => Some(123470),
        KeyCode::D => Some(130810),
        KeyCode::C => Some(138590),
        KeyCode::F => Some(146830),
        KeyCode::V => Some(155560),
        KeyCode::G => Some(164810),
        KeyCode::B => Some(174610),
        KeyCode::H => Some(185000),
        KeyCode::N => Some(196000),
        KeyCode::J => Some(207650),
        KeyCode::M => Some(220000),
        _ => None,
    }
}

#[verifier::when_used_as_spec(note_for_key_spec)]
pub fn note_for_key(key: KeyCode) -> (r: Option<i64>)
    ensures
        r == note_for_key_spec(key),
{
    match key {
        KeyCode::Z => Some(110000),
        KeyCode::S => Some(116540),
        KeyCode::X => Some(123470),
        KeyCode::D => Some(130810),
        KeyCode::C => Some(138590),
        KeyCode::F => Some(146830),
        KeyCode::V => Some(155560),
        KeyCode::G => Some(164810),
        KeyCode::B => Some(174610),
        KeyCode::H => Some(185000),
        KeyCode::N => Some(196000),
        KeyCode::J => Some(207650),
        KeyCode::M => Some(220000),
        _ => None,
    }
}

/// What a key event sends: a press sends the key-down state and, for a note
/// key, the note's frequency; a release sends the key-up state alone.
pub open spec fn key_messages_spec(key: KeyCode, pressed: bool) -> Seq<Message> {
    if pressed {
        match note_for_key_spec(key) {
            Some(freq) => seq![Message::Key(true), Message::Note(freq)],
            None => seq![Message::Key(true)],
        }
    } else {
        seq![Message::Key(false)]
    }
}

/// The control messages a key-down or key-up produces.
pub fn key_messages(key: KeyCode, pressed: bool) -> (r: Vec<Message>)
    ensures
        r@ == key_messages_spec(key, pressed),
{
    let mut out: Vec<Message> = Vec::new();
    if pressed {
        out.push(Message::Key(true));
        match note_for_key(key) {
            Some(freq) => {
                out.push(Message::Note(freq));
            },
            None => {},
        }
    } else {
        out.push(Message::Key(false));
    }
    proof {
        assert(out@ =~= key_messages_spec(key, pressed));
    }
    out
}

/// The oscillator panel's knobs: which widget controls which synthesizer
/// parameter.
#[derive(Clone, Copy, PartialEq, Eq, Structural, Debug)]
pub struct SynthControls {
    pub freq_knob: Entity,
    pub modf_knob: Entity,
    pub moda_knob: Entity,
}

/// What a slider change on the oscillator panel sends: one message per knob
/// the changed widget matches, frequency before modulation frequency before
/// modulation amplitude.
pub open spec fn synth_slider_messages(c: SynthControls, target: Entity, value: i64) -> Seq<
    Message,
> {
    let m1: Seq<Message> = if target == c.freq_knob {
        seq![Message::CarrierFrequency(value)]
    } else {
        Seq::empty()
    };
    let m2: Seq<Message> = if target == c.modf_knob {
        seq![Message::ModulationFrequency(value)]
    } else {
        Seq::empty()
    };
    let m3: Seq<Message> = if target == c.moda_knob {
        seq![Message::ModulationAmplitude(value)]
    } else {
        Seq::empty()
    };
    m1 + m2 + m3
}

impl SynthControls {
    pub fn new(freq_knob: Entity, modf_knob: Entity, moda_knob: Entity) -> (r: SynthControls)
        ensures
            r == (SynthControls { freq_knob, modf_knob, moda_knob }),
    {
        SynthControls { freq_knob, modf_knob, moda_knob }
    }

    /// The control messages a slider-value change targeted at `target`
    /// produces.
    pub fn slider_messages(&self, target: Entity, value: i64) -> (r: Vec<Message>)
        ensures
            r@ == synth_slider_messages(*self, target, value),
    {
        let mut out: Vec<Message> = Vec::new();
        if target == self.freq_knob {
            out.push(Message::CarrierFrequency(value));
        }
        if target == self.modf_knob {
            out.push(Message::ModulationFrequency(value));
        }
        if target == self.moda_knob {
            out.push(Message::ModulationAmplitude(value));
        }
        proof {
            assert(out@ =~= synth_slider_messages(*self, target, value));
        }
        out
    }
}

/// The envelope panel: its four knobs and the knob values it mirrors locally
/// for the scope drawing. Knob values are in millionths; the panel leaves the
/// conversion of times to the synthesizer's units to the message receiver's
/// convention set at build time.
#[derive(Clone, Copy, PartialEq, Eq, Structural, Debug)]
pub struct EnvelopePanel {
    pub attack_knob: Entity,
    pub decay_knob: Entity,
    pub sustain_knob: Entity,
    pub release_knob: Entity,
    /// Attack knob value, millionths.
    pub attack: i64,
    /// Decay knob value, millionths.
    pub decay: i64,
    /// Sustain knob value, millionths.
    pub sustain: i64,
    /// Release knob value, millionths.
    pub release: i64,
}

/// What a slider change on the envelope panel sends: one message per knob the
/// changed widget matches, in attack, decay, sustain, release order.
pub open spec fn envelope_slider_messages(p: EnvelopePanel, target: Entity, value: i64) -> Seq<
    Message,
> {
    let m1: Seq<Message> = if target == p.attack_knob {
        seq![Message::Attack(value)]
    } else {
        Seq::empty()
    };
    let m2: Seq<Message> = if target == p.decay_knob {
        seq![Message::Decay(value)]
    } else {
        Seq::empty()
    };
    let m3: Seq<Message> = if target == p.sustain_knob {
        seq![Message::Sustain(value)]
    } else {
        Seq::empty()
    };
    let m4: Seq<Message> = if target == p.release_knob {
        seq![Message::Release(value)]
    } else {
        Seq::empty()
    };
    m1 + m2 + m3 + m4
}

/// The panel's mirrored knob values after a slider change.
pub open spec fn envelope_panel_after(p: EnvelopePanel, target: Entity, value: i64) -> EnvelopePanel {
    let p1 = if target == p.attack_knob {
        EnvelopePanel { attack: value, ..p }
    } else {
        p
    };
    let p2 = if target == p1.decay_knob {
        EnvelopePanel { decay: value, ..p1 }
    } else {
        p1
    };
    let p3 = if target == p2.sustain_knob {
        EnvelopePanel { sustain: value, ..p2 }
    } else {
        p2
    };
    if target == p3.release_knob {
        EnvelopePanel { release: value, ..p3 }
    } else {
        p3
    }
}

impl EnvelopePanel {
    /// A fresh panel over the given knobs, with the knobs' build-time values:
    /// attack 0.1, decay 0.1, sustain 0.5, release 0.1.
    pub fn new(attack_knob: Entity, decay_knob: Entity, sustain_knob: Entity, release_knob: Entity)
        -> (r: EnvelopePanel)
        ensures
            r == (EnvelopePanel {
                attack_knob,
                decay_knob,
                sustain_knob,
                release_knob,
                attack: 100000,
                decay: 100000,
                sustain: 500000,
                release: 100000,
            }),
    {
        EnvelopePanel {
            attack_knob,
            decay_knob,
            sustain_knob,
            release_knob,
            attack: 100000,
            decay: 100000,
            sustain: 500000,
            release: 100000,
        }
    }

    /// Records a slider-value change on this panel and returns the control
    /// messages it sends.
    pub fn on_slider(&mut self, target: Entity, value: i64) -> (r: Vec<Message>)
        ensures
            r@ == envelope_slider_messages(*old(self), target, value),
            *final(self) == envelope_panel_after(*old(self), target, value),
    {
        let mut out: Vec<Message> = Vec::new();
        if target == self.attack_knob {
            self.attack = value;
            out.push(Message::Attack(value));
        }
        if target == self.decay_knob {
            self.decay = value;
            out.push(Message::Decay(value));
        }
        if target == self.sustain_knob {
            self.sustain = value;
            out.push(Message::Sustain(value));
        }
        if target == self.release_knob {
            self.release = value;
            out.push(Message::Release(value));
        }
        proof {
            assert(out@ =~= envelope_slider_messages(*old(self), target, value));
        }
        out
    }
}

/// The five anchor points of the envelope scope drawing, inside a 7-pixel
/// inset: the baseline start, the attack peak, the decay end at the sustain
/// level, the sustain end, and the release end back on the baseline.
#[derive(Clone, Copy, PartialEq, Eq, Structural, Debug)]
pub struct ScopePoints {
    pub start: Point,
    pub attack_peak: Point,
    pub decay_end: Point,
    pub sustain_end: Point,
    pub release_end: Point,
}

/// The largest scope rectangle coordinate, comfortably past any screen.
pub const MAX_DIM: i64 = 0x4000_0000;

/// A quarter of the scope width net of the 14-pixel inset; each of attack,
/// decay and release gets up to one division, and the sustain segment exactly
/// one.
pub open spec fn scope_division(width: i64) -> int {
    if width >= 14 {
        (width - 14) / 4
    } else {
        0
    }
}

/// Where the envelope shape's corners sit in a scope rectangle, for knob
/// values in millionths: the attack peak one division scaled by the attack
/// knob from the start, the decay end after a further scaled division at the
/// sustain height, the sustain segment one full division, the release end a
/// scaled division later on the baseline.
pub open spec fn scope_points_spec(
    posx: i64,
    posy: i64,
    width: i64,
    height: i64,
    p: EnvelopePanel,
) -> ScopePoints {
    let division = scope_division(width);
    let net_height: int = if height >= 14 { height - 14 } else { 0 };
    let attack_pos = division * (p.attack as int) / (AMP_SCALE as int);
    let decay_pos = attack_pos + division * (p.decay as int) / (AMP_SCALE as int);
    let release_pos = decay_pos + division + division * (p.release as int) / (AMP_SCALE as int);
    let sustain_pos = net_height * (AMP_SCALE - p.sustain) / (AMP_SCALE as int);
    ScopePoints {
        start: Point { x: (posx + 7) as i64, y: (posy + height - 7) as i64 },
        attack_peak: Point { x: (posx + attack_pos + 7) as i64, y: (posy + 7) as i64 },
        decay_end: Point { x: (posx + decay_pos + 7) as i64, y: (posy + sustain_pos + 7) as i64 },
        sustain_end: Point {
            x: (posx + decay_pos + 7 + division) as i64,
            y: (posy + sustain_pos + 7) as i64,
        },
        release_end: Point { x: (posx + release_pos + 7) as i64, y: (posy + height - 7) as i64 },
    }
}

/// Computes the scope anchor points for drawing the envelope shape.
pub fn scope_points(posx: i64, posy: i64, width: i64, height: i64, p: &EnvelopePanel) -> (r:
    ScopePoints)
    requires
        0 <= posx <= MAX_DIM,
        0 <= posy <= MAX_DIM,
        0 <= width <= MAX_DIM,
        0 <= height <= MAX_DIM,
        0 <= p.attack <= AMP_SCALE,
        0 <= p.decay <= AMP_SCALE,
        0 <= p.sustain <= AMP_SCALE,
        0 <= p.release <= AMP_SCALE,
    ensures
        r == scope_points_spec(posx, posy, width, height, *p),
{
    let division: i64 = if width >= 14 {
        (width - 14) / 4
    } else {
        0
    };
    let net_height: i64 = if height >= 14 {
        height - 14
    } else {
        0
    };
    proof {
        scaled_fraction_bounds(division as int, p.attack as int);
        scaled_fraction_bounds(division as int, p.decay as int);
        scaled_fraction_bounds(division as int, p.release as int);
        scaled_fraction_bounds(net_height as int, AMP_SCALE - p.sustain);
    }
    let attack_pos = (division * p.attack) / AMP_SCALE;
    let decay_pos = attack_pos + (division * p.decay) / AMP_SCALE;
    let release_pos = decay_pos + division + (division * p.release) / AMP_SCALE;
    let sustain_pos = (net_height * (AMP_SCALE - p.sustain)) / AMP_SCALE;
    ScopePoints {
        start: Point { x: posx + 7, y: posy + height - 7 },
        attack_peak: Point { x: posx + attack_pos + 7, y: posy + 7 },
        decay_end: Point { x: posx + decay_pos + 7, y: posy + sustain_pos + 7 },
        sustain_end: Point { x: posx + decay_pos + 7 + division, y: posy + sustain_pos + 7 },
        release_end: Point { x: posx + release_pos + 7, y: posy + height - 7 },
    }
}

/// For `0 <= base <= MAX_DIM` and a fraction `0 <= frac <= AMP_SCALE`, the
/// scaled value `base * frac / AMP_SCALE` lies between 0 and `base`.
proof fn scaled_fraction_bounds(base: int, frac: int)
    requires
        0 <= base <= MAX_DIM,
        0 <= frac <= AMP_SCALE,
    ensures
        0 <= base * frac <= (MAX_DIM as int) * (AMP_SCALE as int),
        0 <= base * frac / (AMP_SCALE as int) <= base,
{
    vstd::arithmetic::mul::lemma_mul_upper_bound(base, MAX_DIM as int, frac, AMP_SCALE as int);
    vstd::arithmetic::mul::lemma_mul_nonnegative(base, frac);
    vstd::arithmetic::div_mod::lemma_div_pos_is_pos(base * frac, AMP_SCALE as int);
    vstd::arithmetic::mul::lemma_mul_inequality(frac, AMP_SCALE as int, base);
    vstd::arithmetic::mul::lemma_mul_is_commutative(frac, base);
    vstd::arithmetic::mul::lemma_mul_is_commutative(AMP_SCALE as int, base);
    vstd::arithmetic::div_mod::lemma_multiply_divide_le(base * frac, AMP_SCALE as int, base);
}

} // verus!
