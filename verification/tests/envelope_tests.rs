use uicore::envelope::{EnvelopeASDR, AMP_SCALE, MAX_TIME};
use uicore::synth::{ControlQueue, Message, SynthParams};

#[test]
fn attack_ramps_linearly_from_note_on() {
    // attack 0.1 s, decay 0.1 s, sustain 0.5, release 0.1 s; note-on at t=0:
    // at t=0.05 s the amplitude is 0.05/0.1 of the start amplitude 0.5, so
    // 0.25 of full scale.
    let mut env = EnvelopeASDR::new();
    env.note_on(0);
    assert_eq!(env.get_amplitude(50_000), 250_000);
}

#[test]
fn sustain_holds_after_attack_and_decay() {
    // Past attack + decay (t > 0.2 s) the amplitude holds at the sustain
    // level 0.5 until note-off.
    let mut env = EnvelopeASDR::new();
    env.note_on(0);
    assert_eq!(env.get_amplitude(250_000), 500_000);
    assert_eq!(env.get_amplitude(1_000_000), 500_000);
    assert_eq!(env.get_amplitude(MAX_TIME), 500_000);
}

#[test]
fn decay_ramps_between_start_and_sustain() {
    let mut env = EnvelopeASDR::new();
    env.start_amplitude = 800_000;
    env.note_on(0);
    // Halfway into the decay: 0.8 + 0.5 * (0.5 - 0.8) = 0.65.
    assert_eq!(env.get_amplitude(150_000), 650_000);
}

#[test]
fn release_ramps_down_from_the_held_level() {
    let mut env = EnvelopeASDR::new();
    env.note_on(0);
    env.note_off(300_000);
    // Held level at note-off is the sustain 0.5; halfway through the 0.1 s
    // release it is 0.25.
    assert_eq!(env.get_amplitude(350_000), 250_000);
    // After the release has run out the amplitude is silence.
    assert_eq!(env.get_amplitude(500_000), 0);
}

#[test]
fn amplitudes_at_or_below_the_cutoff_are_silence() {
    let mut env = EnvelopeASDR::new();
    env.note_on(0);
    // 0.002 of the way into the attack: 0.001 of full scale, below the 0.01
    // cutoff.
    assert_eq!(env.get_amplitude(200), 0);
}

#[test]
fn note_on_keeps_the_first_trigger_while_held() {
    let mut env = EnvelopeASDR::new();
    env.note_on(1_000);
    env.note_on(50_000);
    assert_eq!(env.trigger_on_time, 1_000);
    assert!(env.note_on);
    env.note_off(60_000);
    assert_eq!(env.trigger_off_time, 60_000);
    assert!(!env.note_on);
    env.note_on(70_000);
    assert_eq!(env.trigger_on_time, 70_000);
}

#[test]
fn messages_drive_the_synth_parameters() {
    let mut params = SynthParams::new();
    let msgs = vec![
        Message::Note(220_000),
        Message::CarrierFrequency(880_000),
        Message::ModulationFrequency(5_000),
        Message::ModulationAmplitude(300_000),
        Message::Attack(200_000),
        Message::Decay(50_000),
        Message::Sustain(700_000),
        Message::Release(150_000),
        Message::Key(true),
    ];
    params.apply_all(&msgs, 1_000);
    assert_eq!(params.base_freq, 220_000);
    assert_eq!(params.carrier_freq, 880_000);
    assert_eq!(params.mod_freq, 5_000);
    assert_eq!(params.mod_amp, 300_000);
    assert_eq!(params.envelope.attack_time, 200_000);
    assert_eq!(params.envelope.decay_time, 50_000);
    assert_eq!(params.envelope.sustain_amp, 700_000);
    assert_eq!(params.envelope.release_time, 150_000);
    assert!(params.envelope.note_on);
    assert_eq!(params.envelope.trigger_on_time, 1_000);
}

#[test]
fn later_messages_overwrite_earlier_ones() {
    let mut params = SynthParams::new();
    let msgs = vec![Message::CarrierFrequency(100), Message::CarrierFrequency(200)];
    params.apply_all(&msgs, 0);
    assert_eq!(params.carrier_freq, 200);
}

#[test]
fn key_up_releases_the_note() {
    let mut params = SynthParams::new();
    params.apply_message(Message::Key(true), 500);
    params.apply_message(Message::Key(false), 900);
    assert!(!params.envelope.note_on);
    assert_eq!(params.envelope.trigger_off_time, 900);
}

#[test]
fn full_control_queue_drops_and_counts() {
    let mut q = ControlQueue::new(2);
    assert!(q.send(Message::Key(true)));
    assert!(q.send(Message::Note(110_000)));
    assert!(!q.send(Message::Note(220_000)));
    assert_eq!(q.len(), 2);
    assert_eq!(q.dropped_count(), 1);
    let drained = q.drain();
    assert_eq!(drained, vec![Message::Key(true), Message::Note(110_000)]);
    assert_eq!(q.len(), 0);
    assert_eq!(q.dropped_count(), 1);
    assert!(q.send(Message::Note(220_000)));
    assert_eq!(q.len(), 1);
}

#[test]
fn envelope_default_is_in_scale() {
    let env = EnvelopeASDR::new();
    assert_eq!(env.attack_time, 100_000);
    assert_eq!(env.decay_time, 100_000);
    assert_eq!(env.sustain_amp, AMP_SCALE / 2);
    assert_eq!(env.release_time, 100_000);
    assert_eq!(env.start_amplitude, AMP_SCALE / 2);
    assert!(!env.note_on);
}
