//! Putting a preset together from the parameters of a preset file.
//!
//! Each part of the preset is read from the parameters that belong to it,
//! with the synthesizer's own setting standing in for any parameter that is
//! missing or holds no number. What each part becomes is stated of the
//! parameters as the file holds them, by the functions whose names end in
//! `_at`.

use crate::effect::{
    Chorus, Delay, DelayFilterMode, Distortion, EffectType, Equalizer, Filter, FilterEffectMode,
    FilterMode, LoFi, Reverb,
};
use crate::error::DecodeError;
use crate::key::{
    keys_of, lemma_keys_in, lemma_keys_in_bounds, lemma_keys_of, ChorusField, DelayField,
    DistortionField, EffectFilterField, EnvelopeField, EnvelopeSlot, EqualizerField, FilterField,
    Group, LfoField, LoFiField, MatrixField, MatrixSlot, ModulatorField, NoiseField,
    OscillatorField, OscillatorSlot, PairSlot, ParamKey, ReverbField, SettingField, TuningField,
    VibratoField,
};
use crate::model::{
    Envelope, Lfo, MatrixItem, MidiPlayMode, ModulatorEnvelope, Noise, Oscillator, PortamentoMode,
    Preset, PresetView, Ratio, Time, Tuning, Unison, Vibrato,
};
use crate::number::{decimal, negative_decimal, Number};
use crate::param::{views, Param, ParamView, PluginParamTree, TreeView};
use crate::session::{
    i32_at, number_at, number_if_at, same_texts, switch_at, u32_at, unrecognized, Session,
};
use crate::waveform::Waveform;
use vstd::prelude::*;

verus! {

/// The envelope that the synthesizer starts out with in `slot`.
pub open spec fn factory_envelope_value(slot: EnvelopeSlot) -> Envelope {
    match slot {
        EnvelopeSlot::Main => Envelope {
            attack: Time { milliseconds: decimal(2, 0) },
            attack_curve: decimal(7, 2),
            decay: Time { milliseconds: decimal(150, 0) },
            decay_falloff: decimal(7, 2),
            sustain: Ratio { percent: decimal(9, 1) },
            release: Time { milliseconds: decimal(4, 0) },
            release_falloff: decimal(7, 2),
        },
        EnvelopeSlot::Filter => Envelope {
            attack: Time { milliseconds: decimal(2, 0) },
            attack_curve: decimal(7, 2),
            decay: Time { milliseconds: decimal(150, 0) },
            decay_falloff: decimal(7, 2),
            sustain: Ratio { percent: decimal(2, 2) },
            release: Time { milliseconds: decimal(23, 0) },
            release_falloff: decimal(7, 2),
        },
        EnvelopeSlot::Modulator1 => Envelope {
            attack: Time { milliseconds: decimal(1, 0) },
            attack_curve: decimal(7, 2),
            decay: Time { milliseconds: decimal(150, 0) },
            decay_falloff: decimal(7, 2),
            sustain: Ratio { percent: decimal(19, 1) },
            release: Time { milliseconds: decimal(1, 0) },
            release_falloff: decimal(7, 2),
        },
        EnvelopeSlot::Modulator2 => Envelope {
            attack: Time { milliseconds: decimal(1, 0) },
            attack_curve: decimal(7, 2),
            decay: Time { milliseconds: decimal(150, 0) },
            decay_falloff: decimal(7, 2),
            sustain: Ratio { percent: decimal(9, 1) },
            release: Time { milliseconds: decimal(1, 0) },
            release_falloff: decimal(7, 2),
        },
    }
}

/// The envelope that the synthesizer starts out with in `slot`.
#[verifier::when_used_as_spec(factory_envelope_value)]
pub fn factory_envelope(slot: EnvelopeSlot) -> (envelope: Envelope)
    ensures
        envelope == factory_envelope_value(slot),
{
    match slot {
        EnvelopeSlot::Main => Envelope {
            attack: Time { milliseconds: decimal(2, 0) },
            attack_curve: decimal(7, 2),
            decay: Time { milliseconds: decimal(150, 0) },
            decay_falloff: decimal(7, 2),
            sustain: Ratio { percent: decimal(9, 1) },
            release: Time { milliseconds: decimal(4, 0) },
            release_falloff: decimal(7, 2),
        },
        EnvelopeSlot::Filter => Envelope {
            attack: Time { milliseconds: decimal(2, 0) },
            attack_curve: decimal(7, 2),
            decay: Time { milliseconds: decimal(150, 0) },
            decay_falloff: decimal(7, 2),
            sustain: Ratio { percent: decimal(2, 2) },
            release: Time { milliseconds: decimal(23, 0) },
            release_falloff: decimal(7, 2),
        },
        EnvelopeSlot::Modulator1 => Envelope {
            attack: Time { milliseconds: decimal(1, 0) },
            attack_curve: decimal(7, 2),
            decay: Time { milliseconds: decimal(150, 0) },
            decay_falloff: decimal(7, 2),
            sustain: Ratio { percent: decimal(19, 1) },
            release: Time { milliseconds: decimal(1, 0) },
            release_falloff: decimal(7, 2),
        },
        EnvelopeSlot::Modulator2 => Envelope {
            attack: Time { milliseconds: decimal(1, 0) },
            attack_curve: decimal(7, 2),
            decay: Time { milliseconds: decimal(150, 0) },
            decay_falloff: decimal(7, 2),
            sustain: Ratio { percent: decimal(9, 1) },
            release: Time { milliseconds: decimal(1, 0) },
            release_falloff: decimal(7, 2),
        },
    }
}

/// The envelope that marks a filter as having none: times below zero, no
/// sustain, and shapes of minus one.
pub open spec fn absent_envelope_value() -> Envelope {
    Envelope {
        attack: Time { milliseconds: negative_decimal(1010, 0) },
        attack_curve: negative_decimal(1, 0),
        decay: Time { milliseconds: negative_decimal(1100, 0) },
        decay_falloff: negative_decimal(1, 0),
        sustain: Ratio { percent: decimal(0, 0) },
        release: Time { milliseconds: negative_decimal(1100, 0) },
        release_falloff: negative_decimal(1, 0),
    }
}

/// The envelope that marks a filter as having none.
#[verifier::when_used_as_spec(absent_envelope_value)]
pub fn absent_envelope() -> (envelope: Envelope)
    ensures
        envelope == absent_envelope_value(),
{
    Envelope {
        attack: Time { milliseconds: negative_decimal(1010, 0) },
        attack_curve: negative_decimal(1, 0),
        decay: Time { milliseconds: negative_decimal(1100, 0) },
        decay_falloff: negative_decimal(1, 0),
        sustain: Ratio { percent: decimal(0, 0) },
        release: Time { milliseconds: negative_decimal(1100, 0) },
        release_falloff: negative_decimal(1, 0),
    }
}

/// The settings of a preset that belong to no part of it.
#[derive(Copy, Clone, Debug, PartialEq, Eq, Structural)]
pub struct Settings {
    pub master_volume_normalized: Number,
    pub polyphony: u32,
    pub portamento_mode: PortamentoMode,
    pub midi_play_mode: MidiPlayMode,
    pub glide: Number,
    pub velocity_curve: Number,
    pub key_track_curve: Number,
    pub pitch_bend_range: Number,
    pub limit_enabled: bool,
    pub envelope_curve: Number,
    pub filter_envelope_curve: Number,
    pub hard_sync: bool,
}

/// What the parameters say of an envelope.
#[verifier::opaque]
pub open spec fn envelope_at(
    params: Seq<ParamView>,
    slot: EnvelopeSlot,
    default: Envelope,
) -> Envelope {
    Envelope {
        attack: Time {
            milliseconds: number_at(
                params,
                ParamKey::Envelope(slot, EnvelopeField::Attack),
                default.attack.milliseconds,
            ),
        },
        attack_curve: number_at(
            params,
            ParamKey::Envelope(slot, EnvelopeField::AttackCurve),
            default.attack_curve,
        ),
        decay: Time {
            milliseconds: number_at(
                params,
                ParamKey::Envelope(slot, EnvelopeField::Decay),
                default.decay.milliseconds,
            ),
        },
        decay_falloff: number_at(
            params,
            ParamKey::Envelope(slot, EnvelopeField::DecayFalloff),
            default.decay_falloff,
        ),
        sustain: Ratio {
            percent: number_at(
                params,
                ParamKey::Envelope(slot, EnvelopeField::Sustain),
                default.sustain.percent,
            ),
        },
        release: Time {
            milliseconds: number_at(
                params,
                ParamKey::Envelope(slot, EnvelopeField::Release),
                default.release.milliseconds,
            ),
        },
        release_falloff: number_at(
            params,
            ParamKey::Envelope(slot, EnvelopeField::ReleaseFalloff),
            default.release_falloff,
        ),
    }
}

/// Reads an envelope from the parameters that belong to it.
pub fn read_envelope(session: &mut Session, slot: EnvelopeSlot, default: Envelope) -> (r: Envelope)
    requires
        old(session).ready_for(Group::Envelope(slot)),
    ensures
        final(session).follows(*old(session), Group::Envelope(slot)),
        r == envelope_at(old(session).source(), slot, default),
{
    proof {
        reveal(envelope_at);
        lemma_keys_in(session.done());
    }
    let attack = Time {
        milliseconds: session.number(
            ParamKey::Envelope(slot, EnvelopeField::Attack),
            default.attack.milliseconds,
        ),
    };
    let attack_curve = session.number(
        ParamKey::Envelope(slot, EnvelopeField::AttackCurve),
        default.attack_curve,
    );
    let decay = Time {
        milliseconds: session.number(
            ParamKey::Envelope(slot, EnvelopeField::Decay),
            default.decay.milliseconds,
        ),
    };
    let decay_falloff = session.number(
        ParamKey::Envelope(slot, EnvelopeField::DecayFalloff),
        default.decay_falloff,
    );
    let sustain = Ratio {
        percent: session.number(
            ParamKey::Envelope(slot, EnvelopeField::Sustain),
            default.sustain.percent,
        ),
    };
    let release = Time {
        milliseconds: session.number(
            ParamKey::Envelope(slot, EnvelopeField::Release),
            default.release.milliseconds,
        ),
    };
    let release_falloff = session.number(
        ParamKey::Envelope(slot, EnvelopeField::ReleaseFalloff),
        default.release_falloff,
    );
    proof {
        lemma_keys_of(Group::Envelope(slot));
    }
    assert(session.taken() =~= old(session).taken().union(keys_of(Group::Envelope(slot))));
    session.finish(Ghost(Group::Envelope(slot)));
    Envelope {
        attack,
        attack_curve,
        decay,
        decay_falloff,
        sustain,
        release,
        release_falloff,
    }
}

/// What the parameters say of an envelope rests on the texts under the keys
/// alone.
pub proof fn lemma_envelope_rests_on_texts(
    first: Seq<ParamView>,
    second: Seq<ParamView>,
    slot: EnvelopeSlot,
    default: Envelope,
)
    requires
        same_texts(first, second),
    ensures
        envelope_at(first, slot, default) == envelope_at(second, slot, default),
{
    reveal(envelope_at);
}

/// What the parameters say of the tuning.
#[verifier::opaque]
pub open spec fn tuning_at(params: Seq<ParamView>, root_key: u32, scale: u32) -> Tuning {
    Tuning {
        transpose: number_at(params, ParamKey::Tuning(TuningField::Transpose), decimal(0, 0)),
        root_key: root_key,
        scale: scale,
        tunings: [
            number_at(params, ParamKey::Tuning(TuningField::A), decimal(0, 0)),
            number_at(params, ParamKey::Tuning(TuningField::ASharp), decimal(0, 0)),
            number_at(params, ParamKey::Tuning(TuningField::B), decimal(0, 0)),
            number_at(params, ParamKey::Tuning(TuningField::C), decimal(0, 0)),
            number_at(params, ParamKey::Tuning(TuningField::CSharp), decimal(0, 0)),
            number_at(params, ParamKey::Tuning(TuningField::D), decimal(0, 0)),
            number_at(params, ParamKey::Tuning(TuningField::DSharp), decimal(0, 0)),
            number_at(params, ParamKey::Tuning(TuningField::E), decimal(0, 0)),
            number_at(params, ParamKey::Tuning(TuningField::F), decimal(0, 0)),
            number_at(params, ParamKey::Tuning(TuningField::FSharp), decimal(0, 0)),
            number_at(params, ParamKey::Tuning(TuningField::G), decimal(0, 0)),
            number_at(params, ParamKey::Tuning(TuningField::GSharp), decimal(0, 0)),
        ],
    }
}

/// Reads the tuning from the parameters that belong to it.
pub fn read_tuning(session: &mut Session, root_key: u32, scale: u32) -> (r: Tuning)
    requires
        old(session).ready_for(Group::Tuning),
    ensures
        final(session).follows(*old(session), Group::Tuning),
        r == tuning_at(old(session).source(), root_key, scale),
{
    proof {
        reveal(tuning_at);
        lemma_keys_in(session.done());
    }
    let note_a = session.number(ParamKey::Tuning(TuningField::A), decimal(0, 0));
    let note_a_sharp = session.number(ParamKey::Tuning(TuningField::ASharp), decimal(0, 0));
    let note_b = session.number(ParamKey::Tuning(TuningField::B), decimal(0, 0));
    let note_c = session.number(ParamKey::Tuning(TuningField::C), decimal(0, 0));
    let note_c_sharp = session.number(ParamKey::Tuning(TuningField::CSharp), decimal(0, 0));
    let note_d = session.number(ParamKey::Tuning(TuningField::D), decimal(0, 0));
    let note_d_sharp = session.number(ParamKey::Tuning(TuningField::DSharp), decimal(0, 0));
    let note_e = session.number(ParamKey::Tuning(TuningField::E), decimal(0, 0));
    let note_f = session.number(ParamKey::Tuning(TuningField::F), decimal(0, 0));
    let note_f_sharp = session.number(ParamKey::Tuning(TuningField::FSharp), decimal(0, 0));
    let note_g = session.number(ParamKey::Tuning(TuningField::G), decimal(0, 0));
    let note_g_sharp = session.number(ParamKey::Tuning(TuningField::GSharp), decimal(0, 0));
    let transpose = session.number(ParamKey::Tuning(TuningField::Transpose), decimal(0, 0));
    proof {
        lemma_keys_of(Group::Tuning);
    }
    assert(session.taken() =~= old(session).taken().union(keys_of(Group::Tuning)));
    session.finish(Ghost(Group::Tuning));
    Tuning {
        transpose,
        root_key,
        scale,
        tunings: [
            note_a,
            note_a_sharp,
            note_b,
            note_c,
            note_c_sharp,
            note_d,
            note_d_sharp,
            note_e,
            note_f,
            note_f_sharp,
            note_g,
            note_g_sharp,
        ],
    }
}

/// What the parameters say of the tuning rests on the texts under the keys
/// alone.
pub proof fn lemma_tuning_rests_on_texts(
    first: Seq<ParamView>,
    second: Seq<ParamView>,
    root_key: u32,
    scale: u32,
)
    requires
        same_texts(first, second),
    ensures
        tuning_at(first, root_key, scale) == tuning_at(second, root_key, scale),
{
    reveal(tuning_at);
}

/// What the parameters say of the filter.
#[verifier::opaque]
pub open spec fn filter_at(params: Seq<ParamView>, envelope: Envelope) -> Filter {
    Filter {
        enabled: switch_at(params, ParamKey::Filter(FilterField::Switch), false),
        mode: FilterMode::with_number_or(
            u32_at(params, ParamKey::Filter(FilterField::Type), FilterMode::LowPass.discriminant()),
            FilterMode::LowPass,
        ),
        resonance: number_at(params, ParamKey::Filter(FilterField::Resonance), decimal(0, 0)),
        cutoff_frequency: number_at(
            params,
            ParamKey::Filter(FilterField::Cutoff),
            decimal(1, 0),
        ).hundredfold(),
        key_tracking: number_at(params, ParamKey::Filter(FilterField::KeyTracking), decimal(0, 0)),
        envelope: envelope,
        envelope_amount: number_at(
            params,
            ParamKey::Filter(FilterField::EnvelopeAmount),
            decimal(0, 0),
        ),
        effect_mode: FilterEffectMode::with_number_or(
            u32_at(
                params,
                ParamKey::Filter(FilterField::DriveType),
                FilterEffectMode::Off.discriminant(),
            ),
            FilterEffectMode::Off,
        ),
        effect_enabled: switch_at(params, ParamKey::Filter(FilterField::DriveSwitch), false),
        effect_amount: number_at(params, ParamKey::Filter(FilterField::Drive), decimal(5, 1)),
    }
}

/// Reads the filter from the parameters that belong to it.
pub fn read_filter(session: &mut Session, envelope: Envelope) -> (r: Filter)
    requires
        old(session).ready_for(Group::Filter),
    ensures
        final(session).follows(*old(session), Group::Filter),
        r == filter_at(old(session).source(), envelope),
{
    proof {
        reveal(filter_at);
        lemma_keys_in(session.done());
    }
    let enabled = session.switch(ParamKey::Filter(FilterField::Switch), false);
    let mode = FilterMode::from_or(
        session.unsigned(ParamKey::Filter(FilterField::Type), FilterMode::LowPass.code()),
        FilterMode::LowPass,
    );
    let resonance = session.number(ParamKey::Filter(FilterField::Resonance), decimal(0, 0));
    let cutoff_frequency = session.number(
        ParamKey::Filter(FilterField::Cutoff),
        decimal(1, 0),
    ).times_hundred();
    let key_tracking = session.number(ParamKey::Filter(FilterField::KeyTracking), decimal(0, 0));
    let envelope_amount = session.number(
        ParamKey::Filter(FilterField::EnvelopeAmount),
        decimal(0, 0),
    );
    let effect_enabled = session.switch(ParamKey::Filter(FilterField::DriveSwitch), false);
    let effect_mode = FilterEffectMode::from_or(
        session.unsigned(ParamKey::Filter(FilterField::DriveType), FilterEffectMode::Off.code()),
        FilterEffectMode::Off,
    );
    let effect_amount = session.number(ParamKey::Filter(FilterField::Drive), decimal(5, 1));
    proof {
        lemma_keys_of(Group::Filter);
    }
    assert(session.taken() =~= old(session).taken().union(keys_of(Group::Filter)));
    session.finish(Ghost(Group::Filter));
    Filter {
        enabled,
        mode,
        resonance,
        cutoff_frequency,
        key_tracking,
        envelope,
        envelope_amount,
        effect_mode,
        effect_enabled,
        effect_amount,
    }
}

/// What the parameters say of the filter rests on the texts under the keys
/// alone.
pub proof fn lemma_filter_rests_on_texts(
    first: Seq<ParamView>,
    second: Seq<ParamView>,
    envelope: Envelope,
)
    requires
        same_texts(first, second),
    ensures
        filter_at(first, envelope) == filter_at(second, envelope),
{
    reveal(filter_at);
}

/// What the parameters say of an oscillator.
#[verifier::opaque]
pub open spec fn oscillator_at(params: Seq<ParamView>, slot: OscillatorSlot) -> Oscillator {
    Oscillator {
        enabled: switch_at(
            params,
            ParamKey::Oscillator(slot, OscillatorField::Switch),
            slot == OscillatorSlot::First,
        ),
        waveform: Waveform::with_number_or(
            u32_at(
                params,
                ParamKey::Oscillator(slot, OscillatorField::Waveform),
                Waveform::Sine.discriminant(),
            ),
            Waveform::Sine,
        ),
        invert: switch_at(params, ParamKey::Oscillator(slot, OscillatorField::Invert), false),
        pan: number_at(params, ParamKey::Oscillator(slot, OscillatorField::Pan), decimal(5, 1)),
        phase: number_at(params, ParamKey::Oscillator(slot, OscillatorField::Phase), decimal(0, 0)),
        pitch: number_at(params, ParamKey::Oscillator(slot, OscillatorField::Pitch), decimal(0, 0)),
        fine_tuning: i32_at(params, ParamKey::Oscillator(slot, OscillatorField::Fine), 0),
        semitone_tuning: i32_at(params, ParamKey::Oscillator(slot, OscillatorField::Semitone), 0),
        octave_tuning: i32_at(params, ParamKey::Oscillator(slot, OscillatorField::Octave), 0),
        reverse: switch_at(params, ParamKey::Oscillator(slot, OscillatorField::Reverse), false),
        free_run: switch_at(params, ParamKey::Oscillator(slot, OscillatorField::FreeRun), false),
        sync_all: switch_at(params, ParamKey::Oscillator(slot, OscillatorField::SyncAll), false),
        volume: number_at(
            params,
            ParamKey::Oscillator(slot, OscillatorField::Volume),
            decimal(294, 3),
        ),
        unison: Unison {
            voices: u32_at(params, ParamKey::Oscillator(slot, OscillatorField::UnisonVoices), 1),
            detune: number_at(
                params,
                ParamKey::Oscillator(slot, OscillatorField::UnisonDetune),
                decimal(2, 1),
            ),
            spread: number_at(
                params,
                ParamKey::Oscillator(slot, OscillatorField::UnisonSpread),
                decimal(5, 1),
            ),
            mix: number_at(
                params,
                ParamKey::Oscillator(slot, OscillatorField::UnisonMix),
                decimal(1, 0),
            ),
        },
        am_enabled: switch_at(
            params,
            ParamKey::Oscillator(slot, OscillatorField::AmplitudeModulationSwitch),
            false,
        ),
        am_amount: number_at(
            params,
            ParamKey::Oscillator(slot, OscillatorField::AmplitudeModulation),
            decimal(0, 0),
        ),
        fm_enabled: switch_at(
            params,
            ParamKey::Oscillator(slot, OscillatorField::FrequencyModulationSwitch),
            false,
        ),
        fm_amount: number_at(
            params,
            ParamKey::Oscillator(slot, OscillatorField::FrequencyModulation),
            decimal(0, 0),
        ),
        rm_enabled: switch_at(
            params,
            ParamKey::Oscillator(slot, OscillatorField::RingModulationSwitch),
            false,
        ),
        rm_amount: number_at(
            params,
            ParamKey::Oscillator(slot, OscillatorField::RingModulation),
            decimal(0, 0),
        ),
    }
}

/// Reads an oscillator from the parameters that belong to it.
pub fn read_oscillator(session: &mut Session, slot: OscillatorSlot) -> (r: Oscillator)
    requires
        old(session).ready_for(Group::Oscillator(slot)),
    ensures
        final(session).follows(*old(session), Group::Oscillator(slot)),
        r == oscillator_at(old(session).source(), slot),
{
    proof {
        reveal(oscillator_at);
        lemma_keys_in(session.done());
    }
    let enabled = session.switch(
        ParamKey::Oscillator(slot, OscillatorField::Switch),
        slot == OscillatorSlot::First,
    );
    let waveform = Waveform::from_or(
        session.unsigned(
            ParamKey::Oscillator(slot, OscillatorField::Waveform),
            Waveform::Sine.code(),
        ),
        Waveform::Sine,
    );
    let invert = session.switch(ParamKey::Oscillator(slot, OscillatorField::Invert), false);
    let pan = session.number(ParamKey::Oscillator(slot, OscillatorField::Pan), decimal(5, 1));
    let phase = session.number(ParamKey::Oscillator(slot, OscillatorField::Phase), decimal(0, 0));
    let pitch = session.number(ParamKey::Oscillator(slot, OscillatorField::Pitch), decimal(0, 0));
    let fine_tuning = session.signed(ParamKey::Oscillator(slot, OscillatorField::Fine), 0);
    let semitone_tuning = session.signed(ParamKey::Oscillator(slot, OscillatorField::Semitone), 0);
    let octave_tuning = session.signed(ParamKey::Oscillator(slot, OscillatorField::Octave), 0);
    let reverse = session.switch(ParamKey::Oscillator(slot, OscillatorField::Reverse), false);
    let free_run = session.switch(ParamKey::Oscillator(slot, OscillatorField::FreeRun), false);
    let sync_all = session.switch(ParamKey::Oscillator(slot, OscillatorField::SyncAll), false);
    let volume = session.number(
        ParamKey::Oscillator(slot, OscillatorField::Volume),
        decimal(294, 3),
    );
    let voices = session.unsigned(ParamKey::Oscillator(slot, OscillatorField::UnisonVoices), 1);
    let detune = session.number(
        ParamKey::Oscillator(slot, OscillatorField::UnisonDetune),
        decimal(2, 1),
    );
    let spread = session.number(
        ParamKey::Oscillator(slot, OscillatorField::UnisonSpread),
        decimal(5, 1),
    );
    let mix = session.number(ParamKey::Oscillator(slot, OscillatorField::UnisonMix), decimal(1, 0));
    let am_enabled = session.switch(
        ParamKey::Oscillator(slot, OscillatorField::AmplitudeModulationSwitch),
        false,
    );
    let am_amount = session.number(
        ParamKey::Oscillator(slot, OscillatorField::AmplitudeModulation),
        decimal(0, 0),
    );
    let fm_enabled = session.switch(
        ParamKey::Oscillator(slot, OscillatorField::FrequencyModulationSwitch),
        false,
    );
    let fm_amount = session.number(
        ParamKey::Oscillator(slot, OscillatorField::FrequencyModulation),
        decimal(0, 0),
    );
    let rm_enabled = session.switch(
        ParamKey::Oscillator(slot, OscillatorField::RingModulationSwitch),
        false,
    );
    let rm_amount = session.number(
        ParamKey::Oscillator(slot, OscillatorField::RingModulation),
        decimal(0, 0),
    );
    proof {
        lemma_keys_of(Group::Oscillator(slot));
    }
    assert(session.taken() =~= old(session).taken().union(keys_of(Group::Oscillator(slot))));
    session.finish(Ghost(Group::Oscillator(slot)));
    Oscillator {
        enabled,
        waveform,
        invert,
        pan,
        phase,
        pitch,
        fine_tuning,
        semitone_tuning,
        octave_tuning,
        reverse,
        free_run,
        sync_all,
        volume,
        unison: Unison { voices, detune, spread, mix },
        am_enabled,
        am_amount,
        fm_enabled,
        fm_amount,
        rm_enabled,
        rm_amount,
    }
}

/// What the parameters say of an oscillator rests on the texts under the keys
/// alone.
pub proof fn lemma_oscillator_rests_on_texts(
    first: Seq<ParamView>,
    second: Seq<ParamView>,
    slot: OscillatorSlot,
)
    requires
        same_texts(first, second),
    ensures
        oscillator_at(first, slot) == oscillator_at(second, slot),
{
    reveal(oscillator_at);
}

/// What the parameters say of the noise generator.
#[verifier::opaque]
pub open spec fn noise_at(params: Seq<ParamView>) -> Noise {
    Noise {
        enabled: switch_at(params, ParamKey::Noise(NoiseField::Switch), false),
        width: number_at(params, ParamKey::Noise(NoiseField::Width), decimal(1, 0)),
        pan: number_at(params, ParamKey::Noise(NoiseField::Pan), decimal(5, 1)),
        volume: number_at(params, ParamKey::Noise(NoiseField::Volume), decimal(32, 2)),
    }
}

/// Reads the noise generator from the parameters that belong to it.
pub fn read_noise(session: &mut Session) -> (r: Noise)
    requires
        old(session).ready_for(Group::Noise),
    ensures
        final(session).follows(*old(session), Group::Noise),
        r == noise_at(old(session).source()),
{
    proof {
        reveal(noise_at);
        lemma_keys_in(session.done());
    }
    let enabled = session.switch(ParamKey::Noise(NoiseField::Switch), false);
    let width = session.number(ParamKey::Noise(NoiseField::Width), decimal(1, 0));
    let pan = session.number(ParamKey::Noise(NoiseField::Pan), decimal(5, 1));
    let volume = session.number(ParamKey::Noise(NoiseField::Volume), decimal(32, 2));
    proof {
        lemma_keys_of(Group::Noise);
    }
    assert(session.taken() =~= old(session).taken().union(keys_of(Group::Noise)));
    session.finish(Ghost(Group::Noise));
    Noise {
        enabled,
        width,
        pan,
        volume,
    }
}

/// What the parameters say of the noise generator rests on the texts under
/// the keys alone.
pub proof fn lemma_noise_rests_on_texts(
    first: Seq<ParamView>,
    second: Seq<ParamView>,
)
    requires
        same_texts(first, second),
    ensures
        noise_at(first) == noise_at(second),
{
    reveal(noise_at);
}

/// What the parameters say of a low-frequency oscillator.
#[verifier::opaque]
pub open spec fn lfo_at(params: Seq<ParamView>, slot: PairSlot) -> Lfo {
    Lfo {
        enabled: switch_at(params, ParamKey::Lfo(slot, LfoField::Switch), false),
        waveform: Waveform::with_number_or(
            u32_at(params, ParamKey::Lfo(slot, LfoField::Waveform), Waveform::Sine.discriminant()),
            Waveform::Sine,
        ),
        sync: switch_at(params, ParamKey::Lfo(slot, LfoField::Sync), true),
        invert: switch_at(params, ParamKey::Lfo(slot, LfoField::Invert), false),
        reverse: switch_at(params, ParamKey::Lfo(slot, LfoField::Reverse), false),
        mono: switch_at(params, ParamKey::Lfo(slot, LfoField::Mono), false),
        free_run: switch_at(params, ParamKey::Lfo(slot, LfoField::FreeRun), false),
        frequency: number_at(params, ParamKey::Lfo(slot, LfoField::Frequency), decimal(35, 2)),
        phase: number_at(params, ParamKey::Lfo(slot, LfoField::Phase), decimal(0, 0)),
    }
}

/// Reads a low-frequency oscillator from the parameters that belong to it.
pub fn read_lfo(session: &mut Session, slot: PairSlot) -> (r: Lfo)
    requires
        old(session).ready_for(Group::Lfo(slot)),
    ensures
        final(session).follows(*old(session), Group::Lfo(slot)),
        r == lfo_at(old(session).source(), slot),
{
    proof {
        reveal(lfo_at);
        lemma_keys_in(session.done());
    }
    let enabled = session.switch(ParamKey::Lfo(slot, LfoField::Switch), false);
    let waveform = Waveform::from_or(
        session.unsigned(ParamKey::Lfo(slot, LfoField::Waveform), Waveform::Sine.code()),
        Waveform::Sine,
    );
    let sync = session.switch(ParamKey::Lfo(slot, LfoField::Sync), true);
    let invert = session.switch(ParamKey::Lfo(slot, LfoField::Invert), false);
    let reverse = session.switch(ParamKey::Lfo(slot, LfoField::Reverse), false);
    let mono = session.switch(ParamKey::Lfo(slot, LfoField::Mono), false);
    let free_run = session.switch(ParamKey::Lfo(slot, LfoField::FreeRun), false);
    let frequency = session.number(ParamKey::Lfo(slot, LfoField::Frequency), decimal(35, 2));
    let phase = session.number(ParamKey::Lfo(slot, LfoField::Phase), decimal(0, 0));
    proof {
        lemma_keys_of(Group::Lfo(slot));
    }
    assert(session.taken() =~= old(session).taken().union(keys_of(Group::Lfo(slot))));
    session.finish(Ghost(Group::Lfo(slot)));
    Lfo {
        enabled,
        waveform,
        sync,
        invert,
        reverse,
        mono,
        free_run,
        frequency,
        phase,
    }
}

/// What the parameters say of a low-frequency oscillator rests on the texts
/// under the keys alone.
pub proof fn lemma_lfo_rests_on_texts(
    first: Seq<ParamView>,
    second: Seq<ParamView>,
    slot: PairSlot,
)
    requires
        same_texts(first, second),
    ensures
        lfo_at(first, slot) == lfo_at(second, slot),
{
    reveal(lfo_at);
}

/// What the parameters say of a modulator envelope.
#[verifier::opaque]
pub open spec fn modulator_envelope_at(
    params: Seq<ParamView>,
    slot: PairSlot,
    envelope: Envelope,
) -> ModulatorEnvelope {
    ModulatorEnvelope {
        enabled: switch_at(params, ParamKey::Modulator(slot, ModulatorField::Switch), false),
        envelope: envelope,
        curve: number_at(params, ParamKey::Modulator(slot, ModulatorField::Curve), decimal(14, 2)),
    }
}

/// Reads a modulator envelope from the parameters that belong to it.
pub fn read_modulator_envelope(
    session: &mut Session,
    slot: PairSlot,
    envelope: Envelope,
) -> (r: ModulatorEnvelope)
    requires
        old(session).ready_for(Group::Modulator(slot)),
    ensures
        final(session).follows(*old(session), Group::Modulator(slot)),
        r == modulator_envelope_at(old(session).source(), slot, envelope),
{
    proof {
        reveal(modulator_envelope_at);
        lemma_keys_in(session.done());
    }
    let enabled = session.switch(ParamKey::Modulator(slot, ModulatorField::Switch), false);
    let curve = session.number(ParamKey::Modulator(slot, ModulatorField::Curve), decimal(14, 2));
    proof {
        lemma_keys_of(Group::Modulator(slot));
    }
    assert(session.taken() =~= old(session).taken().union(keys_of(Group::Modulator(slot))));
    session.finish(Ghost(Group::Modulator(slot)));
    ModulatorEnvelope {
        enabled,
        envelope,
        curve,
    }
}

/// What the parameters say of a modulator envelope rests on the texts under
/// the keys alone.
pub proof fn lemma_modulator_envelope_rests_on_texts(
    first: Seq<ParamView>,
    second: Seq<ParamView>,
    slot: PairSlot,
    envelope: Envelope,
)
    requires
        same_texts(first, second),
    ensures
        modulator_envelope_at(
            first,
            slot,
            envelope,
        ) == modulator_envelope_at(second, slot, envelope),
{
    reveal(modulator_envelope_at);
}

/// What the parameters say of the vibrato.
#[verifier::opaque]
pub open spec fn vibrato_at(params: Seq<ParamView>) -> Vibrato {
    Vibrato {
        enabled: switch_at(params, ParamKey::Vibrato(VibratoField::Switch), false),
        attack: number_at(params, ParamKey::Vibrato(VibratoField::Attack), decimal(232, 0)),
        delay: number_at(params, ParamKey::Vibrato(VibratoField::Delay), decimal(232, 0)),
        frequency: number_at(params, ParamKey::Vibrato(VibratoField::Frequency), decimal(61, 1)),
    }
}

/// Reads the vibrato from the parameters that belong to it.
pub fn read_vibrato(session: &mut Session) -> (r: Vibrato)
    requires
        old(session).ready_for(Group::Vibrato),
    ensures
        final(session).follows(*old(session), Group::Vibrato),
        r == vibrato_at(old(session).source()),
{
    proof {
        reveal(vibrato_at);
        lemma_keys_in(session.done());
    }
    let enabled = session.switch(ParamKey::Vibrato(VibratoField::Switch), false);
    let attack = session.number(ParamKey::Vibrato(VibratoField::Attack), decimal(232, 0));
    let frequency = session.number(ParamKey::Vibrato(VibratoField::Frequency), decimal(61, 1));
    let delay = session.number(ParamKey::Vibrato(VibratoField::Delay), decimal(232, 0));
    proof {
        lemma_keys_of(Group::Vibrato);
    }
    assert(session.taken() =~= old(session).taken().union(keys_of(Group::Vibrato)));
    session.finish(Ghost(Group::Vibrato));
    Vibrato {
        enabled,
        attack,
        delay,
        frequency,
    }
}

/// What the parameters say of the vibrato rests on the texts under the keys
/// alone.
pub proof fn lemma_vibrato_rests_on_texts(
    first: Seq<ParamView>,
    second: Seq<ParamView>,
)
    requires
        same_texts(first, second),
    ensures
        vibrato_at(first) == vibrato_at(second),
{
    reveal(vibrato_at);
}

/// What the parameters say of a row of the modulation matrix.
#[verifier::opaque]
pub open spec fn matrix_item_at(params: Seq<ParamView>, slot: MatrixSlot) -> MatrixItem {
    MatrixItem {
        source: u32_at(
            params,
            ParamKey::Matrix(slot, MatrixField::Source),
            if slot == MatrixSlot::First { 7 } else { 0 },
        ),
        target: u32_at(
            params,
            ParamKey::Matrix(slot, MatrixField::Target),
            if slot == MatrixSlot::First { 2 } else { 0 },
        ),
        amount: number_at(
            params,
            ParamKey::Matrix(slot, MatrixField::Amount),
            if slot == MatrixSlot::First { decimal(1, 0) } else { decimal(0, 0) },
        ),
    }
}

/// Reads a row of the modulation matrix from the parameters that belong to it.
pub fn read_matrix_item(session: &mut Session, slot: MatrixSlot) -> (r: MatrixItem)
    requires
        old(session).ready_for(Group::Matrix(slot)),
    ensures
        final(session).follows(*old(session), Group::Matrix(slot)),
        r == matrix_item_at(old(session).source(), slot),
{
    proof {
        reveal(matrix_item_at);
        lemma_keys_in(session.done());
    }
    let source = session.unsigned(
        ParamKey::Matrix(slot, MatrixField::Source),
        if slot == MatrixSlot::First { 7 } else { 0 },
    );
    let target = session.unsigned(
        ParamKey::Matrix(slot, MatrixField::Target),
        if slot == MatrixSlot::First { 2 } else { 0 },
    );
    let amount = session.number(
        ParamKey::Matrix(slot, MatrixField::Amount),
        if slot == MatrixSlot::First { decimal(1, 0) } else { decimal(0, 0) },
    );
    proof {
        lemma_keys_of(Group::Matrix(slot));
    }
    assert(session.taken() =~= old(session).taken().union(keys_of(Group::Matrix(slot))));
    session.finish(Ghost(Group::Matrix(slot)));
    MatrixItem {
        source,
        target,
        amount,
    }
}

/// What the parameters say of a row of the modulation matrix rests on the
/// texts under the keys alone.
pub proof fn lemma_matrix_item_rests_on_texts(
    first: Seq<ParamView>,
    second: Seq<ParamView>,
    slot: MatrixSlot,
)
    requires
        same_texts(first, second),
    ensures
        matrix_item_at(first, slot) == matrix_item_at(second, slot),
{
    reveal(matrix_item_at);
}

/// What the parameters say of the chorus.
#[verifier::opaque]
pub open spec fn chorus_at(params: Seq<ParamView>) -> Chorus {
    Chorus {
        enabled: switch_at(params, ParamKey::Chorus(ChorusField::Switch), false),
        depth: number_at(params, ParamKey::Chorus(ChorusField::Depth), decimal(5, 1)),
        pre_delay: number_at(params, ParamKey::Chorus(ChorusField::PreDelay), decimal(5, 1)),
        ratio: number_at(params, ParamKey::Chorus(ChorusField::Ratio), decimal(5, 1)),
        mix: number_at(params, ParamKey::Chorus(ChorusField::Mix), decimal(5, 1)),
    }
}

/// Reads the chorus from the parameters that belong to it.
pub fn read_chorus(session: &mut Session) -> (r: Chorus)
    requires
        old(session).ready_for(Group::Chorus),
    ensures
        final(session).follows(*old(session), Group::Chorus),
        r == chorus_at(old(session).source()),
{
    proof {
        reveal(chorus_at);
        lemma_keys_in(session.done());
    }
    let enabled = session.switch(ParamKey::Chorus(ChorusField::Switch), false);
    let depth = session.number(ParamKey::Chorus(ChorusField::Depth), decimal(5, 1));
    let mix = session.number(ParamKey::Chorus(ChorusField::Mix), decimal(5, 1));
    let pre_delay = session.number(ParamKey::Chorus(ChorusField::PreDelay), decimal(5, 1));
    let ratio = session.number(ParamKey::Chorus(ChorusField::Ratio), decimal(5, 1));
    proof {
        lemma_keys_of(Group::Chorus);
    }
    assert(session.taken() =~= old(session).taken().union(keys_of(Group::Chorus)));
    session.finish(Ghost(Group::Chorus));
    Chorus {
        enabled,
        depth,
        pre_delay,
        ratio,
        mix,
    }
}

/// What the parameters say of the chorus rests on the texts under the keys
/// alone.
pub proof fn lemma_chorus_rests_on_texts(
    first: Seq<ParamView>,
    second: Seq<ParamView>,
)
    requires
        same_texts(first, second),
    ensures
        chorus_at(first) == chorus_at(second),
{
    reveal(chorus_at);
}

/// What the parameters say of the distortion.
#[verifier::opaque]
pub open spec fn distortion_at(params: Seq<ParamView>) -> Distortion {
    Distortion {
        enabled: switch_at(params, ParamKey::Distortion(DistortionField::Switch), false),
        gain: number_at(params, ParamKey::Distortion(DistortionField::Gain), decimal(2, 1)),
    }
}

/// Reads the distortion from the parameters that belong to it.
pub fn read_distortion(session: &mut Session) -> (r: Distortion)
    requires
        old(session).ready_for(Group::Distortion),
    ensures
        final(session).follows(*old(session), Group::Distortion),
        r == distortion_at(old(session).source()),
{
    proof {
        reveal(distortion_at);
        lemma_keys_in(session.done());
    }
    let enabled = session.switch(ParamKey::Distortion(DistortionField::Switch), false);
    let gain = session.number(ParamKey::Distortion(DistortionField::Gain), decimal(2, 1));
    proof {
        lemma_keys_of(Group::Distortion);
    }
    assert(session.taken() =~= old(session).taken().union(keys_of(Group::Distortion)));
    session.finish(Ghost(Group::Distortion));
    Distortion {
        enabled,
        gain,
    }
}

/// What the parameters say of the distortion rests on the texts under the
/// keys alone.
pub proof fn lemma_distortion_rests_on_texts(
    first: Seq<ParamView>,
    second: Seq<ParamView>,
)
    requires
        same_texts(first, second),
    ensures
        distortion_at(first) == distortion_at(second),
{
    reveal(distortion_at);
}

/// What the parameters say of the equalizer.
#[verifier::opaque]
pub open spec fn equalizer_at(params: Seq<ParamView>) -> Equalizer {
    Equalizer {
        enabled: switch_at(params, ParamKey::Equalizer(EqualizerField::Switch), false),
        high_gain: Ratio {
            percent: number_at(params, ParamKey::Equalizer(EqualizerField::High), decimal(5, 1)),
        },
        low_gain: Ratio {
            percent: number_at(params, ParamKey::Equalizer(EqualizerField::Low), decimal(5, 1)),
        },
        mid_gain: Ratio {
            percent: number_at(params, ParamKey::Equalizer(EqualizerField::Mid), decimal(5, 1)),
        },
    }
}

/// Reads the equalizer from the parameters that belong to it.
pub fn read_equalizer(session: &mut Session) -> (r: Equalizer)
    requires
        old(session).ready_for(Group::Equalizer),
    ensures
        final(session).follows(*old(session), Group::Equalizer),
        r == equalizer_at(old(session).source()),
{
    proof {
        reveal(equalizer_at);
        lemma_keys_in(session.done());
    }
    let enabled = session.switch(ParamKey::Equalizer(EqualizerField::Switch), false);
    let high_gain = Ratio {
        percent: session.number(ParamKey::Equalizer(EqualizerField::High), decimal(5, 1)),
    };
    let low_gain = Ratio {
        percent: session.number(ParamKey::Equalizer(EqualizerField::Low), decimal(5, 1)),
    };
    let mid_gain = Ratio {
        percent: session.number(ParamKey::Equalizer(EqualizerField::Mid), decimal(5, 1)),
    };
    proof {
        lemma_keys_of(Group::Equalizer);
    }
    assert(session.taken() =~= old(session).taken().union(keys_of(Group::Equalizer)));
    session.finish(Ghost(Group::Equalizer));
    Equalizer {
        enabled,
        high_gain,
        low_gain,
        mid_gain,
    }
}

/// What the parameters say of the equalizer rests on the texts under the keys
/// alone.
pub proof fn lemma_equalizer_rests_on_texts(
    first: Seq<ParamView>,
    second: Seq<ParamView>,
)
    requires
        same_texts(first, second),
    ensures
        equalizer_at(first) == equalizer_at(second),
{
    reveal(equalizer_at);
}

/// What the parameters say of the filter among the effects.
#[verifier::opaque]
pub open spec fn effect_filter_at(params: Seq<ParamView>) -> Filter {
    Filter {
        enabled: switch_at(params, ParamKey::EffectFilter(EffectFilterField::Switch), false),
        mode: FilterMode::with_number_or(
            u32_at(
                params,
                ParamKey::EffectFilter(EffectFilterField::Type),
                FilterMode::LowPass.discriminant(),
            ),
            FilterMode::LowPass,
        ),
        resonance: number_at(
            params,
            ParamKey::EffectFilter(EffectFilterField::Resonance),
            decimal(0, 0),
        ),
        cutoff_frequency: number_at(
            params,
            ParamKey::EffectFilter(EffectFilterField::Cutoff),
            decimal(1, 0),
        ),
        key_tracking: decimal(0, 0),
        envelope: absent_envelope(),
        envelope_amount: decimal(1, 0),
        effect_mode: FilterEffectMode::Off,
        effect_enabled: false,
        effect_amount: decimal(0, 0),
    }
}

/// Reads the filter among the effects from the parameters that belong to it.
pub fn read_effect_filter(session: &mut Session) -> (r: Filter)
    requires
        old(session).ready_for(Group::EffectFilter),
    ensures
        final(session).follows(*old(session), Group::EffectFilter),
        r == effect_filter_at(old(session).source()),
{
    proof {
        reveal(effect_filter_at);
        lemma_keys_in(session.done());
    }
    let enabled = session.switch(ParamKey::EffectFilter(EffectFilterField::Switch), false);
    let mode = FilterMode::from_or(
        session.unsigned(
            ParamKey::EffectFilter(EffectFilterField::Type),
            FilterMode::LowPass.code(),
        ),
        FilterMode::LowPass,
    );
    let resonance = session.number(
        ParamKey::EffectFilter(EffectFilterField::Resonance),
        decimal(0, 0),
    );
    let cutoff_frequency = session.number(
        ParamKey::EffectFilter(EffectFilterField::Cutoff),
        decimal(1, 0),
    );
    proof {
        lemma_keys_of(Group::EffectFilter);
    }
    assert(session.taken() =~= old(session).taken().union(keys_of(Group::EffectFilter)));
    session.finish(Ghost(Group::EffectFilter));
    Filter {
        enabled,
        mode,
        resonance,
        cutoff_frequency,
        key_tracking: decimal(0, 0),
        envelope: absent_envelope(),
        envelope_amount: decimal(1, 0),
        effect_mode: FilterEffectMode::Off,
        effect_enabled: false,
        effect_amount: decimal(0, 0),
    }
}

/// What the parameters say of the filter among the effects rests on the texts
/// under the keys alone.
pub proof fn lemma_effect_filter_rests_on_texts(
    first: Seq<ParamView>,
    second: Seq<ParamView>,
)
    requires
        same_texts(first, second),
    ensures
        effect_filter_at(first) == effect_filter_at(second),
{
    reveal(effect_filter_at);
}

/// What the parameters say of the bit and sample rate reducer.
#[verifier::opaque]
pub open spec fn lofi_at(params: Seq<ParamView>) -> LoFi {
    LoFi {
        enabled: switch_at(params, ParamKey::LoFi(LoFiField::Switch), false),
        bitrate: number_at(params, ParamKey::LoFi(LoFiField::BitRate), decimal(1, 0)),
        sample_rate: number_at(params, ParamKey::LoFi(LoFiField::SampleRate), decimal(1, 0)),
        mix: number_at(params, ParamKey::LoFi(LoFiField::Mix), decimal(1, 0)),
    }
}

/// Reads the bit and sample rate reducer from the parameters that belong to it.
pub fn read_lofi(session: &mut Session) -> (r: LoFi)
    requires
        old(session).ready_for(Group::LoFi),
    ensures
        final(session).follows(*old(session), Group::LoFi),
        r == lofi_at(old(session).source()),
{
    proof {
        reveal(lofi_at);
        lemma_keys_in(session.done());
    }
    let enabled = session.switch(ParamKey::LoFi(LoFiField::Switch), false);
    let bitrate = session.number(ParamKey::LoFi(LoFiField::BitRate), decimal(1, 0));
    let sample_rate = session.number(ParamKey::LoFi(LoFiField::SampleRate), decimal(1, 0));
    let mix = session.number(ParamKey::LoFi(LoFiField::Mix), decimal(1, 0));
    proof {
        lemma_keys_of(Group::LoFi);
    }
    assert(session.taken() =~= old(session).taken().union(keys_of(Group::LoFi)));
    session.finish(Ghost(Group::LoFi));
    LoFi {
        enabled,
        bitrate,
        sample_rate,
        mix,
    }
}

/// What the parameters say of the bit and sample rate reducer rests on the
/// texts under the keys alone.
pub proof fn lemma_lofi_rests_on_texts(
    first: Seq<ParamView>,
    second: Seq<ParamView>,
)
    requires
        same_texts(first, second),
    ensures
        lofi_at(first) == lofi_at(second),
{
    reveal(lofi_at);
}

/// What the parameters say of the reverb.
#[verifier::opaque]
pub open spec fn reverb_at(params: Seq<ParamView>) -> Reverb {
    Reverb {
        enabled: switch_at(params, ParamKey::Reverb(ReverbField::Switch), false),
        dampen: number_at(params, ParamKey::Reverb(ReverbField::Dampen), decimal(3, 1)),
        filter: number_at(params, ParamKey::Reverb(ReverbField::Filter), decimal(0, 0)),
        room: number_at(params, ParamKey::Reverb(ReverbField::Room), decimal(3, 1)),
        width: number_at(params, ParamKey::Reverb(ReverbField::Width), decimal(8, 1)),
        mix: number_at(params, ParamKey::Reverb(ReverbField::Mix), decimal(2, 1)),
    }
}

/// Reads the reverb from the parameters that belong to it.
pub fn read_reverb(session: &mut Session) -> (r: Reverb)
    requires
        old(session).ready_for(Group::Reverb),
    ensures
        final(session).follows(*old(session), Group::Reverb),
        r == reverb_at(old(session).source()),
{
    proof {
        reveal(reverb_at);
        lemma_keys_in(session.done());
    }
    let enabled = session.switch(ParamKey::Reverb(ReverbField::Switch), false);
    let dampen = session.number(ParamKey::Reverb(ReverbField::Dampen), decimal(3, 1));
    let room = session.number(ParamKey::Reverb(ReverbField::Room), decimal(3, 1));
    let filter = session.number(ParamKey::Reverb(ReverbField::Filter), decimal(0, 0));
    let width = session.number(ParamKey::Reverb(ReverbField::Width), decimal(8, 1));
    let mix = session.number(ParamKey::Reverb(ReverbField::Mix), decimal(2, 1));
    proof {
        lemma_keys_of(Group::Reverb);
    }
    assert(session.taken() =~= old(session).taken().union(keys_of(Group::Reverb)));
    session.finish(Ghost(Group::Reverb));
    Reverb {
        enabled,
        dampen,
        filter,
        room,
        width,
        mix,
    }
}

/// What the parameters say of the reverb rests on the texts under the keys
/// alone.
pub proof fn lemma_reverb_rests_on_texts(
    first: Seq<ParamView>,
    second: Seq<ParamView>,
)
    requires
        same_texts(first, second),
    ensures
        reverb_at(first) == reverb_at(second),
{
    reveal(reverb_at);
}

/// What the parameters say of the settings that belong to no part of the preset.
#[verifier::opaque]
pub open spec fn settings_at(params: Seq<ParamView>) -> Settings {
    Settings {
        master_volume_normalized: number_at(
            params,
            ParamKey::Settings(SettingField::MasterVolume),
            decimal(5, 1),
        ),
        polyphony: u32_at(params, ParamKey::Settings(SettingField::Polyphony), 8),
        portamento_mode: PortamentoMode::with_number_or(
            u32_at(
                params,
                ParamKey::Settings(SettingField::PortamentoMode),
                PortamentoMode::Poly.discriminant(),
            ),
            PortamentoMode::Poly,
        ),
        midi_play_mode: MidiPlayMode::with_number_or(
            u32_at(
                params,
                ParamKey::Settings(SettingField::MidiPlayMode),
                MidiPlayMode::Normal.discriminant(),
            ),
            MidiPlayMode::Normal,
        ),
        glide: number_at(params, ParamKey::Settings(SettingField::Glide), decimal(30, 0)),
        velocity_curve: number_at(
            params,
            ParamKey::Settings(SettingField::VelocityCurve),
            decimal(5, 1),
        ),
        key_track_curve: number_at(
            params,
            ParamKey::Settings(SettingField::KeyTrackCurve),
            decimal(0, 0),
        ),
        pitch_bend_range: number_at(
            params,
            ParamKey::Settings(SettingField::PitchBendRange),
            decimal(2, 0),
        ),
        limit_enabled: switch_at(params, ParamKey::Settings(SettingField::LimitSwitch), false),
        envelope_curve: number_at(
            params,
            ParamKey::Settings(SettingField::EnvelopeCurve),
            decimal(14, 2),
        ),
        filter_envelope_curve: number_at(
            params,
            ParamKey::Settings(SettingField::FilterEnvelopeCurve),
            decimal(14, 2),
        ),
        hard_sync: switch_at(params, ParamKey::Settings(SettingField::HardSync), false),
    }
}

/// Reads the settings that belong to no part of the preset from the parameters that belong to it.
pub fn read_settings(session: &mut Session) -> (r: Settings)
    requires
        old(session).ready_for(Group::Settings),
    ensures
        final(session).follows(*old(session), Group::Settings),
        r == settings_at(old(session).source()),
{
    proof {
        reveal(settings_at);
        lemma_keys_in(session.done());
    }
    let master_volume_normalized = session.number(
        ParamKey::Settings(SettingField::MasterVolume),
        decimal(5, 1),
    );
    let polyphony = session.unsigned(ParamKey::Settings(SettingField::Polyphony), 8);
    let portamento_mode = PortamentoMode::from_or(
        session.unsigned(
            ParamKey::Settings(SettingField::PortamentoMode),
            PortamentoMode::Poly.code(),
        ),
        PortamentoMode::Poly,
    );
    let midi_play_mode = MidiPlayMode::from_or(
        session.unsigned(
            ParamKey::Settings(SettingField::MidiPlayMode),
            MidiPlayMode::Normal.code(),
        ),
        MidiPlayMode::Normal,
    );
    let glide = session.number(ParamKey::Settings(SettingField::Glide), decimal(30, 0));
    let velocity_curve = session.number(
        ParamKey::Settings(SettingField::VelocityCurve),
        decimal(5, 1),
    );
    let key_track_curve = session.number(
        ParamKey::Settings(SettingField::KeyTrackCurve),
        decimal(0, 0),
    );
    let pitch_bend_range = session.number(
        ParamKey::Settings(SettingField::PitchBendRange),
        decimal(2, 0),
    );
    let limit_enabled = session.switch(ParamKey::Settings(SettingField::LimitSwitch), false);
    let envelope_curve = session.number(
        ParamKey::Settings(SettingField::EnvelopeCurve),
        decimal(14, 2),
    );
    let filter_envelope_curve = session.number(
        ParamKey::Settings(SettingField::FilterEnvelopeCurve),
        decimal(14, 2),
    );
    let hard_sync = session.switch(ParamKey::Settings(SettingField::HardSync), false);
    let unused_pitch = session.number(ParamKey::Settings(SettingField::Pitch), decimal(0, 0));
    proof {
        lemma_keys_of(Group::Settings);
    }
    assert(session.taken() =~= old(session).taken().union(keys_of(Group::Settings)));
    session.finish(Ghost(Group::Settings));
    Settings {
        master_volume_normalized,
        polyphony,
        portamento_mode,
        midi_play_mode,
        glide,
        velocity_curve,
        key_track_curve,
        pitch_bend_range,
        limit_enabled,
        envelope_curve,
        filter_envelope_curve,
        hard_sync,
    }
}

/// What the parameters say of the settings that belong to no part of the
/// preset rests on the texts under the keys alone.
pub proof fn lemma_settings_rests_on_texts(
    first: Seq<ParamView>,
    second: Seq<ParamView>,
)
    requires
        same_texts(first, second),
    ensures
        settings_at(first) == settings_at(second),
{
    reveal(settings_at);
}

/// What the parameters say of the delay.
///
/// The delay's filter comes in two forms. Later revisions of the format hold
/// the position of its slider under a key of its own; where that key holds
/// no number, the position is the one that earlier revisions hold as the
/// plain filter value. Either way the mode is the one whose number is the
/// position in thousandths, and no filter where no mode has that number.
#[verifier::opaque]
pub open spec fn delay_at(params: Seq<ParamView>) -> Delay {
    let filter = number_at(params, ParamKey::Delay(DelayField::Filter), decimal(0, 0));
    let position = match number_if_at(params, ParamKey::Delay(DelayField::FilterMode)) {
        Some(position) => position,
        None => filter,
    };
    Delay {
        enabled: switch_at(params, ParamKey::Delay(DelayField::Switch), false),
        ping_pong: switch_at(params, ParamKey::Delay(DelayField::PingPong), false),
        feedback: number_at(params, ParamKey::Delay(DelayField::Feedback), decimal(3, 1)),
        filter,
        filter_mode: DelayFilterMode::with_number_or(
            position.as_thousandths(),
            DelayFilterMode::Off,
        ),
        sync: switch_at(params, ParamKey::Delay(DelayField::Sync), true),
        time: number_at(params, ParamKey::Delay(DelayField::Time), decimal(17, 2)),
        mix: number_at(params, ParamKey::Delay(DelayField::Mix), decimal(2, 1)),
    }
}

/// Reads the delay from the parameters that belong to it.
pub fn read_delay(session: &mut Session) -> (r: Delay)
    requires
        old(session).ready_for(Group::Delay),
    ensures
        final(session).follows(*old(session), Group::Delay),
        r == delay_at(old(session).source()),
{
    proof {
        reveal(delay_at);
        lemma_keys_in(session.done());
    }
    let enabled = session.switch(ParamKey::Delay(DelayField::Switch), false);
    let ping_pong = session.switch(ParamKey::Delay(DelayField::PingPong), false);
    let feedback = session.number(ParamKey::Delay(DelayField::Feedback), decimal(3, 1));
    let filter = session.number(ParamKey::Delay(DelayField::Filter), decimal(0, 0));
    let position = match session.number_if_any(ParamKey::Delay(DelayField::FilterMode)) {
        Some(position) => position,
        None => filter,
    };
    let filter_mode = DelayFilterMode::from_or(position.thousandths(), DelayFilterMode::Off);
    let sync = session.switch(ParamKey::Delay(DelayField::Sync), true);
    let time = session.number(ParamKey::Delay(DelayField::Time), decimal(17, 2));
    let mix = session.number(ParamKey::Delay(DelayField::Mix), decimal(2, 1));
    proof {
        lemma_keys_of(Group::Delay);
    }
    assert(session.taken() =~= old(session).taken().union(keys_of(Group::Delay)));
    session.finish(Ghost(Group::Delay));
    Delay { enabled, ping_pong, feedback, filter, filter_mode, sync, time, mix }
}

/// What the parameters say of the delay rests on the texts under the keys
/// alone.
pub proof fn lemma_delay_rests_on_texts(
    first: Seq<ParamView>,
    second: Seq<ParamView>,
)
    requires
        same_texts(first, second),
    ensures
        delay_at(first) == delay_at(second),
{
    reveal(delay_at);
}

/// The number in place `index` of the effect order: the number that the
/// preset file gives for the place, or the place's own number where the file
/// gives none.
pub open spec fn slot_number(slots: Seq<Option<u32>>, index: int) -> u32 {
    match slots[index] {
        Some(id) => id,
        None => index as u32,
    }
}

/// The effect types in the first `count` places of the effect order. The
/// first place whose number stands for no effect type fails the whole order,
/// and the failure names that number.
pub open spec fn effect_order_upto(slots: Seq<Option<u32>>, count: nat) -> Result<
    Seq<EffectType>,
    DecodeError,
>
    decreases count,
{
    if count == 0 {
        Ok(Seq::empty())
    } else {
        match effect_order_upto(slots, (count - 1) as nat) {
            Err(error) => Err(error),
            Ok(order) => {
                let id = slot_number(slots, count - 1);
                if EffectType::known(id) {
                    Ok(order.push(EffectType::with_number(id)))
                } else {
                    Err(DecodeError::UnknownEffectType(id))
                }
            },
        }
    }
}

/// The order of the effects that the places of a preset file stand for.
pub open spec fn effect_order_of(slots: Seq<Option<u32>>) -> Result<Seq<EffectType>, DecodeError> {
    effect_order_upto(slots, slots.len())
}

/// Works out the order of the effects from the seven places of a preset
/// file.
pub fn resolve_effect_order(slots: [Option<u32>; 7]) -> (r: Result<Vec<EffectType>, DecodeError>)
    ensures
        match effect_order_of(slots@) {
            Ok(order) => r is Ok && r->Ok_0@ == order && order.len() == 7,
            Err(error) => r == Err::<Vec<EffectType>, DecodeError>(error),
        },
{
    let mut order: Vec<EffectType> = Vec::new();
    let mut index: usize = 0;
    while index < 7
        invariant
            index <= 7,
            order@.len() == index,
            effect_order_upto(slots@, index as nat) == Ok::<Seq<EffectType>, DecodeError>(order@),
        decreases 7 - index,
    {
        let id: u32 = match slots[index] {
            Some(id) => id,
            None => index as u32,
        };
        match EffectType::try_from(id) {
            Ok(effect_type) => {
                order.push(effect_type);
            },
            Err(error) => {
                proof {
                    lemma_effect_order_fails(slots@, (index + 1) as nat, 7);
                }
                return Err(error);
            },
        }
        index = index + 1;
    }
    Ok(order)
}

/// An order that has failed within its first places has failed.
pub proof fn lemma_effect_order_fails(slots: Seq<Option<u32>>, early: nat, late: nat)
    requires
        early <= late,
        effect_order_upto(slots, early) is Err,
    ensures
        effect_order_upto(slots, late) == effect_order_upto(slots, early),
    decreases late,
{
    if early < late {
        lemma_effect_order_fails(slots, early, (late - 1) as nat);
    }
}

/// A preset together with the parameters of its file that the reader did not
/// recognise.
#[derive(Debug)]
pub struct Decoded {
    pub preset: Preset,
    pub unrecognized: Vec<Param>,
}

/// The text that stands in a preset file where the author wrote no
/// description.
pub open spec fn blank_info() -> Seq<char> {
    "Preset Info"@
}

/// The preset that a preset file stands for, or why it stands for none.
///
/// Every part is read from the parameters as the file holds them; only the
/// order of the effects can fail.
pub open spec fn assembled(tree: TreeView) -> Result<PresetView, DecodeError> {
    let params = tree.params;
    match effect_order_of(tree.fx_order) {
        Err(error) => Err(error),
        Ok(effect_order) => Ok(
            PresetView {
                name: tree.preset_name,
                description: if tree.preset_info == blank_info() {
                    None
                } else {
                    Some(tree.preset_info)
                },
                master_volume_normalized: settings_at(params).master_volume_normalized,
                polyphony: settings_at(params).polyphony,
                portamento_mode: settings_at(params).portamento_mode,
                midi_play_mode: settings_at(params).midi_play_mode,
                glide: settings_at(params).glide,
                velocity_curve: settings_at(params).velocity_curve,
                key_track_curve: settings_at(params).key_track_curve,
                pitch_bend_range: settings_at(params).pitch_bend_range,
                limit_enabled: settings_at(params).limit_enabled,
                tuning: tuning_at(params, tree.root_key, tree.scale),
                envelope: envelope_at(
                    params,
                    EnvelopeSlot::Main,
                    factory_envelope(EnvelopeSlot::Main),
                ),
                envelope_curve: settings_at(params).envelope_curve,
                filter: filter_at(
                    params,
                    envelope_at(
                        params,
                        EnvelopeSlot::Filter,
                        factory_envelope(EnvelopeSlot::Filter),
                    ),
                ),
                filter_envelope_curve: settings_at(params).filter_envelope_curve,
                oscillators: seq![
                    oscillator_at(params, OscillatorSlot::First),
                    oscillator_at(params, OscillatorSlot::Second),
                    oscillator_at(params, OscillatorSlot::Third),
                ],
                hard_sync: settings_at(params).hard_sync,
                noise: noise_at(params),
                lfos: seq![lfo_at(params, PairSlot::First), lfo_at(params, PairSlot::Second)],
                mod_envelopes: seq![
                    modulator_envelope_at(
                        params,
                        PairSlot::First,
                        envelope_at(
                            params,
                            EnvelopeSlot::Modulator1,
                            factory_envelope(EnvelopeSlot::Modulator1),
                        ),
                    ),
                    modulator_envelope_at(
                        params,
                        PairSlot::Second,
                        envelope_at(
                            params,
                            EnvelopeSlot::Modulator2,
                            factory_envelope(EnvelopeSlot::Modulator2),
                        ),
                    ),
                ],
                vibrato: vibrato_at(params),
                matrix: seq![
                    matrix_item_at(params, MatrixSlot::First),
                    matrix_item_at(params, MatrixSlot::Second),
                    matrix_item_at(params, MatrixSlot::Third),
                    matrix_item_at(params, MatrixSlot::Fourth),
                    matrix_item_at(params, MatrixSlot::Fifth),
                    matrix_item_at(params, MatrixSlot::Sixth),
                    matrix_item_at(params, MatrixSlot::Seventh),
                    matrix_item_at(params, MatrixSlot::Eighth),
                ],
                effect_order,
                chorus: chorus_at(params),
                delay: delay_at(params),
                distortion: distortion_at(params),
                equalizer: equalizer_at(params),
                effect_filter: effect_filter_at(params),
                lofi: lofi_at(params),
                reverb: reverb_at(params),
            },
        ),
    }
}

/// Whether `result` is what reading the preset file `tree` gives: the preset
/// that the file stands for, together with the parameters that no key takes,
/// or else the reason why the file stands for no preset.
pub open spec fn decodes_to(tree: TreeView, result: Result<Decoded, DecodeError>) -> bool {
    match assembled(tree) {
        Ok(preset) => {
            &&& result is Ok
            &&& result->Ok_0.preset@ == preset
            &&& preset.well_formed()
            &&& views(result->Ok_0.unrecognized@) == unrecognized(tree.params)
        },
        Err(error) => result is Err && result->Err_0 == error,
    }
}

impl Preset {
    /// Reads a preset from the structural fields and the parameters of a
    /// preset file.
    ///
    /// Fails only where the order of the effects names an unknown effect
    /// type. Otherwise gives the preset, and with it the parameters that
    /// were not recognised, in the order of the file.
    pub fn decode(tree: PluginParamTree) -> (r: Result<Decoded, DecodeError>)
        ensures
            decodes_to(tree@, r),
    {
        let ghost whole = tree@;
        let slots = [
            tree.fx_order0,
            tree.fx_order1,
            tree.fx_order2,
            tree.fx_order3,
            tree.fx_order4,
            tree.fx_order5,
            tree.fx_order6,
        ];
        assert(slots@ =~= tree@.fx_order);
        let effect_order = match resolve_effect_order(slots) {
            Ok(order) => order,
            Err(error) => {
                return Err(error);
            },
        };
        let name = tree.preset_name.clone();
        let blank: String = "Preset Info".to_owned();
        let description = if tree.preset_info == blank {
            None
        } else {
            Some(tree.preset_info.clone())
        };
        let root_key = tree.root_key;
        let scale = tree.scale;
        let mut session = Session::open(tree);

        let envelope = read_envelope(
            &mut session,
            EnvelopeSlot::Main,
            factory_envelope(EnvelopeSlot::Main),
        );
        let tuning = read_tuning(&mut session, root_key, scale);
        let filter_envelope = read_envelope(
            &mut session,
            EnvelopeSlot::Filter,
            factory_envelope(EnvelopeSlot::Filter),
        );
        let filter = read_filter(&mut session, filter_envelope);

        let mut oscillators: Vec<Oscillator> = Vec::new();
        oscillators.push(read_oscillator(&mut session, OscillatorSlot::First));
        oscillators.push(read_oscillator(&mut session, OscillatorSlot::Second));
        oscillators.push(read_oscillator(&mut session, OscillatorSlot::Third));
        let noise = read_noise(&mut session);

        let mut lfos: Vec<Lfo> = Vec::new();
        lfos.push(read_lfo(&mut session, PairSlot::First));
        lfos.push(read_lfo(&mut session, PairSlot::Second));

        let first_envelope = read_envelope(
            &mut session,
            EnvelopeSlot::Modulator1,
            factory_envelope(EnvelopeSlot::Modulator1),
        );
        let second_envelope = read_envelope(
            &mut session,
            EnvelopeSlot::Modulator2,
            factory_envelope(EnvelopeSlot::Modulator2),
        );
        let mut mod_envelopes: Vec<ModulatorEnvelope> = Vec::new();
        mod_envelopes.push(read_modulator_envelope(&mut session, PairSlot::First, first_envelope));
        mod_envelopes.push(
            read_modulator_envelope(&mut session, PairSlot::Second, second_envelope),
        );
        let vibrato = read_vibrato(&mut session);

        let mut matrix: Vec<MatrixItem> = Vec::new();
        matrix.push(read_matrix_item(&mut session, MatrixSlot::First));
        matrix.push(read_matrix_item(&mut session, MatrixSlot::Second));
        matrix.push(read_matrix_item(&mut session, MatrixSlot::Third));
        matrix.push(read_matrix_item(&mut session, MatrixSlot::Fourth));
        matrix.push(read_matrix_item(&mut session, MatrixSlot::Fifth));
        matrix.push(read_matrix_item(&mut session, MatrixSlot::Sixth));
        matrix.push(read_matrix_item(&mut session, MatrixSlot::Seventh));
        matrix.push(read_matrix_item(&mut session, MatrixSlot::Eighth));

        let chorus = read_chorus(&mut session);
        let delay = read_delay(&mut session);
        let distortion = read_distortion(&mut session);
        let equalizer = read_equalizer(&mut session);
        let effect_filter = read_effect_filter(&mut session);
        let lofi = read_lofi(&mut session);
        let reverb = read_reverb(&mut session);

        let settings = read_settings(&mut session);
        assert(session.done() =~= Set::<Group>::full());
        proof {
            lemma_keys_in_bounds();
        }
        let unrecognized = session.close();
        assert(oscillators@ =~= assembled(whole)->Ok_0.oscillators);
        assert(lfos@ =~= assembled(whole)->Ok_0.lfos);
        assert(mod_envelopes@ =~= assembled(whole)->Ok_0.mod_envelopes);
        assert(matrix@ =~= assembled(whole)->Ok_0.matrix);
        let preset = Preset {
            name,
            description,
            master_volume_normalized: settings.master_volume_normalized,
            polyphony: settings.polyphony,
            portamento_mode: settings.portamento_mode,
            midi_play_mode: settings.midi_play_mode,
            glide: settings.glide,
            velocity_curve: settings.velocity_curve,
            key_track_curve: settings.key_track_curve,
            pitch_bend_range: settings.pitch_bend_range,
            limit_enabled: settings.limit_enabled,
            tuning,
            envelope,
            envelope_curve: settings.envelope_curve,
            filter,
            filter_envelope_curve: settings.filter_envelope_curve,
            oscillators,
            hard_sync: settings.hard_sync,
            noise,
            lfos,
            mod_envelopes,
            vibrato,
            matrix,
            effect_order,
            chorus,
            delay,
            distortion,
            equalizer,
            effect_filter,
            lofi,
            reverb,
        };
        Ok(Decoded { preset, unrecognized })
    }
}

} // verus!
