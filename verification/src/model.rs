//! The parts of a preset: envelopes, oscillators, modulators and the preset
//! itself.

use crate::effect::{
    Chorus, Delay, Distortion, Effect, EffectType, Equalizer, Filter, LoFi, Reverb,
};
use crate::number::{decimal, decimal_value, Number};
use crate::waveform::Waveform;
use vstd::prelude::*;

verus! {

/// A span of time.
#[derive(Copy, Clone, Debug, PartialEq, Eq, Structural)]
pub struct Time {
    pub milliseconds: Number,
}

/// A proportion.
#[derive(Copy, Clone, Debug, PartialEq, Eq, Structural)]
pub struct Ratio {
    pub percent: Number,
}

/// An envelope with attack, decay, sustain and release.
#[derive(Copy, Clone, Debug, PartialEq, Eq, Structural)]
pub struct Envelope {
    pub attack: Time,
    pub attack_curve: Number,
    pub decay: Time,
    pub decay_falloff: Number,
    /// A level, not a time.
    pub sustain: Ratio,
    pub release: Time,
    pub release_falloff: Number,
}

/// The shapes that a stage of an envelope can take.
#[derive(Copy, Clone, Debug, PartialEq, Eq, Structural)]
pub enum EnvelopeCurve {
    Linear,
    Exponential1,
    Exponential2,
    Exponential3,
    Exponential4,
    Logarithmic1,
    Logarithmic2,
    Pluck1,
    Pluck2,
    Pluck3,
    /// Exponential, then logarithmic.
    DoubleCurve1,
    /// Logarithmic, then exponential.
    DoubleCurve2,
}

impl EnvelopeCurve {
    /// The value that a preset file holds for the shape, in thousandths.
    pub open spec fn thousandths(self) -> u128 {
        match self {
            EnvelopeCurve::Linear => 0,
            EnvelopeCurve::Exponential1 => 70,
            EnvelopeCurve::Exponential2 => 133,
            EnvelopeCurve::Exponential3 => 200,
            EnvelopeCurve::Exponential4 => 267,
            EnvelopeCurve::Logarithmic1 => 333,
            EnvelopeCurve::Logarithmic2 => 400,
            EnvelopeCurve::Pluck1 => 467,
            EnvelopeCurve::Pluck2 => 533,
            EnvelopeCurve::Pluck3 => 600,
            EnvelopeCurve::DoubleCurve1 => 667,
            EnvelopeCurve::DoubleCurve2 => 733,
        }
    }

    /// The shape's name as the synthesizer shows it.
    pub open spec fn label_text(self) -> Seq<char> {
        match self {
            EnvelopeCurve::Linear => "Linear"@,
            EnvelopeCurve::Exponential1 => "Exponential 1"@,
            EnvelopeCurve::Exponential2 => "Exponential 2"@,
            EnvelopeCurve::Exponential3 => "Exponential 3"@,
            EnvelopeCurve::Exponential4 => "Exponential 4"@,
            EnvelopeCurve::Logarithmic1 => "Logarithmic 1"@,
            EnvelopeCurve::Logarithmic2 => "Logarithmic 2"@,
            EnvelopeCurve::Pluck1 => "Pluck 1"@,
            EnvelopeCurve::Pluck2 => "Pluck 2"@,
            EnvelopeCurve::Pluck3 => "Pluck 3"@,
            EnvelopeCurve::DoubleCurve1 => "Double Curve 1: Exp > Log"@,
            EnvelopeCurve::DoubleCurve2 => "Double Curve 2: Log > Exp"@,
        }
    }

    /// The value that a preset file holds for the shape.
    pub fn value(self) -> (value: Number)
        ensures
            value == decimal_value(self.thousandths(), 3),
    {
        let thousandths: u128 = match self {
            EnvelopeCurve::Linear => 0,
            EnvelopeCurve::Exponential1 => 70,
            EnvelopeCurve::Exponential2 => 133,
            EnvelopeCurve::Exponential3 => 200,
            EnvelopeCurve::Exponential4 => 267,
            EnvelopeCurve::Logarithmic1 => 333,
            EnvelopeCurve::Logarithmic2 => 400,
            EnvelopeCurve::Pluck1 => 467,
            EnvelopeCurve::Pluck2 => 533,
            EnvelopeCurve::Pluck3 => 600,
            EnvelopeCurve::DoubleCurve1 => 667,
            EnvelopeCurve::DoubleCurve2 => 733,
        };
        decimal(thousandths, 3)
    }

    /// The shape's name as the synthesizer shows it.
    pub fn label(self) -> (name: &'static str)
        ensures
            name@ == self.label_text(),
    {
        match self {
            EnvelopeCurve::Linear => "Linear",
            EnvelopeCurve::Exponential1 => "Exponential 1",
            EnvelopeCurve::Exponential2 => "Exponential 2",
            EnvelopeCurve::Exponential3 => "Exponential 3",
            EnvelopeCurve::Exponential4 => "Exponential 4",
            EnvelopeCurve::Logarithmic1 => "Logarithmic 1",
            EnvelopeCurve::Logarithmic2 => "Logarithmic 2",
            EnvelopeCurve::Pluck1 => "Pluck 1",
            EnvelopeCurve::Pluck2 => "Pluck 2",
            EnvelopeCurve::Pluck3 => "Pluck 3",
            EnvelopeCurve::DoubleCurve1 => "Double Curve 1: Exp > Log",
            EnvelopeCurve::DoubleCurve2 => "Double Curve 2: Log > Exp",
        }
    }
}

/// A low-frequency oscillator.
#[derive(Copy, Clone, Debug, PartialEq, Eq, Structural)]
pub struct Lfo {
    pub enabled: bool,
    pub waveform: Waveform,
    pub sync: bool,
    pub invert: bool,
    pub reverse: bool,
    pub mono: bool,
    pub free_run: bool,
    pub frequency: Number,
    pub phase: Number,
}

/// One row of the modulation matrix.
#[derive(Copy, Clone, Debug, PartialEq, Eq, Structural)]
pub struct MatrixItem {
    pub source: u32,
    pub target: u32,
    pub amount: Number,
}

/// The white noise generator.
#[derive(Copy, Clone, Debug, PartialEq, Eq, Structural)]
pub struct Noise {
    pub enabled: bool,
    pub width: Number,
    pub pan: Number,
    pub volume: Number,
}

impl Effect for Noise {
    /// The noise generator does not count as an effect that is switched on,
    /// whatever its own switch says.
    open spec fn switched_on(&self) -> bool {
        false
    }

    fn is_enabled(&self) -> (enabled: bool) {
        false
    }
}

/// The voices that an oscillator stacks.
#[derive(Copy, Clone, Debug, PartialEq, Eq, Structural)]
pub struct Unison {
    /// The first voice is the plain signal.
    pub voices: u32,
    pub detune: Number,
    pub spread: Number,
    pub mix: Number,
}

/// One of the three oscillators. The first two feed the third, which lacks
/// some of what they can do.
#[derive(Copy, Clone, Debug, PartialEq, Eq, Structural)]
pub struct Oscillator {
    pub enabled: bool,
    pub waveform: Waveform,
    pub invert: bool,
    pub pan: Number,
    pub phase: Number,
    pub pitch: Number,
    pub fine_tuning: i32,
    pub semitone_tuning: i32,
    pub octave_tuning: i32,
    pub reverse: bool,
    pub free_run: bool,
    pub sync_all: bool,
    pub volume: Number,
    pub unison: Unison,
    /// Amplitude modulation.
    pub am_enabled: bool,
    pub am_amount: Number,
    /// Frequency modulation.
    pub fm_enabled: bool,
    pub fm_amount: Number,
    /// Ring modulation.
    pub rm_enabled: bool,
    pub rm_amount: Number,
}

/// What the synthesizer does with notes that are off the chosen scale.
#[derive(Copy, Clone, Debug, PartialEq, Eq, Structural)]
pub enum MidiPlayMode {
    Normal,
    /// Mutes notes that are off the scale.
    Cheat1,
    /// Replaces notes that are off the scale.
    Cheat2,
}

impl MidiPlayMode {
    /// The number that stands for the mode in a preset file.
    pub open spec fn discriminant(self) -> u32 {
        match self {
            MidiPlayMode::Normal => 0,
            MidiPlayMode::Cheat1 => 1,
            MidiPlayMode::Cheat2 => 2,
        }
    }

    /// Whether some mode has the number `id`.
    pub open spec fn known(id: u32) -> bool {
        exists|mode: MidiPlayMode| mode.discriminant() == id
    }

    /// The mode with the number `id`, for a number that is known.
    pub open spec fn with_number(id: u32) -> MidiPlayMode {
        choose|mode: MidiPlayMode| mode.discriminant() == id
    }

    /// The mode with the number `id`, or `default` where no mode has
    /// that number.
    pub open spec fn with_number_or(id: u32, default: MidiPlayMode) -> MidiPlayMode {
        if MidiPlayMode::known(id) {
            MidiPlayMode::with_number(id)
        } else {
            default
        }
    }

    /// The number that stands for the mode in a preset file.
    pub fn code(self) -> (id: u32)
        ensures
            id == self.discriminant(),
    {
        match self {
            MidiPlayMode::Normal => 0,
            MidiPlayMode::Cheat1 => 1,
            MidiPlayMode::Cheat2 => 2,
        }
    }

    /// The mode with the number `mode_id`, or `default` where no mode
    /// has that number.
    pub fn from_or(mode_id: u32, default: MidiPlayMode) -> (mode: MidiPlayMode)
        ensures
            MidiPlayMode::known(mode_id) ==> mode.discriminant() == mode_id,
            !MidiPlayMode::known(mode_id) ==> mode == default,
            mode == MidiPlayMode::with_number_or(mode_id, default),
    {
        let mode = match mode_id {
            0 => MidiPlayMode::Normal,
            1 => MidiPlayMode::Cheat1,
            2 => MidiPlayMode::Cheat2,
            _ => default,
        };
        proof {
            if mode.discriminant() == mode_id {
                assert(MidiPlayMode::known(mode_id));
                let found = MidiPlayMode::with_number(mode_id);
                assert(found.discriminant() == mode.discriminant());
            }
        }
        mode
    }
}

/// The numbers that stand for a mode are these and no others.
pub proof fn lemma_midi_play_mode_numbers(id: u32)
    ensures
        MidiPlayMode::known(id) <==> (id == 0 || id == 1 || id == 2),
{
    if id == 0 {
        assert(MidiPlayMode::Normal.discriminant() == id);
    }
    if id == 1 {
        assert(MidiPlayMode::Cheat1.discriminant() == id);
    }
    if id == 2 {
        assert(MidiPlayMode::Cheat2.discriminant() == id);
    }
}

/// The number of a mode stands for that mode and no other.
pub proof fn lemma_midi_play_mode_round_trip(mode: MidiPlayMode)
    ensures
        MidiPlayMode::known(mode.discriminant()),
        MidiPlayMode::with_number(mode.discriminant()) == mode,
        forall|default: MidiPlayMode|
            MidiPlayMode::with_number_or(mode.discriminant(), default) == mode,
{
    let found = MidiPlayMode::with_number(mode.discriminant());
    assert(found.discriminant() == mode.discriminant());
}

/// No two modes share a number.
pub proof fn lemma_midi_play_mode_discriminants_differ(a: MidiPlayMode, b: MidiPlayMode)
    requires
        a.discriminant() == b.discriminant(),
    ensures
        a == b,
{
}

/// An envelope that modulates other parameters.
#[derive(Copy, Clone, Debug, PartialEq, Eq, Structural)]
pub struct ModulatorEnvelope {
    pub enabled: bool,
    pub envelope: Envelope,
    pub curve: Number,
}

/// How the synthesizer glides from note to note.
#[derive(Copy, Clone, Debug, PartialEq, Eq, Structural)]
pub enum PortamentoMode {
    Poly,
    Legato,
    LegatoNoRetrigger,
    Porta,
    PortaPoly,
}

impl PortamentoMode {
    /// The number that stands for the mode in a preset file.
    pub open spec fn discriminant(self) -> u32 {
        match self {
            PortamentoMode::Poly => 0,
            PortamentoMode::Legato => 1,
            PortamentoMode::LegatoNoRetrigger => 2,
            PortamentoMode::Porta => 3,
            PortamentoMode::PortaPoly => 4,
        }
    }

    /// Whether some mode has the number `id`.
    pub open spec fn known(id: u32) -> bool {
        exists|mode: PortamentoMode| mode.discriminant() == id
    }

    /// The mode with the number `id`, for a number that is known.
    pub open spec fn with_number(id: u32) -> PortamentoMode {
        choose|mode: PortamentoMode| mode.discriminant() == id
    }

    /// The mode with the number `id`, or `default` where no mode has
    /// that number.
    pub open spec fn with_number_or(id: u32, default: PortamentoMode) -> PortamentoMode {
        if PortamentoMode::known(id) {
            PortamentoMode::with_number(id)
        } else {
            default
        }
    }

    /// The number that stands for the mode in a preset file.
    pub fn code(self) -> (id: u32)
        ensures
            id == self.discriminant(),
    {
        match self {
            PortamentoMode::Poly => 0,
            PortamentoMode::Legato => 1,
            PortamentoMode::LegatoNoRetrigger => 2,
            PortamentoMode::Porta => 3,
            PortamentoMode::PortaPoly => 4,
        }
    }

    /// The mode with the number `mode_id`, or `default` where no mode
    /// has that number.
    pub fn from_or(mode_id: u32, default: PortamentoMode) -> (mode: PortamentoMode)
        ensures
            PortamentoMode::known(mode_id) ==> mode.discriminant() == mode_id,
            !PortamentoMode::known(mode_id) ==> mode == default,
            mode == PortamentoMode::with_number_or(mode_id, default),
    {
        let mode = match mode_id {
            0 => PortamentoMode::Poly,
            1 => PortamentoMode::Legato,
            2 => PortamentoMode::LegatoNoRetrigger,
            3 => PortamentoMode::Porta,
            4 => PortamentoMode::PortaPoly,
            _ => default,
        };
        proof {
            if mode.discriminant() == mode_id {
                assert(PortamentoMode::known(mode_id));
                let found = PortamentoMode::with_number(mode_id);
                assert(found.discriminant() == mode.discriminant());
            }
        }
        mode
    }
}

/// The numbers that stand for a mode are these and no others.
pub proof fn lemma_portamento_mode_numbers(id: u32)
    ensures
        PortamentoMode::known(id) <==> (id == 0 || id == 1 || id == 2 || id == 3 || id == 4),
{
    if id == 0 {
        assert(PortamentoMode::Poly.discriminant() == id);
    }
    if id == 1 {
        assert(PortamentoMode::Legato.discriminant() == id);
    }
    if id == 2 {
        assert(PortamentoMode::LegatoNoRetrigger.discriminant() == id);
    }
    if id == 3 {
        assert(PortamentoMode::Porta.discriminant() == id);
    }
    if id == 4 {
        assert(PortamentoMode::PortaPoly.discriminant() == id);
    }
}

/// The number of a mode stands for that mode and no other.
pub proof fn lemma_portamento_mode_round_trip(mode: PortamentoMode)
    ensures
        PortamentoMode::known(mode.discriminant()),
        PortamentoMode::with_number(mode.discriminant()) == mode,
        forall|default: PortamentoMode|
            PortamentoMode::with_number_or(mode.discriminant(), default) == mode,
{
    let found = PortamentoMode::with_number(mode.discriminant());
    assert(found.discriminant() == mode.discriminant());
}

/// No two modes share a number.
pub proof fn lemma_portamento_mode_discriminants_differ(a: PortamentoMode, b: PortamentoMode)
    requires
        a.discriminant() == b.discriminant(),
    ensures
        a == b,
{
}

/// The tuning of the keyboard.
#[derive(Copy, Clone, Debug, PartialEq, Eq)]
pub struct Tuning {
    pub transpose: Number,
    pub root_key: u32,
    pub scale: u32,
    /// The offsets of the twelve notes of an octave, from A natural up.
    pub tunings: [Number; 12],
}

/// The vibrato.
#[derive(Copy, Clone, Debug, PartialEq, Eq, Structural)]
pub struct Vibrato {
    pub enabled: bool,
    pub attack: Number,
    pub delay: Number,
    pub frequency: Number,
}

/// A preset of the synthesizer.
#[derive(Debug)]
pub struct Preset {
    pub name: String,
    pub description: Option<String>,
    /// The master volume from 0.0 to 1.0. The value 0.0 stands for silence,
    /// 0.5 for 0 dB and 1.0 for 10 dB.
    pub master_volume_normalized: Number,
    pub polyphony: u32,
    pub portamento_mode: PortamentoMode,
    pub midi_play_mode: MidiPlayMode,
    pub glide: Number,
    pub velocity_curve: Number,
    pub key_track_curve: Number,
    pub pitch_bend_range: Number,
    /// Whether the output is held to 0 dB by soft clipping.
    pub limit_enabled: bool,
    pub tuning: Tuning,
    pub envelope: Envelope,
    pub envelope_curve: Number,
    pub filter: Filter,
    pub filter_envelope_curve: Number,
    pub oscillators: Vec<Oscillator>,
    /// Whether the second oscillator starts over whenever the first does.
    pub hard_sync: bool,
    pub noise: Noise,
    pub lfos: Vec<Lfo>,
    pub mod_envelopes: Vec<ModulatorEnvelope>,
    pub vibrato: Vibrato,
    pub matrix: Vec<MatrixItem>,
    pub effect_order: Vec<EffectType>,
    pub chorus: Chorus,
    pub delay: Delay,
    pub distortion: Distortion,
    pub equalizer: Equalizer,
    pub effect_filter: Filter,
    pub lofi: LoFi,
    pub reverb: Reverb,
}

/// What a [`Preset`] holds, as plain values.
pub struct PresetView {
    pub name: Seq<char>,
    pub description: Option<Seq<char>>,
    pub master_volume_normalized: Number,
    pub polyphony: u32,
    pub portamento_mode: PortamentoMode,
    pub midi_play_mode: MidiPlayMode,
    pub glide: Number,
    pub velocity_curve: Number,
    pub key_track_curve: Number,
    pub pitch_bend_range: Number,
    pub limit_enabled: bool,
    pub tuning: Tuning,
    pub envelope: Envelope,
    pub envelope_curve: Number,
    pub filter: Filter,
    pub filter_envelope_curve: Number,
    pub oscillators: Seq<Oscillator>,
    pub hard_sync: bool,
    pub noise: Noise,
    pub lfos: Seq<Lfo>,
    pub mod_envelopes: Seq<ModulatorEnvelope>,
    pub vibrato: Vibrato,
    pub matrix: Seq<MatrixItem>,
    pub effect_order: Seq<EffectType>,
    pub chorus: Chorus,
    pub delay: Delay,
    pub distortion: Distortion,
    pub equalizer: Equalizer,
    pub effect_filter: Filter,
    pub lofi: LoFi,
    pub reverb: Reverb,
}

impl View for Preset {
    type V = PresetView;

    open spec fn view(&self) -> PresetView {
        PresetView {
            name: self.name@,
            description: match self.description {
                Some(text) => Some(text@),
                None => None,
            },
            master_volume_normalized: self.master_volume_normalized,
            polyphony: self.polyphony,
            portamento_mode: self.portamento_mode,
            midi_play_mode: self.midi_play_mode,
            glide: self.glide,
            velocity_curve: self.velocity_curve,
            key_track_curve: self.key_track_curve,
            pitch_bend_range: self.pitch_bend_range,
            limit_enabled: self.limit_enabled,
            tuning: self.tuning,
            envelope: self.envelope,
            envelope_curve: self.envelope_curve,
            filter: self.filter,
            filter_envelope_curve: self.filter_envelope_curve,
            oscillators: self.oscillators@,
            hard_sync: self.hard_sync,
            noise: self.noise,
            lfos: self.lfos@,
            mod_envelopes: self.mod_envelopes@,
            vibrato: self.vibrato,
            matrix: self.matrix@,
            effect_order: self.effect_order@,
            chorus: self.chorus,
            delay: self.delay,
            distortion: self.distortion,
            equalizer: self.equalizer,
            effect_filter: self.effect_filter,
            lofi: self.lofi,
            reverb: self.reverb,
        }
    }
}

/// Where `effect_type` first stands in `order`, or the length of `order` if
/// it does not stand there.
pub open spec fn first_position(order: Seq<EffectType>, effect_type: EffectType) -> int
    decreases order.len(),
{
    if order.len() == 0 {
        0
    } else if order[0] == effect_type {
        0
    } else {
        1 + first_position(order.drop_first(), effect_type)
    }
}

/// The first position is in range, holds the effect type if it is inside
/// the order, and no place before it does.
pub proof fn lemma_first_position(order: Seq<EffectType>, effect_type: EffectType)
    ensures
        0 <= first_position(order, effect_type) <= order.len(),
        first_position(order, effect_type) < order.len() ==> order[first_position(
            order,
            effect_type,
        )] == effect_type,
        forall|i: int|
            0 <= i < first_position(order, effect_type) ==> #[trigger] order[i] != effect_type,
    decreases order.len(),
{
    if order.len() > 0 && order[0] != effect_type {
        let rest = order.drop_first();
        lemma_first_position(rest, effect_type);
        assert forall|i: int| 0 <= i < first_position(
            order,
            effect_type,
        ) implies #[trigger] order[i]
            != effect_type by {
            if i > 0 {
                assert(order[i] == rest[i - 1]);
            }
        }
    }
}

impl PresetView {
    /// The preset has three oscillators, two low-frequency oscillators, two
    /// modulator envelopes, eight rows in its matrix and seven places in the
    /// order of its effects.
    pub open spec fn well_formed(self) -> bool {
        &&& self.oscillators.len() == 3
        &&& self.lfos.len() == 2
        &&& self.mod_envelopes.len() == 2
        &&& self.matrix.len() == 8
        &&& self.effect_order.len() == 7
    }
}

impl Preset {
    /// The place of `effect_type` in the order of the effects, counted from
    /// zero: the first place that holds it, or `None` where no place does.
    /// A place from 256 on is given modulo 256.
    pub fn effect_position(&self, effect_type: EffectType) -> (r: Option<u8>)
        ensures
            r == if first_position(self@.effect_order, effect_type) < self@.effect_order.len() {
                Some((first_position(self@.effect_order, effect_type) % 256) as u8)
            } else {
                None
            },
    {
        let mut index: usize = 0;
        while index < self.effect_order.len()
            invariant
                index <= self.effect_order.len(),
                forall|i: int| 0 <= i < index ==> #[trigger] self.effect_order@[i] != effect_type,
            decreases self.effect_order.len() - index,
        {
            if self.effect_order[index] == effect_type {
                proof {
                    lemma_first_position(self@.effect_order, effect_type);
                    let first = first_position(self@.effect_order, effect_type);
                    if first < index {
                        assert(self.effect_order@[first] != effect_type);
                    }
                }
                return Some((index % 256) as u8);
            }
            index = index + 1;
        }
        proof {
            lemma_first_position(self@.effect_order, effect_type);
        }
        None
    }
}

} // verus!
