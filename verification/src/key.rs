//! The identifiers that a preset file gives its parameters.
//!
//! A parameter is known by the part of the preset that it belongs to and by
//! what it sets there. Each has one identifier in a preset file, and no two
//! share one.

use vstd::prelude::*;

verus! {

/// Which envelope a parameter belongs to.
#[derive(Copy, Clone, Debug, PartialEq, Eq, Structural)]
pub enum EnvelopeSlot {
    Main,
    Filter,
    Modulator1,
    Modulator2,
}

/// Which of the three oscillators a parameter belongs to.
#[derive(Copy, Clone, Debug, PartialEq, Eq, Structural)]
pub enum OscillatorSlot {
    First,
    Second,
    Third,
}

/// Which of a pair of modulators a parameter belongs to.
#[derive(Copy, Clone, Debug, PartialEq, Eq, Structural)]
pub enum PairSlot {
    First,
    Second,
}

/// Which row of the modulation matrix a parameter belongs to.
#[derive(Copy, Clone, Debug, PartialEq, Eq, Structural)]
pub enum MatrixSlot {
    First,
    Second,
    Third,
    Fourth,
    Fifth,
    Sixth,
    Seventh,
    Eighth,
}

/// The parameters of an envelope.
#[derive(Copy, Clone, Debug, PartialEq, Eq, Structural)]
pub enum EnvelopeField {
    Attack,
    AttackCurve,
    Decay,
    DecayFalloff,
    Sustain,
    Release,
    ReleaseFalloff,
}

/// The parameters of the tuning.
#[derive(Copy, Clone, Debug, PartialEq, Eq, Structural)]
pub enum TuningField {
    A,
    ASharp,
    B,
    C,
    CSharp,
    D,
    DSharp,
    E,
    F,
    FSharp,
    G,
    GSharp,
    Transpose,
}

/// The parameters of the filter.
#[derive(Copy, Clone, Debug, PartialEq, Eq, Structural)]
pub enum FilterField {
    Switch,
    Type,
    Resonance,
    Cutoff,
    KeyTracking,
    EnvelopeAmount,
    DriveSwitch,
    DriveType,
    Drive,
}

/// The parameters of an oscillator.
#[derive(Copy, Clone, Debug, PartialEq, Eq, Structural)]
pub enum OscillatorField {
    Switch,
    Waveform,
    Invert,
    Pan,
    Phase,
    Pitch,
    Fine,
    Semitone,
    Octave,
    Reverse,
    FreeRun,
    SyncAll,
    Volume,
    UnisonVoices,
    UnisonDetune,
    UnisonSpread,
    UnisonMix,
    AmplitudeModulationSwitch,
    AmplitudeModulation,
    FrequencyModulationSwitch,
    FrequencyModulation,
    RingModulationSwitch,
    RingModulation,
}

/// The parameters of the noise generator.
#[derive(Copy, Clone, Debug, PartialEq, Eq, Structural)]
pub enum NoiseField {
    Switch,
    Width,
    Pan,
    Volume,
}

/// The parameters of a low-frequency oscillator.
#[derive(Copy, Clone, Debug, PartialEq, Eq, Structural)]
pub enum LfoField {
    Switch,
    Waveform,
    Sync,
    Invert,
    Reverse,
    Mono,
    FreeRun,
    Frequency,
    Phase,
}

/// The parameters of a modulator envelope.
#[derive(Copy, Clone, Debug, PartialEq, Eq, Structural)]
pub enum ModulatorField {
    Switch,
    Curve,
}

/// The parameters of the vibrato.
#[derive(Copy, Clone, Debug, PartialEq, Eq, Structural)]
pub enum VibratoField {
    Switch,
    Attack,
    Frequency,
    Delay,
}

/// The parameters of a row of the modulation matrix.
#[derive(Copy, Clone, Debug, PartialEq, Eq, Structural)]
pub enum MatrixField {
    Source,
    Target,
    Amount,
}

/// The parameters of the chorus.
#[derive(Copy, Clone, Debug, PartialEq, Eq, Structural)]
pub enum ChorusField {
    Switch,
    Depth,
    Mix,
    PreDelay,
    Ratio,
}

/// The parameters of the delay.
#[derive(Copy, Clone, Debug, PartialEq, Eq, Structural)]
pub enum DelayField {
    Switch,
    PingPong,
    Feedback,
    Filter,
    FilterMode,
    Sync,
    Time,
    Mix,
}

/// The parameters of the distortion.
#[derive(Copy, Clone, Debug, PartialEq, Eq, Structural)]
pub enum DistortionField {
    Switch,
    Gain,
}

/// The parameters of the equalizer.
#[derive(Copy, Clone, Debug, PartialEq, Eq, Structural)]
pub enum EqualizerField {
    Switch,
    High,
    Low,
    Mid,
}

/// The parameters of the filter among the effects.
#[derive(Copy, Clone, Debug, PartialEq, Eq, Structural)]
pub enum EffectFilterField {
    Switch,
    Type,
    Resonance,
    Cutoff,
}

/// The parameters of the bit and sample rate reducer.
#[derive(Copy, Clone, Debug, PartialEq, Eq, Structural)]
pub enum LoFiField {
    Switch,
    BitRate,
    SampleRate,
    Mix,
}

/// The parameters of the reverb.
#[derive(Copy, Clone, Debug, PartialEq, Eq, Structural)]
pub enum ReverbField {
    Switch,
    Dampen,
    Room,
    Filter,
    Width,
    Mix,
}

/// The parameters of the preset as a whole.
#[derive(Copy, Clone, Debug, PartialEq, Eq, Structural)]
pub enum SettingField {
    MasterVolume,
    Polyphony,
    PortamentoMode,
    MidiPlayMode,
    Glide,
    VelocityCurve,
    KeyTrackCurve,
    PitchBendRange,
    LimitSwitch,
    EnvelopeCurve,
    FilterEnvelopeCurve,
    HardSync,
    Pitch,
}

/// A parameter that the reader knows: the part of the preset that it belongs
/// to, and what it sets there.
#[derive(Copy, Clone, Debug, PartialEq, Eq, Structural)]
pub enum ParamKey {
    Envelope(EnvelopeSlot, EnvelopeField),
    Tuning(TuningField),
    Filter(FilterField),
    Oscillator(OscillatorSlot, OscillatorField),
    Noise(NoiseField),
    Lfo(PairSlot, LfoField),
    Modulator(PairSlot, ModulatorField),
    Vibrato(VibratoField),
    Matrix(MatrixSlot, MatrixField),
    Chorus(ChorusField),
    Delay(DelayField),
    Distortion(DistortionField),
    Equalizer(EqualizerField),
    EffectFilter(EffectFilterField),
    LoFi(LoFiField),
    Reverb(ReverbField),
    Settings(SettingField),
}

/// A part of the preset whose parameters are read together.
#[derive(Copy, Clone, Debug, PartialEq, Eq, Structural)]
pub enum Group {
    Envelope(EnvelopeSlot),
    Tuning,
    Filter,
    Oscillator(OscillatorSlot),
    Noise,
    Lfo(PairSlot),
    Modulator(PairSlot),
    Vibrato,
    Matrix(MatrixSlot),
    Chorus,
    Delay,
    Distortion,
    Equalizer,
    EffectFilter,
    LoFi,
    Reverb,
    Settings,
}

impl ParamKey {
    /// The identifier under which a preset file holds the parameter.
    pub open spec fn id_text(self) -> Seq<char> {
        match self {
            ParamKey::Envelope(slot, field) => match field {
                EnvelopeField::Attack => match slot {
                    EnvelopeSlot::Main => "EnvAttack"@,
                    EnvelopeSlot::Filter => "FilterEnvAttack"@,
                    EnvelopeSlot::Modulator1 => "ModEnvAttack_1"@,
                    EnvelopeSlot::Modulator2 => "ModEnvAttack_2"@,
                },
                EnvelopeField::AttackCurve => match slot {
                    EnvelopeSlot::Main => "AttCurveType"@,
                    EnvelopeSlot::Filter => "FilterAttCurveType"@,
                    EnvelopeSlot::Modulator1 => "ModAttCurveType_1"@,
                    EnvelopeSlot::Modulator2 => "ModAttCurveType_2"@,
                },
                EnvelopeField::Decay => match slot {
                    EnvelopeSlot::Main => "EnvDecay"@,
                    EnvelopeSlot::Filter => "FilterEnvDecay"@,
                    EnvelopeSlot::Modulator1 => "ModEnvDecay_1"@,
                    EnvelopeSlot::Modulator2 => "ModEnvDecay_2"@,
                },
                EnvelopeField::DecayFalloff => match slot {
                    EnvelopeSlot::Main => "DecCurveType"@,
                    EnvelopeSlot::Filter => "FilterDecCurveType"@,
                    EnvelopeSlot::Modulator1 => "ModDecCurveType_1"@,
                    EnvelopeSlot::Modulator2 => "ModDecCurveType_2"@,
                },
                EnvelopeField::Sustain => match slot {
                    EnvelopeSlot::Main => "EnvSustain"@,
                    EnvelopeSlot::Filter => "FilterEnvSustain"@,
                    EnvelopeSlot::Modulator1 => "ModEnvSustain_1"@,
                    EnvelopeSlot::Modulator2 => "ModEnvSustain_2"@,
                },
                EnvelopeField::Release => match slot {
                    EnvelopeSlot::Main => "EnvRelease"@,
                    EnvelopeSlot::Filter => "FilterEnvRelease"@,
                    EnvelopeSlot::Modulator1 => "ModEnvRelease_1"@,
                    EnvelopeSlot::Modulator2 => "ModEnvRelease_2"@,
                },
                EnvelopeField::ReleaseFalloff => match slot {
                    EnvelopeSlot::Main => "RelCurveType"@,
                    EnvelopeSlot::Filter => "FilterRelCurveType"@,
                    EnvelopeSlot::Modulator1 => "ModRelCurveType_1"@,
                    EnvelopeSlot::Modulator2 => "ModRelCurveType_2"@,
                },
            },
            ParamKey::Tuning(field) => match field {
                TuningField::A => "TuneA"@,
                TuningField::ASharp => "TuneASharp"@,
                TuningField::B => "TuneB"@,
                TuningField::C => "TuneC"@,
                TuningField::CSharp => "TuneCSharp"@,
                TuningField::D => "TuneD"@,
                TuningField::DSharp => "TuneDSharp"@,
                TuningField::E => "TuneE"@,
                TuningField::F => "TuneF"@,
                TuningField::FSharp => "TuneFSharp"@,
                TuningField::G => "TuneG"@,
                TuningField::GSharp => "TuneGSharp"@,
                TuningField::Transpose => "Transpose"@,
            },
            ParamKey::Filter(field) => match field {
                FilterField::Switch => "FilterSwitch"@,
                FilterField::Type => "FilterType"@,
                FilterField::Resonance => "FilterRes"@,
                FilterField::Cutoff => "FilterCut"@,
                FilterField::KeyTracking => "FilterKey"@,
                FilterField::EnvelopeAmount => "FilterEnv"@,
                FilterField::DriveSwitch => "FilterDriveSwitch"@,
                FilterField::DriveType => "FilterDriveType"@,
                FilterField::Drive => "FilterDrive"@,
            },
            ParamKey::Oscillator(slot, field) => match field {
                OscillatorField::Switch => match slot {
                    OscillatorSlot::First => "OSCSwitch_1"@,
                    OscillatorSlot::Second => "OSCSwitch_2"@,
                    OscillatorSlot::Third => "OSCSwitch_3"@,
                },
                OscillatorField::Waveform => match slot {
                    OscillatorSlot::First => "OSCWaveType_1"@,
                    OscillatorSlot::Second => "OSCWaveType_2"@,
                    OscillatorSlot::Third => "OSCWaveType_3"@,
                },
                OscillatorField::Invert => match slot {
                    OscillatorSlot::First => "OSCInvert_1"@,
                    OscillatorSlot::Second => "OSCInvert_2"@,
                    OscillatorSlot::Third => "OSCInvert_3"@,
                },
                OscillatorField::Pan => match slot {
                    OscillatorSlot::First => "OSCPan_1"@,
                    OscillatorSlot::Second => "OSCPan_2"@,
                    OscillatorSlot::Third => "OSCPan_3"@,
                },
                OscillatorField::Phase => match slot {
                    OscillatorSlot::First => "OSCPhase_1"@,
                    OscillatorSlot::Second => "OSCPhase_2"@,
                    OscillatorSlot::Third => "OSCPhase_3"@,
                },
                OscillatorField::Pitch => match slot {
                    OscillatorSlot::First => "OSCPitch_1"@,
                    OscillatorSlot::Second => "OSCPitch_2"@,
                    OscillatorSlot::Third => "OSCPitch_3"@,
                },
                OscillatorField::Fine => match slot {
                    OscillatorSlot::First => "OSCFine_1"@,
                    OscillatorSlot::Second => "OSCFine_2"@,
                    OscillatorSlot::Third => "OSCFine_3"@,
                },
                OscillatorField::Semitone => match slot {
                    OscillatorSlot::First => "OSCSemi_1"@,
                    OscillatorSlot::Second => "OSCSemi_2"@,
                    OscillatorSlot::Third => "OSCSemi_3"@,
                },
                OscillatorField::Octave => match slot {
                    OscillatorSlot::First => "OSCOctave_1"@,
                    OscillatorSlot::Second => "OSCOctave_2"@,
                    OscillatorSlot::Third => "OSCOctave_3"@,
                },
                OscillatorField::Reverse => match slot {
                    OscillatorSlot::First => "OSCReverse_1"@,
                    OscillatorSlot::Second => "OSCReverse_2"@,
                    OscillatorSlot::Third => "OSCReverse_3"@,
                },
                OscillatorField::FreeRun => match slot {
                    OscillatorSlot::First => "OSCFreeRun_1"@,
                    OscillatorSlot::Second => "OSCFreeRun_2"@,
                    OscillatorSlot::Third => "OSCFreeRun_3"@,
                },
                OscillatorField::SyncAll => match slot {
                    OscillatorSlot::First => "OSCSyncAll_1"@,
                    OscillatorSlot::Second => "OSCSyncAll_2"@,
                    OscillatorSlot::Third => "OSCSyncAll_3"@,
                },
                OscillatorField::Volume => match slot {
                    OscillatorSlot::First => "OSCVol_1"@,
                    OscillatorSlot::Second => "OSCVol_2"@,
                    OscillatorSlot::Third => "OSCVol_3"@,
                },
                OscillatorField::UnisonVoices => match slot {
                    OscillatorSlot::First => "OSCNumVoice_1"@,
                    OscillatorSlot::Second => "OSCNumVoice_2"@,
                    OscillatorSlot::Third => "OSCNumVoice_3"@,
                },
                OscillatorField::UnisonDetune => match slot {
                    OscillatorSlot::First => "OSCDetune_1"@,
                    OscillatorSlot::Second => "OSCDetune_2"@,
                    OscillatorSlot::Third => "OSCDetune_3"@,
                },
                OscillatorField::UnisonSpread => match slot {
                    OscillatorSlot::First => "OSCSpread_1"@,
                    OscillatorSlot::Second => "OSCSpread_2"@,
                    OscillatorSlot::Third => "OSCSpread_3"@,
                },
                OscillatorField::UnisonMix => match slot {
                    OscillatorSlot::First => "OSCUniMix_1"@,
                    OscillatorSlot::Second => "OSCUniMix_2"@,
                    OscillatorSlot::Third => "OSCUniMix_3"@,
                },
                OscillatorField::AmplitudeModulationSwitch => match slot {
                    OscillatorSlot::First => "OSCAMSwitch_1"@,
                    OscillatorSlot::Second => "OSCAMSwitch_2"@,
                    OscillatorSlot::Third => "OSCAMSwitch_3"@,
                },
                OscillatorField::AmplitudeModulation => match slot {
                    OscillatorSlot::First => "OSCAM_1"@,
                    OscillatorSlot::Second => "OSCAM_2"@,
                    OscillatorSlot::Third => "OSCAM_3"@,
                },
                OscillatorField::FrequencyModulationSwitch => match slot {
                    OscillatorSlot::First => "OSCFMSwitch_1"@,
                    OscillatorSlot::Second => "OSCFMSwitch_2"@,
                    OscillatorSlot::Third => "OSCFMSwitch_3"@,
                },
                OscillatorField::FrequencyModulation => match slot {
                    OscillatorSlot::First => "OSCFM_1"@,
                    OscillatorSlot::Second => "OSCFM_2"@,
                    OscillatorSlot::Third => "OSCFM_3"@,
                },
                OscillatorField::RingModulationSwitch => match slot {
                    OscillatorSlot::First => "OSCRMSwitch_1"@,
                    OscillatorSlot::Second => "OSCRMSwitch_2"@,
                    OscillatorSlot::Third => "OSCRMSwitch_3"@,
                },
                OscillatorField::RingModulation => match slot {
                    OscillatorSlot::First => "OSCRM_1"@,
                    OscillatorSlot::Second => "OSCRM_2"@,
                    OscillatorSlot::Third => "OSCRM_3"@,
                },
            },
            ParamKey::Noise(field) => match field {
                NoiseField::Switch => "OSCSwitch_N"@,
                NoiseField::Width => "OSCWidth_N"@,
                NoiseField::Pan => "OSCPan_N"@,
                NoiseField::Volume => "OSCVol_N"@,
            },
            ParamKey::Lfo(slot, field) => match field {
                LfoField::Switch => match slot {
                    PairSlot::First => "LFOSwitch_1"@,
                    PairSlot::Second => "LFOSwitch_2"@,
                },
                LfoField::Waveform => match slot {
                    PairSlot::First => "LFOWaveType_1"@,
                    PairSlot::Second => "LFOWaveType_2"@,
                },
                LfoField::Sync => match slot {
                    PairSlot::First => "LFOSync_1"@,
                    PairSlot::Second => "LFOSync_2"@,
                },
                LfoField::Invert => match slot {
                    PairSlot::First => "LFOInvert_1"@,
                    PairSlot::Second => "LFOInvert_2"@,
                },
                LfoField::Reverse => match slot {
                    PairSlot::First => "LFOReverse_1"@,
                    PairSlot::Second => "LFOReverse_2"@,
                },
                LfoField::Mono => match slot {
                    PairSlot::First => "LFOMono_1"@,
                    PairSlot::Second => "LFOMono_2"@,
                },
                LfoField::FreeRun => match slot {
                    PairSlot::First => "LFOFreeRun_1"@,
                    PairSlot::Second => "LFOFreeRun_2"@,
                },
                LfoField::Frequency => match slot {
                    PairSlot::First => "LFOFreq_1"@,
                    PairSlot::Second => "LFOFreq_2"@,
                },
                LfoField::Phase => match slot {
                    PairSlot::First => "LFOPhase_1"@,
                    PairSlot::Second => "LFOPhase_2"@,
                },
            },
            ParamKey::Modulator(slot, field) => match field {
                ModulatorField::Switch => match slot {
                    PairSlot::First => "ModEnvSwitch_1"@,
                    PairSlot::Second => "ModEnvSwitch_2"@,
                },
                ModulatorField::Curve => match slot {
                    PairSlot::First => "ModEnvCurveType_1"@,
                    PairSlot::Second => "ModEnvCurveType_2"@,
                },
            },
            ParamKey::Vibrato(field) => match field {
                VibratoField::Switch => "VibSwitch"@,
                VibratoField::Attack => "VibAttack"@,
                VibratoField::Frequency => "VibFrequency"@,
                VibratoField::Delay => "VibDelay"@,
            },
            ParamKey::Matrix(slot, field) => match field {
                MatrixField::Source => match slot {
                    MatrixSlot::First => "MatrixSource_1"@,
                    MatrixSlot::Second => "MatrixSource_2"@,
                    MatrixSlot::Third => "MatrixSource_3"@,
                    MatrixSlot::Fourth => "MatrixSource_4"@,
                    MatrixSlot::Fifth => "MatrixSource_5"@,
                    MatrixSlot::Sixth => "MatrixSource_6"@,
                    MatrixSlot::Seventh => "MatrixSource_7"@,
                    MatrixSlot::Eighth => "MatrixSource_8"@,
                },
                MatrixField::Target => match slot {
                    MatrixSlot::First => "MatrixTarget_1"@,
                    MatrixSlot::Second => "MatrixTarget_2"@,
                    MatrixSlot::Third => "MatrixTarget_3"@,
                    MatrixSlot::Fourth => "MatrixTarget_4"@,
                    MatrixSlot::Fifth => "MatrixTarget_5"@,
                    MatrixSlot::Sixth => "MatrixTarget_6"@,
                    MatrixSlot::Seventh => "MatrixTarget_7"@,
                    MatrixSlot::Eighth => "MatrixTarget_8"@,
                },
                MatrixField::Amount => match slot {
                    MatrixSlot::First => "MatrixAmount_1"@,
                    MatrixSlot::Second => "MatrixAmount_2"@,
                    MatrixSlot::Third => "MatrixAmount_3"@,
                    MatrixSlot::Fourth => "MatrixAmount_4"@,
                    MatrixSlot::Fifth => "MatrixAmount_5"@,
                    MatrixSlot::Sixth => "MatrixAmount_6"@,
                    MatrixSlot::Seventh => "MatrixAmount_7"@,
                    MatrixSlot::Eighth => "MatrixAmount_8"@,
                },
            },
            ParamKey::Chorus(field) => match field {
                ChorusField::Switch => "ChorusSwitch"@,
                ChorusField::Depth => "ChorusDepth"@,
                ChorusField::Mix => "ChorusMix"@,
                ChorusField::PreDelay => "ChorusPdelay"@,
                ChorusField::Ratio => "ChorusRatio"@,
            },
            ParamKey::Delay(field) => match field {
                DelayField::Switch => "DelaySwitch"@,
                DelayField::PingPong => "DelayMode"@,
                DelayField::Feedback => "DelayFeed"@,
                DelayField::Filter => "DelayLP"@,
                DelayField::FilterMode => "DelayFilterMode"@,
                DelayField::Sync => "DelaySync"@,
                DelayField::Time => "DelayTime"@,
                DelayField::Mix => "DelayMix"@,
            },
            ParamKey::Distortion(field) => match field {
                DistortionField::Switch => "DistSwitch"@,
                DistortionField::Gain => "DistGain"@,
            },
            ParamKey::Equalizer(field) => match field {
                EqualizerField::Switch => "EQSwitch"@,
                EqualizerField::High => "EQHigh"@,
                EqualizerField::Low => "EQLow"@,
                EqualizerField::Mid => "EQMid"@,
            },
            ParamKey::EffectFilter(field) => match field {
                EffectFilterField::Switch => "FXFilterSwitch"@,
                EffectFilterField::Type => "FXFilterType"@,
                EffectFilterField::Resonance => "FXFilterRes"@,
                EffectFilterField::Cutoff => "FXFilterCut"@,
            },
            ParamKey::LoFi(field) => match field {
                LoFiField::Switch => "LoFiSwitch"@,
                LoFiField::BitRate => "LoFiBitRate"@,
                LoFiField::SampleRate => "LoFiSampleRate"@,
                LoFiField::Mix => "LoFiMix"@,
            },
            ParamKey::Reverb(field) => match field {
                ReverbField::Switch => "ReverbSwitch"@,
                ReverbField::Dampen => "ReverbDamp"@,
                ReverbField::Room => "ReverbRoom"@,
                ReverbField::Filter => "ReverbLP"@,
                ReverbField::Width => "ReverbWidth"@,
                ReverbField::Mix => "ReverbMix"@,
            },
            ParamKey::Settings(field) => match field {
                SettingField::MasterVolume => "MainVol"@,
                SettingField::Polyphony => "MaxVoices"@,
                SettingField::PortamentoMode => "PortaMode"@,
                SettingField::MidiPlayMode => "MidiPlayMode"@,
                SettingField::Glide => "Glide"@,
                SettingField::VelocityCurve => "VeloCurve"@,
                SettingField::KeyTrackCurve => "KeyTrackCurve"@,
                SettingField::PitchBendRange => "PBRange"@,
                SettingField::LimitSwitch => "LimitSwitch"@,
                SettingField::EnvelopeCurve => "EnvCurveType"@,
                SettingField::FilterEnvelopeCurve => "FilterEnvCurveType"@,
                SettingField::HardSync => "OSCSync21"@,
                SettingField::Pitch => "PCH"@,
            },
        }
    }

    /// The part of the preset that the parameter belongs to.
    pub open spec fn group(self) -> Group {
        match self {
            ParamKey::Envelope(slot, _) => Group::Envelope(slot),
            ParamKey::Tuning(_) => Group::Tuning,
            ParamKey::Filter(_) => Group::Filter,
            ParamKey::Oscillator(slot, _) => Group::Oscillator(slot),
            ParamKey::Noise(_) => Group::Noise,
            ParamKey::Lfo(slot, _) => Group::Lfo(slot),
            ParamKey::Modulator(slot, _) => Group::Modulator(slot),
            ParamKey::Vibrato(_) => Group::Vibrato,
            ParamKey::Matrix(slot, _) => Group::Matrix(slot),
            ParamKey::Chorus(_) => Group::Chorus,
            ParamKey::Delay(_) => Group::Delay,
            ParamKey::Distortion(_) => Group::Distortion,
            ParamKey::Equalizer(_) => Group::Equalizer,
            ParamKey::EffectFilter(_) => Group::EffectFilter,
            ParamKey::LoFi(_) => Group::LoFi,
            ParamKey::Reverb(_) => Group::Reverb,
            ParamKey::Settings(_) => Group::Settings,
        }
    }

    /// The identifier under which a preset file holds the parameter.
    pub fn id(self) -> (text: &'static str)
        ensures
            text@ == self.id_text(),
    {
        match self {
            ParamKey::Envelope(slot, field) => match field {
                EnvelopeField::Attack => match slot {
                    EnvelopeSlot::Main => "EnvAttack",
                    EnvelopeSlot::Filter => "FilterEnvAttack",
                    EnvelopeSlot::Modulator1 => "ModEnvAttack_1",
                    EnvelopeSlot::Modulator2 => "ModEnvAttack_2",
                },
                EnvelopeField::AttackCurve => match slot {
                    EnvelopeSlot::Main => "AttCurveType",
                    EnvelopeSlot::Filter => "FilterAttCurveType",
                    EnvelopeSlot::Modulator1 => "ModAttCurveType_1",
                    EnvelopeSlot::Modulator2 => "ModAttCurveType_2",
                },
                EnvelopeField::Decay => match slot {
                    EnvelopeSlot::Main => "EnvDecay",
                    EnvelopeSlot::Filter => "FilterEnvDecay",
                    EnvelopeSlot::Modulator1 => "ModEnvDecay_1",
                    EnvelopeSlot::Modulator2 => "ModEnvDecay_2",
                },
                EnvelopeField::DecayFalloff => match slot {
                    EnvelopeSlot::Main => "DecCurveType",
                    EnvelopeSlot::Filter => "FilterDecCurveType",
                    EnvelopeSlot::Modulator1 => "ModDecCurveType_1",
                    EnvelopeSlot::Modulator2 => "ModDecCurveType_2",
                },
                EnvelopeField::Sustain => match slot {
                    EnvelopeSlot::Main => "EnvSustain",
                    EnvelopeSlot::Filter => "FilterEnvSustain",
                    EnvelopeSlot::Modulator1 => "ModEnvSustain_1",
                    EnvelopeSlot::Modulator2 => "ModEnvSustain_2",
                },
                EnvelopeField::Release => match slot {
                    EnvelopeSlot::Main => "EnvRelease",
                    EnvelopeSlot::Filter => "FilterEnvRelease",
                    EnvelopeSlot::Modulator1 => "ModEnvRelease_1",
                    EnvelopeSlot::Modulator2 => "ModEnvRelease_2",
                },
                EnvelopeField::ReleaseFalloff => match slot {
                    EnvelopeSlot::Main => "RelCurveType",
                    EnvelopeSlot::Filter => "FilterRelCurveType",
                    EnvelopeSlot::Modulator1 => "ModRelCurveType_1",
                    EnvelopeSlot::Modulator2 => "ModRelCurveType_2",
                },
            },
            ParamKey::Tuning(field) => match field {
                TuningField::A => "TuneA",
                TuningField::ASharp => "TuneASharp",
                TuningField::B => "TuneB",
                TuningField::C => "TuneC",
                TuningField::CSharp => "TuneCSharp",
                TuningField::D => "TuneD",
                TuningField::DSharp => "TuneDSharp",
                TuningField::E => "TuneE",
                TuningField::F => "TuneF",
                TuningField::FSharp => "TuneFSharp",
                TuningField::G => "TuneG",
                TuningField::GSharp => "TuneGSharp",
                TuningField::Transpose => "Transpose",
            },
            ParamKey::Filter(field) => match field {
                FilterField::Switch => "FilterSwitch",
                FilterField::Type => "FilterType",
                FilterField::Resonance => "FilterRes",
                FilterField::Cutoff => "FilterCut",
                FilterField::KeyTracking => "FilterKey",
                FilterField::EnvelopeAmount => "FilterEnv",
                FilterField::DriveSwitch => "FilterDriveSwitch",
                FilterField::DriveType => "FilterDriveType",
                FilterField::Drive => "FilterDrive",
            },
            ParamKey::Oscillator(slot, field) => match field {
                OscillatorField::Switch => match slot {
                    OscillatorSlot::First => "OSCSwitch_1",
                    OscillatorSlot::Second => "OSCSwitch_2",
                    OscillatorSlot::Third => "OSCSwitch_3",
                },
                OscillatorField::Waveform => match slot {
                    OscillatorSlot::First => "OSCWaveType_1",
                    OscillatorSlot::Second => "OSCWaveType_2",
                    OscillatorSlot::Third => "OSCWaveType_3",
                },
                OscillatorField::Invert => match slot {
                    OscillatorSlot::First => "OSCInvert_1",
                    OscillatorSlot::Second => "OSCInvert_2",
                    OscillatorSlot::Third => "OSCInvert_3",
                },
                OscillatorField::Pan => match slot {
                    OscillatorSlot::First => "OSCPan_1",
                    OscillatorSlot::Second => "OSCPan_2",
                    OscillatorSlot::Third => "OSCPan_3",
                },
                OscillatorField::Phase => match slot {
                    OscillatorSlot::First => "OSCPhase_1",
                    OscillatorSlot::Second => "OSCPhase_2",
                    OscillatorSlot::Third => "OSCPhase_3",
                },
                OscillatorField::Pitch => match slot {
                    OscillatorSlot::First => "OSCPitch_1",
                    OscillatorSlot::Second => "OSCPitch_2",
                    OscillatorSlot::Third => "OSCPitch_3",
                },
                OscillatorField::Fine => match slot {
                    OscillatorSlot::First => "OSCFine_1",
                    OscillatorSlot::Second => "OSCFine_2",
                    OscillatorSlot::Third => "OSCFine_3",
                },
                OscillatorField::Semitone => match slot {
                    OscillatorSlot::First => "OSCSemi_1",
                    OscillatorSlot::Second => "OSCSemi_2",
                    OscillatorSlot::Third => "OSCSemi_3",
                },
                OscillatorField::Octave => match slot {
                    OscillatorSlot::First => "OSCOctave_1",
                    OscillatorSlot::Second => "OSCOctave_2",
                    OscillatorSlot::Third => "OSCOctave_3",
                },
                OscillatorField::Reverse => match slot {
                    OscillatorSlot::First => "OSCReverse_1",
                    OscillatorSlot::Second => "OSCReverse_2",
                    OscillatorSlot::Third => "OSCReverse_3",
                },
                OscillatorField::FreeRun => match slot {
                    OscillatorSlot::First => "OSCFreeRun_1",
                    OscillatorSlot::Second => "OSCFreeRun_2",
                    OscillatorSlot::Third => "OSCFreeRun_3",
                },
                OscillatorField::SyncAll => match slot {
                    OscillatorSlot::First => "OSCSyncAll_1",
                    OscillatorSlot::Second => "OSCSyncAll_2",
                    OscillatorSlot::Third => "OSCSyncAll_3",
                },
                OscillatorField::Volume => match slot {
                    OscillatorSlot::First => "OSCVol_1",
                    OscillatorSlot::Second => "OSCVol_2",
                    OscillatorSlot::Third => "OSCVol_3",
                },
                OscillatorField::UnisonVoices => match slot {
                    OscillatorSlot::First => "OSCNumVoice_1",
                    OscillatorSlot::Second => "OSCNumVoice_2",
                    OscillatorSlot::Third => "OSCNumVoice_3",
                },
                OscillatorField::UnisonDetune => match slot {
                    OscillatorSlot::First => "OSCDetune_1",
                    OscillatorSlot::Second => "OSCDetune_2",
                    OscillatorSlot::Third => "OSCDetune_3",
                },
                OscillatorField::UnisonSpread => match slot {
                    OscillatorSlot::First => "OSCSpread_1",
                    OscillatorSlot::Second => "OSCSpread_2",
                    OscillatorSlot::Third => "OSCSpread_3",
                },
                OscillatorField::UnisonMix => match slot {
                    OscillatorSlot::First => "OSCUniMix_1",
                    OscillatorSlot::Second => "OSCUniMix_2",
                    OscillatorSlot::Third => "OSCUniMix_3",
                },
                OscillatorField::AmplitudeModulationSwitch => match slot {
                    OscillatorSlot::First => "OSCAMSwitch_1",
                    OscillatorSlot::Second => "OSCAMSwitch_2",
                    OscillatorSlot::Third => "OSCAMSwitch_3",
                },
                OscillatorField::AmplitudeModulation => match slot {
                    OscillatorSlot::First => "OSCAM_1",
                    OscillatorSlot::Second => "OSCAM_2",
                    OscillatorSlot::Third => "OSCAM_3",
                },
                OscillatorField::FrequencyModulationSwitch => match slot {
                    OscillatorSlot::First => "OSCFMSwitch_1",
                    OscillatorSlot::Second => "OSCFMSwitch_2",
                    OscillatorSlot::Third => "OSCFMSwitch_3",
                },
                OscillatorField::FrequencyModulation => match slot {
                    OscillatorSlot::First => "OSCFM_1",
                    OscillatorSlot::Second => "OSCFM_2",
                    OscillatorSlot::Third => "OSCFM_3",
                },
                OscillatorField::RingModulationSwitch => match slot {
                    OscillatorSlot::First => "OSCRMSwitch_1",
                    OscillatorSlot::Second => "OSCRMSwitch_2",
                    OscillatorSlot::Third => "OSCRMSwitch_3",
                },
                OscillatorField::RingModulation => match slot {
                    OscillatorSlot::First => "OSCRM_1",
                    OscillatorSlot::Second => "OSCRM_2",
                    OscillatorSlot::Third => "OSCRM_3",
                },
            },
            ParamKey::Noise(field) => match field {
                NoiseField::Switch => "OSCSwitch_N",
                NoiseField::Width => "OSCWidth_N",
                NoiseField::Pan => "OSCPan_N",
                NoiseField::Volume => "OSCVol_N",
            },
            ParamKey::Lfo(slot, field) => match field {
                LfoField::Switch => match slot {
                    PairSlot::First => "LFOSwitch_1",
                    PairSlot::Second => "LFOSwitch_2",
                },
                LfoField::Waveform => match slot {
                    PairSlot::First => "LFOWaveType_1",
                    PairSlot::Second => "LFOWaveType_2",
                },
                LfoField::Sync => match slot {
                    PairSlot::First => "LFOSync_1",
                    PairSlot::Second => "LFOSync_2",
                },
                LfoField::Invert => match slot {
                    PairSlot::First => "LFOInvert_1",
                    PairSlot::Second => "LFOInvert_2",
                },
                LfoField::Reverse => match slot {
                    PairSlot::First => "LFOReverse_1",
                    PairSlot::Second => "LFOReverse_2",
                },
                LfoField::Mono => match slot {
                    PairSlot::First => "LFOMono_1",
                    PairSlot::Second => "LFOMono_2",
                },
                LfoField::FreeRun => match slot {
                    PairSlot::First => "LFOFreeRun_1",
                    PairSlot::Second => "LFOFreeRun_2",
                },
                LfoField::Frequency => match slot {
                    PairSlot::First => "LFOFreq_1",
                    PairSlot::Second => "LFOFreq_2",
                },
                LfoField::Phase => match slot {
                    PairSlot::First => "LFOPhase_1",
                    PairSlot::Second => "LFOPhase_2",
                },
            },
            ParamKey::Modulator(slot, field) => match field {
                ModulatorField::Switch => match slot {
                    PairSlot::First => "ModEnvSwitch_1",
                    PairSlot::Second => "ModEnvSwitch_2",
                },
                ModulatorField::Curve => match slot {
                    PairSlot::First => "ModEnvCurveType_1",
                    PairSlot::Second => "ModEnvCurveType_2",
                },
            },
            ParamKey::Vibrato(field) => match field {
                VibratoField::Switch => "VibSwitch",
                VibratoField::Attack => "VibAttack",
                VibratoField::Frequency => "VibFrequency",
                VibratoField::Delay => "VibDelay",
            },
            ParamKey::Matrix(slot, field) => match field {
                MatrixField::Source => match slot {
                    MatrixSlot::First => "MatrixSource_1",
                    MatrixSlot::Second => "MatrixSource_2",
                    MatrixSlot::Third => "MatrixSource_3",
                    MatrixSlot::Fourth => "MatrixSource_4",
                    MatrixSlot::Fifth => "MatrixSource_5",
                    MatrixSlot::Sixth => "MatrixSource_6",
                    MatrixSlot::Seventh => "MatrixSource_7",
                    MatrixSlot::Eighth => "MatrixSource_8",
                },
                MatrixField::Target => match slot {
                    MatrixSlot::First => "MatrixTarget_1",
                    MatrixSlot::Second => "MatrixTarget_2",
                    MatrixSlot::Third => "MatrixTarget_3",
                    MatrixSlot::Fourth => "MatrixTarget_4",
                    MatrixSlot::Fifth => "MatrixTarget_5",
                    MatrixSlot::Sixth => "MatrixTarget_6",
                    MatrixSlot::Seventh => "MatrixTarget_7",
                    MatrixSlot::Eighth => "MatrixTarget_8",
                },
                MatrixField::Amount => match slot {
                    MatrixSlot::First => "MatrixAmount_1",
                    MatrixSlot::Second => "MatrixAmount_2",
                    MatrixSlot::Third => "MatrixAmount_3",
                    MatrixSlot::Fourth => "MatrixAmount_4",
                    MatrixSlot::Fifth => "MatrixAmount_5",
                    MatrixSlot::Sixth => "MatrixAmount_6",
                    MatrixSlot::Seventh => "MatrixAmount_7",
                    MatrixSlot::Eighth => "MatrixAmount_8",
                },
            },
            ParamKey::Chorus(field) => match field {
                ChorusField::Switch => "ChorusSwitch",
                ChorusField::Depth => "ChorusDepth",
                ChorusField::Mix => "ChorusMix",
                ChorusField::PreDelay => "ChorusPdelay",
                ChorusField::Ratio => "ChorusRatio",
            },
            ParamKey::Delay(field) => match field {
                DelayField::Switch => "DelaySwitch",
                DelayField::PingPong => "DelayMode",
                DelayField::Feedback => "DelayFeed",
                DelayField::Filter => "DelayLP",
                DelayField::FilterMode => "DelayFilterMode",
                DelayField::Sync => "DelaySync",
                DelayField::Time => "DelayTime",
                DelayField::Mix => "DelayMix",
            },
            ParamKey::Distortion(field) => match field {
                DistortionField::Switch => "DistSwitch",
                DistortionField::Gain => "DistGain",
            },
            ParamKey::Equalizer(field) => match field {
                EqualizerField::Switch => "EQSwitch",
                EqualizerField::High => "EQHigh",
                EqualizerField::Low => "EQLow",
                EqualizerField::Mid => "EQMid",
            },
            ParamKey::EffectFilter(field) => match field {
                EffectFilterField::Switch => "FXFilterSwitch",
                EffectFilterField::Type => "FXFilterType",
                EffectFilterField::Resonance => "FXFilterRes",
                EffectFilterField::Cutoff => "FXFilterCut",
            },
            ParamKey::LoFi(field) => match field {
                LoFiField::Switch => "LoFiSwitch",
                LoFiField::BitRate => "LoFiBitRate",
                LoFiField::SampleRate => "LoFiSampleRate",
                LoFiField::Mix => "LoFiMix",
            },
            ParamKey::Reverb(field) => match field {
                ReverbField::Switch => "ReverbSwitch",
                ReverbField::Dampen => "ReverbDamp",
                ReverbField::Room => "ReverbRoom",
                ReverbField::Filter => "ReverbLP",
                ReverbField::Width => "ReverbWidth",
                ReverbField::Mix => "ReverbMix",
            },
            ParamKey::Settings(field) => match field {
                SettingField::MasterVolume => "MainVol",
                SettingField::Polyphony => "MaxVoices",
                SettingField::PortamentoMode => "PortaMode",
                SettingField::MidiPlayMode => "MidiPlayMode",
                SettingField::Glide => "Glide",
                SettingField::VelocityCurve => "VeloCurve",
                SettingField::KeyTrackCurve => "KeyTrackCurve",
                SettingField::PitchBendRange => "PBRange",
                SettingField::LimitSwitch => "LimitSwitch",
                SettingField::EnvelopeCurve => "EnvCurveType",
                SettingField::FilterEnvelopeCurve => "FilterEnvCurveType",
                SettingField::HardSync => "OSCSync21",
                SettingField::Pitch => "PCH",
            },
        }
    }
}

/// The parameter that a preset file holds under `id`, if the reader knows
/// one.
pub open spec fn key_named(id: Seq<char>) -> Option<ParamKey> {
    if exists|key: ParamKey| key.id_text() == id {
        Some(choose|key: ParamKey| key.id_text() == id)
    } else {
        None
    }
}

/// The keys of one part of the preset.
pub closed spec fn keys_of(group: Group) -> Set<ParamKey> {
    Set::new(|key: ParamKey| key.group() == group)
}

/// The keys of the parts of the preset in `groups`.
pub closed spec fn keys_in(groups: Set<Group>) -> Set<ParamKey> {
    Set::new(|key: ParamKey| groups.contains(key.group()))
}

/// A key is among the keys of a part if that is the part it belongs to.
pub proof fn lemma_keys_of(group: Group)
    ensures
        forall|key: ParamKey| #[trigger] keys_of(group).contains(key) == (key.group() == group),
{
}

/// A key is among the keys of some parts if its own part is among them.
pub proof fn lemma_keys_in(groups: Set<Group>)
    ensures
        forall|key: ParamKey| #[trigger]
            keys_in(groups).contains(key) == groups.contains(key.group()),
{
}

/// The keys of no parts are no keys, and the keys of all parts are all keys.
pub proof fn lemma_keys_in_bounds()
    ensures
        keys_in(Set::empty()) == Set::<ParamKey>::empty(),
        keys_in(Set::full()) == Set::<ParamKey>::full(),
{
    assert(keys_in(Set::empty()) =~= Set::<ParamKey>::empty());
    assert(keys_in(Set::full()) =~= Set::<ParamKey>::full());
}

/// One more part adds its own keys.
pub proof fn lemma_keys_in_grows(groups: Set<Group>, group: Group)
    ensures
        keys_in(groups.insert(group)) == keys_in(groups).union(keys_of(group)),
{
    assert(keys_in(groups.insert(group)) =~= keys_in(groups).union(keys_of(group)));
}

/// Tells the identifiers of 3 characters apart by a few of their
/// characters.
spec fn spelled_3(s: Seq<char>) -> Option<ParamKey> {
    Some(ParamKey::Settings(SettingField::Pitch))
}

/// Tells the identifiers of 5 characters apart by a few of their
/// characters.
spec fn spelled_5(s: Seq<char>) -> Option<ParamKey> {
    if s[4] == 'A' {
        Some(ParamKey::Tuning(TuningField::A))
    } else if s[4] == 'B' {
        Some(ParamKey::Tuning(TuningField::B))
    } else if s[4] == 'C' {
        Some(ParamKey::Tuning(TuningField::C))
    } else if s[4] == 'D' {
        Some(ParamKey::Tuning(TuningField::D))
    } else if s[4] == 'E' {
        Some(ParamKey::Tuning(TuningField::E))
    } else if s[4] == 'F' {
        Some(ParamKey::Tuning(TuningField::F))
    } else if s[4] == 'G' {
        Some(ParamKey::Tuning(TuningField::G))
    } else if s[4] == 'd' {
        Some(ParamKey::Equalizer(EqualizerField::Mid))
    } else if s[4] == 'e' {
        Some(ParamKey::Settings(SettingField::Glide))
    } else if s[4] == 'w' {
        Some(ParamKey::Equalizer(EqualizerField::Low))
    } else {
        None
    }
}

/// Tells the identifiers of 6 characters apart by a few of their
/// characters.
spec fn spelled_6(s: Seq<char>) -> Option<ParamKey> {
    Some(ParamKey::Equalizer(EqualizerField::High))
}

/// Tells the identifiers of 7 characters apart by a few of their
/// characters.
spec fn spelled_7(s: Seq<char>) -> Option<ParamKey> {
    if s[6] == '1' {
        if s[3] == 'A' {
            Some(ParamKey::Oscillator(OscillatorSlot::First, OscillatorField::AmplitudeModulation))
        } else if s[3] == 'F' {
            Some(ParamKey::Oscillator(OscillatorSlot::First, OscillatorField::FrequencyModulation))
        } else if s[3] == 'R' {
            Some(ParamKey::Oscillator(OscillatorSlot::First, OscillatorField::RingModulation))
        } else {
            None
        }
    } else if s[6] == '2' {
        if s[3] == 'A' {
            Some(ParamKey::Oscillator(OscillatorSlot::Second, OscillatorField::AmplitudeModulation))
        } else if s[3] == 'F' {
            Some(ParamKey::Oscillator(OscillatorSlot::Second, OscillatorField::FrequencyModulation))
        } else if s[3] == 'R' {
            Some(ParamKey::Oscillator(OscillatorSlot::Second, OscillatorField::RingModulation))
        } else {
            None
        }
    } else if s[6] == '3' {
        if s[3] == 'A' {
            Some(ParamKey::Oscillator(OscillatorSlot::Third, OscillatorField::AmplitudeModulation))
        } else if s[3] == 'F' {
            Some(ParamKey::Oscillator(OscillatorSlot::Third, OscillatorField::FrequencyModulation))
        } else if s[3] == 'R' {
            Some(ParamKey::Oscillator(OscillatorSlot::Third, OscillatorField::RingModulation))
        } else {
            None
        }
    } else if s[6] == 'P' {
        Some(ParamKey::Delay(DelayField::Filter))
    } else if s[6] == 'e' {
        Some(ParamKey::Settings(SettingField::PitchBendRange))
    } else if s[6] == 'l' {
        Some(ParamKey::Settings(SettingField::MasterVolume))
    } else if s[6] == 'x' {
        Some(ParamKey::LoFi(LoFiField::Mix))
    } else {
        None
    }
}

/// Tells the identifiers of 8 characters apart by a few of their
/// characters.
spec fn spelled_8(s: Seq<char>) -> Option<ParamKey> {
    if s[7] == '1' {
        if s[3] == 'P' {
            Some(ParamKey::Oscillator(OscillatorSlot::First, OscillatorField::Pan))
        } else if s[3] == 'V' {
            Some(ParamKey::Oscillator(OscillatorSlot::First, OscillatorField::Volume))
        } else {
            None
        }
    } else if s[7] == '2' {
        if s[3] == 'P' {
            Some(ParamKey::Oscillator(OscillatorSlot::Second, OscillatorField::Pan))
        } else if s[3] == 'V' {
            Some(ParamKey::Oscillator(OscillatorSlot::Second, OscillatorField::Volume))
        } else {
            None
        }
    } else if s[7] == '3' {
        if s[3] == 'P' {
            Some(ParamKey::Oscillator(OscillatorSlot::Third, OscillatorField::Pan))
        } else if s[3] == 'V' {
            Some(ParamKey::Oscillator(OscillatorSlot::Third, OscillatorField::Volume))
        } else {
            None
        }
    } else if s[7] == 'N' {
        if s[3] == 'P' {
            Some(ParamKey::Noise(NoiseField::Pan))
        } else if s[3] == 'V' {
            Some(ParamKey::Noise(NoiseField::Volume))
        } else {
            None
        }
    } else if s[7] == 'P' {
        Some(ParamKey::Reverb(ReverbField::Filter))
    } else if s[7] == 'h' {
        Some(ParamKey::Equalizer(EqualizerField::Switch))
    } else if s[7] == 'n' {
        Some(ParamKey::Distortion(DistortionField::Gain))
    } else if s[7] == 'x' {
        Some(ParamKey::Delay(DelayField::Mix))
    } else if s[7] == 'y' {
        if s[0] == 'E' {
            Some(ParamKey::Envelope(EnvelopeSlot::Main, EnvelopeField::Decay))
        } else if s[0] == 'V' {
            Some(ParamKey::Vibrato(VibratoField::Delay))
        } else {
            None
        }
    } else {
        None
    }
}

/// Tells the identifiers of 9 characters apart by a few of their
/// characters.
spec fn spelled_9(s: Seq<char>) -> Option<ParamKey> {
    if s[5] == 'F' {
        Some(ParamKey::Delay(DelayField::Feedback))
    } else if s[5] == 'M' {
        if s[0] == 'D' {
            Some(ParamKey::Delay(DelayField::PingPong))
        } else if s[0] == 'P' {
            Some(ParamKey::Settings(SettingField::PortamentoMode))
        } else {
            None
        }
    } else if s[5] == 'S' {
        Some(ParamKey::Delay(DelayField::Sync))
    } else if s[5] == 'T' {
        Some(ParamKey::Delay(DelayField::Time))
    } else if s[5] == 'b' {
        Some(ParamKey::Reverb(ReverbField::Mix))
    } else if s[5] == 'e' {
        if s[8] == '1' {
            Some(ParamKey::Lfo(PairSlot::First, LfoField::Frequency))
        } else if s[8] == '2' {
            Some(ParamKey::Lfo(PairSlot::Second, LfoField::Frequency))
        } else {
            None
        }
    } else if s[5] == 'i' {
        if s[0] == 'M' {
            Some(ParamKey::Settings(SettingField::Polyphony))
        } else if s[0] == 'V' {
            Some(ParamKey::Vibrato(VibratoField::Switch))
        } else {
            None
        }
    } else if s[5] == 'm' {
        if s[8] == '1' {
            Some(ParamKey::Oscillator(OscillatorSlot::First, OscillatorField::Semitone))
        } else if s[8] == '2' {
            Some(ParamKey::Oscillator(OscillatorSlot::Second, OscillatorField::Semitone))
        } else if s[8] == '3' {
            Some(ParamKey::Oscillator(OscillatorSlot::Third, OscillatorField::Semitone))
        } else {
            None
        }
    } else if s[5] == 'n' {
        if s[3] == 'F' {
            if s[8] == '1' {
                Some(ParamKey::Oscillator(OscillatorSlot::First, OscillatorField::Fine))
            } else if s[8] == '2' {
                Some(ParamKey::Oscillator(OscillatorSlot::Second, OscillatorField::Fine))
            } else if s[8] == '3' {
                Some(ParamKey::Oscillator(OscillatorSlot::Third, OscillatorField::Fine))
            } else {
                None
            }
        } else if s[3] == 'M' {
            if s[8] == '1' {
                Some(ParamKey::Lfo(PairSlot::First, LfoField::Mono))
            } else if s[8] == '2' {
                Some(ParamKey::Lfo(PairSlot::Second, LfoField::Mono))
            } else {
                None
            }
        } else if s[3] == 'S' {
            if s[0] == 'L' {
                if s[8] == '1' {
                    Some(ParamKey::Lfo(PairSlot::First, LfoField::Sync))
                } else if s[8] == '2' {
                    Some(ParamKey::Lfo(PairSlot::Second, LfoField::Sync))
                } else {
                    None
                }
            } else if s[0] == 'O' {
                Some(ParamKey::Settings(SettingField::HardSync))
            } else {
                None
            }
        } else {
            None
        }
    } else if s[5] == 'p' {
        Some(ParamKey::Tuning(TuningField::Transpose))
    } else if s[5] == 'r' {
        if s[6] == 'C' {
            Some(ParamKey::Filter(FilterField::Cutoff))
        } else if s[6] == 'E' {
            Some(ParamKey::Filter(FilterField::EnvelopeAmount))
        } else if s[6] == 'K' {
            Some(ParamKey::Filter(FilterField::KeyTracking))
        } else if s[6] == 'R' {
            Some(ParamKey::Filter(FilterField::Resonance))
        } else {
            None
        }
    } else if s[5] == 's' {
        Some(ParamKey::Chorus(ChorusField::Mix))
    } else if s[5] == 't' {
        if s[0] == 'E' {
            Some(ParamKey::Envelope(EnvelopeSlot::Main, EnvelopeField::Attack))
        } else if s[0] == 'V' {
            Some(ParamKey::Vibrato(VibratoField::Attack))
        } else {
            None
        }
    } else if s[5] == 'u' {
        Some(ParamKey::Settings(SettingField::VelocityCurve))
    } else {
        None
    }
}

/// Tells the identifiers of 10 characters apart by a few of their
/// characters.
spec fn spelled_10(s: Seq<char>) -> Option<ParamKey> {
    if s[4] == 'A' {
        Some(ParamKey::Tuning(TuningField::ASharp))
    } else if s[4] == 'C' {
        Some(ParamKey::Tuning(TuningField::CSharp))
    } else if s[4] == 'D' {
        Some(ParamKey::Tuning(TuningField::DSharp))
    } else if s[4] == 'F' {
        Some(ParamKey::Tuning(TuningField::FSharp))
    } else if s[4] == 'G' {
        Some(ParamKey::Tuning(TuningField::GSharp))
    } else if s[4] == 'S' {
        if s[0] == 'D' {
            Some(ParamKey::Distortion(DistortionField::Switch))
        } else if s[0] == 'L' {
            Some(ParamKey::LoFi(LoFiField::Switch))
        } else {
            None
        }
    } else if s[4] == 'e' {
        if s[0] == 'E' {
            Some(ParamKey::Envelope(EnvelopeSlot::Main, EnvelopeField::Release))
        } else if s[0] == 'F' {
            Some(ParamKey::Filter(FilterField::Type))
        } else {
            None
        }
    } else if s[4] == 'h' {
        if s[9] == '1' {
            if s[0] == 'L' {
                Some(ParamKey::Lfo(PairSlot::First, LfoField::Phase))
            } else if s[0] == 'O' {
                Some(ParamKey::Oscillator(OscillatorSlot::First, OscillatorField::Phase))
            } else {
                None
            }
        } else if s[9] == '2' {
            if s[0] == 'L' {
                Some(ParamKey::Lfo(PairSlot::Second, LfoField::Phase))
            } else if s[0] == 'O' {
                Some(ParamKey::Oscillator(OscillatorSlot::Second, OscillatorField::Phase))
            } else {
                None
            }
        } else if s[9] == '3' {
            Some(ParamKey::Oscillator(OscillatorSlot::Third, OscillatorField::Phase))
        } else {
            None
        }
    } else if s[4] == 'i' {
        if s[9] == '1' {
            Some(ParamKey::Oscillator(OscillatorSlot::First, OscillatorField::Pitch))
        } else if s[9] == '2' {
            Some(ParamKey::Oscillator(OscillatorSlot::Second, OscillatorField::Pitch))
        } else if s[9] == '3' {
            Some(ParamKey::Oscillator(OscillatorSlot::Third, OscillatorField::Pitch))
        } else if s[9] == 'N' {
            Some(ParamKey::Noise(NoiseField::Width))
        } else {
            None
        }
    } else if s[4] == 'r' {
        if s[6] == 'D' {
            Some(ParamKey::Reverb(ReverbField::Dampen))
        } else if s[6] == 'R' {
            Some(ParamKey::Reverb(ReverbField::Room))
        } else {
            None
        }
    } else if s[4] == 'u' {
        Some(ParamKey::Envelope(EnvelopeSlot::Main, EnvelopeField::Sustain))
    } else {
        None
    }
}

/// Tells the identifiers of 11 characters apart by a few of their
/// characters.
spec fn spelled_11(s: Seq<char>) -> Option<ParamKey> {
    if s[4] == 'B' {
        Some(ParamKey::LoFi(LoFiField::BitRate))
    } else if s[4] == 'c' {
        if s[10] == '1' {
            Some(ParamKey::Oscillator(OscillatorSlot::First, OscillatorField::Octave))
        } else if s[10] == '2' {
            Some(ParamKey::Oscillator(OscillatorSlot::Second, OscillatorField::Octave))
        } else if s[10] == '3' {
            Some(ParamKey::Oscillator(OscillatorSlot::Third, OscillatorField::Octave))
        } else {
            None
        }
    } else if s[4] == 'e' {
        if s[10] == '1' {
            Some(ParamKey::Oscillator(OscillatorSlot::First, OscillatorField::UnisonDetune))
        } else if s[10] == '2' {
            Some(ParamKey::Oscillator(OscillatorSlot::Second, OscillatorField::UnisonDetune))
        } else if s[10] == '3' {
            Some(ParamKey::Oscillator(OscillatorSlot::Third, OscillatorField::UnisonDetune))
        } else if s[10] == 'e' {
            Some(ParamKey::Filter(FilterField::Drive))
        } else {
            None
        }
    } else if s[4] == 'l' {
        if s[8] == 'C' {
            Some(ParamKey::EffectFilter(EffectFilterField::Cutoff))
        } else if s[8] == 'R' {
            Some(ParamKey::EffectFilter(EffectFilterField::Resonance))
        } else {
            None
        }
    } else if s[4] == 'n' {
        if s[10] == '1' {
            if s[0] == 'L' {
                Some(ParamKey::Lfo(PairSlot::First, LfoField::Invert))
            } else if s[0] == 'O' {
                if s[3] == 'I' {
                    Some(ParamKey::Oscillator(OscillatorSlot::First, OscillatorField::Invert))
                } else if s[3] == 'U' {
                    Some(ParamKey::Oscillator(OscillatorSlot::First, OscillatorField::UnisonMix))
                } else {
                    None
                }
            } else {
                None
            }
        } else if s[10] == '2' {
            if s[0] == 'L' {
                Some(ParamKey::Lfo(PairSlot::Second, LfoField::Invert))
            } else if s[0] == 'O' {
                if s[3] == 'I' {
                    Some(ParamKey::Oscillator(OscillatorSlot::Second, OscillatorField::Invert))
                } else if s[3] == 'U' {
                    Some(ParamKey::Oscillator(OscillatorSlot::Second, OscillatorField::UnisonMix))
                } else {
                    None
                }
            } else {
                None
            }
        } else if s[10] == '3' {
            if s[3] == 'I' {
                Some(ParamKey::Oscillator(OscillatorSlot::Third, OscillatorField::Invert))
            } else if s[3] == 'U' {
                Some(ParamKey::Oscillator(OscillatorSlot::Third, OscillatorField::UnisonMix))
            } else {
                None
            }
        } else {
            None
        }
    } else if s[4] == 'p' {
        if s[10] == '1' {
            Some(ParamKey::Oscillator(OscillatorSlot::First, OscillatorField::UnisonSpread))
        } else if s[10] == '2' {
            Some(ParamKey::Oscillator(OscillatorSlot::Second, OscillatorField::UnisonSpread))
        } else if s[10] == '3' {
            Some(ParamKey::Oscillator(OscillatorSlot::Third, OscillatorField::UnisonSpread))
        } else {
            None
        }
    } else if s[4] == 'r' {
        Some(ParamKey::Reverb(ReverbField::Width))
    } else if s[4] == 't' {
        Some(ParamKey::Settings(SettingField::LimitSwitch))
    } else if s[4] == 'u' {
        if s[6] == 'D' {
            Some(ParamKey::Chorus(ChorusField::Depth))
        } else if s[6] == 'R' {
            Some(ParamKey::Chorus(ChorusField::Ratio))
        } else {
            None
        }
    } else if s[4] == 'w' {
        if s[10] == '1' {
            if s[0] == 'L' {
                Some(ParamKey::Lfo(PairSlot::First, LfoField::Switch))
            } else if s[0] == 'O' {
                Some(ParamKey::Oscillator(OscillatorSlot::First, OscillatorField::Switch))
            } else {
                None
            }
        } else if s[10] == '2' {
            if s[0] == 'L' {
                Some(ParamKey::Lfo(PairSlot::Second, LfoField::Switch))
            } else if s[0] == 'O' {
                Some(ParamKey::Oscillator(OscillatorSlot::Second, OscillatorField::Switch))
            } else {
                None
            }
        } else if s[10] == '3' {
            Some(ParamKey::Oscillator(OscillatorSlot::Third, OscillatorField::Switch))
        } else if s[10] == 'N' {
            Some(ParamKey::Noise(NoiseField::Switch))
        } else {
            None
        }
    } else if s[4] == 'y' {
        Some(ParamKey::Delay(DelayField::Switch))
    } else {
        None
    }
}

/// Tells the identifiers of 12 characters apart by a few of their
/// characters.
spec fn spelled_12(s: Seq<char>) -> Option<ParamKey> {
    if s[0] == 'A' {
        Some(ParamKey::Envelope(EnvelopeSlot::Main, EnvelopeField::AttackCurve))
    } else if s[0] == 'C' {
        if s[6] == 'P' {
            Some(ParamKey::Chorus(ChorusField::PreDelay))
        } else if s[6] == 'S' {
            Some(ParamKey::Chorus(ChorusField::Switch))
        } else {
            None
        }
    } else if s[0] == 'D' {
        Some(ParamKey::Envelope(EnvelopeSlot::Main, EnvelopeField::DecayFalloff))
    } else if s[0] == 'E' {
        Some(ParamKey::Settings(SettingField::EnvelopeCurve))
    } else if s[0] == 'F' {
        if s[1] == 'X' {
            Some(ParamKey::EffectFilter(EffectFilterField::Type))
        } else if s[1] == 'i' {
            Some(ParamKey::Filter(FilterField::Switch))
        } else {
            None
        }
    } else if s[0] == 'L' {
        if s[3] == 'F' {
            if s[11] == '1' {
                Some(ParamKey::Lfo(PairSlot::First, LfoField::FreeRun))
            } else if s[11] == '2' {
                Some(ParamKey::Lfo(PairSlot::Second, LfoField::FreeRun))
            } else {
                None
            }
        } else if s[3] == 'R' {
            if s[11] == '1' {
                Some(ParamKey::Lfo(PairSlot::First, LfoField::Reverse))
            } else if s[11] == '2' {
                Some(ParamKey::Lfo(PairSlot::Second, LfoField::Reverse))
            } else {
                None
            }
        } else {
            None
        }
    } else if s[0] == 'M' {
        Some(ParamKey::Settings(SettingField::MidiPlayMode))
    } else if s[0] == 'O' {
        if s[3] == 'F' {
            if s[11] == '1' {
                Some(ParamKey::Oscillator(OscillatorSlot::First, OscillatorField::FreeRun))
            } else if s[11] == '2' {
                Some(ParamKey::Oscillator(OscillatorSlot::Second, OscillatorField::FreeRun))
            } else if s[11] == '3' {
                Some(ParamKey::Oscillator(OscillatorSlot::Third, OscillatorField::FreeRun))
            } else {
                None
            }
        } else if s[3] == 'R' {
            if s[11] == '1' {
                Some(ParamKey::Oscillator(OscillatorSlot::First, OscillatorField::Reverse))
            } else if s[11] == '2' {
                Some(ParamKey::Oscillator(OscillatorSlot::Second, OscillatorField::Reverse))
            } else if s[11] == '3' {
                Some(ParamKey::Oscillator(OscillatorSlot::Third, OscillatorField::Reverse))
            } else {
                None
            }
        } else if s[3] == 'S' {
            if s[11] == '1' {
                Some(ParamKey::Oscillator(OscillatorSlot::First, OscillatorField::SyncAll))
            } else if s[11] == '2' {
                Some(ParamKey::Oscillator(OscillatorSlot::Second, OscillatorField::SyncAll))
            } else if s[11] == '3' {
                Some(ParamKey::Oscillator(OscillatorSlot::Third, OscillatorField::SyncAll))
            } else {
                None
            }
        } else {
            None
        }
    } else if s[0] == 'R' {
        if s[2] == 'l' {
            Some(ParamKey::Envelope(EnvelopeSlot::Main, EnvelopeField::ReleaseFalloff))
        } else if s[2] == 'v' {
            Some(ParamKey::Reverb(ReverbField::Switch))
        } else {
            None
        }
    } else if s[0] == 'V' {
        Some(ParamKey::Vibrato(VibratoField::Frequency))
    } else {
        None
    }
}

/// Tells the identifiers of 13 characters apart by a few of their
/// characters.
spec fn spelled_13(s: Seq<char>) -> Option<ParamKey> {
    if s[3] == 'A' {
        if s[12] == '1' {
            Some(
                ParamKey::Oscillator(
                    OscillatorSlot::First,
                    OscillatorField::AmplitudeModulationSwitch,
                ),
            )
        } else if s[12] == '2' {
            Some(
                ParamKey::Oscillator(
                    OscillatorSlot::Second,
                    OscillatorField::AmplitudeModulationSwitch,
                ),
            )
        } else if s[12] == '3' {
            Some(
                ParamKey::Oscillator(
                    OscillatorSlot::Third,
                    OscillatorField::AmplitudeModulationSwitch,
                ),
            )
        } else {
            None
        }
    } else if s[3] == 'E' {
        if s[12] == '1' {
            Some(ParamKey::Envelope(EnvelopeSlot::Modulator1, EnvelopeField::Decay))
        } else if s[12] == '2' {
            Some(ParamKey::Envelope(EnvelopeSlot::Modulator2, EnvelopeField::Decay))
        } else {
            None
        }
    } else if s[3] == 'F' {
        if s[12] == '1' {
            Some(
                ParamKey::Oscillator(
                    OscillatorSlot::First,
                    OscillatorField::FrequencyModulationSwitch,
                ),
            )
        } else if s[12] == '2' {
            Some(
                ParamKey::Oscillator(
                    OscillatorSlot::Second,
                    OscillatorField::FrequencyModulationSwitch,
                ),
            )
        } else if s[12] == '3' {
            Some(
                ParamKey::Oscillator(
                    OscillatorSlot::Third,
                    OscillatorField::FrequencyModulationSwitch,
                ),
            )
        } else {
            None
        }
    } else if s[3] == 'N' {
        if s[12] == '1' {
            Some(ParamKey::Oscillator(OscillatorSlot::First, OscillatorField::UnisonVoices))
        } else if s[12] == '2' {
            Some(ParamKey::Oscillator(OscillatorSlot::Second, OscillatorField::UnisonVoices))
        } else if s[12] == '3' {
            Some(ParamKey::Oscillator(OscillatorSlot::Third, OscillatorField::UnisonVoices))
        } else {
            None
        }
    } else if s[3] == 'R' {
        if s[12] == '1' {
            Some(ParamKey::Oscillator(OscillatorSlot::First, OscillatorField::RingModulationSwitch))
        } else if s[12] == '2' {
            Some(
                ParamKey::Oscillator(OscillatorSlot::Second, OscillatorField::RingModulationSwitch),
            )
        } else if s[12] == '3' {
            Some(ParamKey::Oscillator(OscillatorSlot::Third, OscillatorField::RingModulationSwitch))
        } else {
            None
        }
    } else if s[3] == 'T' {
        Some(ParamKey::Settings(SettingField::KeyTrackCurve))
    } else if s[3] == 'W' {
        if s[12] == '1' {
            if s[0] == 'L' {
                Some(ParamKey::Lfo(PairSlot::First, LfoField::Waveform))
            } else if s[0] == 'O' {
                Some(ParamKey::Oscillator(OscillatorSlot::First, OscillatorField::Waveform))
            } else {
                None
            }
        } else if s[12] == '2' {
            if s[0] == 'L' {
                Some(ParamKey::Lfo(PairSlot::Second, LfoField::Waveform))
            } else if s[0] == 'O' {
                Some(ParamKey::Oscillator(OscillatorSlot::Second, OscillatorField::Waveform))
            } else {
                None
            }
        } else if s[12] == '3' {
            Some(ParamKey::Oscillator(OscillatorSlot::Third, OscillatorField::Waveform))
        } else {
            None
        }
    } else {
        None
    }
}

/// Tells the identifiers of 14 characters apart by a few of their
/// characters.
spec fn spelled_14(s: Seq<char>) -> Option<ParamKey> {
    if s[13] == '1' {
        if s[7] == 'a' {
            Some(ParamKey::Matrix(MatrixSlot::First, MatrixField::Target))
        } else if s[7] == 'm' {
            Some(ParamKey::Matrix(MatrixSlot::First, MatrixField::Amount))
        } else if s[7] == 'o' {
            Some(ParamKey::Matrix(MatrixSlot::First, MatrixField::Source))
        } else if s[7] == 't' {
            Some(ParamKey::Envelope(EnvelopeSlot::Modulator1, EnvelopeField::Attack))
        } else if s[7] == 'w' {
            Some(ParamKey::Modulator(PairSlot::First, ModulatorField::Switch))
        } else {
            None
        }
    } else if s[13] == '2' {
        if s[7] == 'a' {
            Some(ParamKey::Matrix(MatrixSlot::Second, MatrixField::Target))
        } else if s[7] == 'm' {
            Some(ParamKey::Matrix(MatrixSlot::Second, MatrixField::Amount))
        } else if s[7] == 'o' {
            Some(ParamKey::Matrix(MatrixSlot::Second, MatrixField::Source))
        } else if s[7] == 't' {
            Some(ParamKey::Envelope(EnvelopeSlot::Modulator2, EnvelopeField::Attack))
        } else if s[7] == 'w' {
            Some(ParamKey::Modulator(PairSlot::Second, ModulatorField::Switch))
        } else {
            None
        }
    } else if s[13] == '3' {
        if s[6] == 'A' {
            Some(ParamKey::Matrix(MatrixSlot::Third, MatrixField::Amount))
        } else if s[6] == 'S' {
            Some(ParamKey::Matrix(MatrixSlot::Third, MatrixField::Source))
        } else if s[6] == 'T' {
            Some(ParamKey::Matrix(MatrixSlot::Third, MatrixField::Target))
        } else {
            None
        }
    } else if s[13] == '4' {
        if s[6] == 'A' {
            Some(ParamKey::Matrix(MatrixSlot::Fourth, MatrixField::Amount))
        } else if s[6] == 'S' {
            Some(ParamKey::Matrix(MatrixSlot::Fourth, MatrixField::Source))
        } else if s[6] == 'T' {
            Some(ParamKey::Matrix(MatrixSlot::Fourth, MatrixField::Target))
        } else {
            None
        }
    } else if s[13] == '5' {
        if s[6] == 'A' {
            Some(ParamKey::Matrix(MatrixSlot::Fifth, MatrixField::Amount))
        } else if s[6] == 'S' {
            Some(ParamKey::Matrix(MatrixSlot::Fifth, MatrixField::Source))
        } else if s[6] == 'T' {
            Some(ParamKey::Matrix(MatrixSlot::Fifth, MatrixField::Target))
        } else {
            None
        }
    } else if s[13] == '6' {
        if s[6] == 'A' {
            Some(ParamKey::Matrix(MatrixSlot::Sixth, MatrixField::Amount))
        } else if s[6] == 'S' {
            Some(ParamKey::Matrix(MatrixSlot::Sixth, MatrixField::Source))
        } else if s[6] == 'T' {
            Some(ParamKey::Matrix(MatrixSlot::Sixth, MatrixField::Target))
        } else {
            None
        }
    } else if s[13] == '7' {
        if s[6] == 'A' {
            Some(ParamKey::Matrix(MatrixSlot::Seventh, MatrixField::Amount))
        } else if s[6] == 'S' {
            Some(ParamKey::Matrix(MatrixSlot::Seventh, MatrixField::Source))
        } else if s[6] == 'T' {
            Some(ParamKey::Matrix(MatrixSlot::Seventh, MatrixField::Target))
        } else {
            None
        }
    } else if s[13] == '8' {
        if s[6] == 'A' {
            Some(ParamKey::Matrix(MatrixSlot::Eighth, MatrixField::Amount))
        } else if s[6] == 'S' {
            Some(ParamKey::Matrix(MatrixSlot::Eighth, MatrixField::Source))
        } else if s[6] == 'T' {
            Some(ParamKey::Matrix(MatrixSlot::Eighth, MatrixField::Target))
        } else {
            None
        }
    } else if s[13] == 'e' {
        Some(ParamKey::LoFi(LoFiField::SampleRate))
    } else if s[13] == 'h' {
        Some(ParamKey::EffectFilter(EffectFilterField::Switch))
    } else if s[13] == 'y' {
        Some(ParamKey::Envelope(EnvelopeSlot::Filter, EnvelopeField::Decay))
    } else {
        None
    }
}

/// Tells the identifiers of 15 characters apart by a few of their
/// characters.
spec fn spelled_15(s: Seq<char>) -> Option<ParamKey> {
    if s[6] == 'D' {
        Some(ParamKey::Filter(FilterField::DriveType))
    } else if s[6] == 'E' {
        Some(ParamKey::Envelope(EnvelopeSlot::Filter, EnvelopeField::Attack))
    } else if s[6] == 'R' {
        if s[14] == '1' {
            Some(ParamKey::Envelope(EnvelopeSlot::Modulator1, EnvelopeField::Release))
        } else if s[14] == '2' {
            Some(ParamKey::Envelope(EnvelopeSlot::Modulator2, EnvelopeField::Release))
        } else {
            None
        }
    } else if s[6] == 'S' {
        if s[14] == '1' {
            Some(ParamKey::Envelope(EnvelopeSlot::Modulator1, EnvelopeField::Sustain))
        } else if s[14] == '2' {
            Some(ParamKey::Envelope(EnvelopeSlot::Modulator2, EnvelopeField::Sustain))
        } else {
            None
        }
    } else if s[6] == 'i' {
        Some(ParamKey::Delay(DelayField::FilterMode))
    } else {
        None
    }
}

/// Tells the identifiers of 16 characters apart by a few of their
/// characters.
spec fn spelled_16(s: Seq<char>) -> Option<ParamKey> {
    if s[9] == 'R' {
        Some(ParamKey::Envelope(EnvelopeSlot::Filter, EnvelopeField::Release))
    } else if s[9] == 'S' {
        Some(ParamKey::Envelope(EnvelopeSlot::Filter, EnvelopeField::Sustain))
    } else {
        None
    }
}

/// Tells the identifiers of 17 characters apart by a few of their
/// characters.
spec fn spelled_17(s: Seq<char>) -> Option<ParamKey> {
    if s[3] == 'A' {
        if s[16] == '1' {
            Some(ParamKey::Envelope(EnvelopeSlot::Modulator1, EnvelopeField::AttackCurve))
        } else if s[16] == '2' {
            Some(ParamKey::Envelope(EnvelopeSlot::Modulator2, EnvelopeField::AttackCurve))
        } else {
            None
        }
    } else if s[3] == 'D' {
        if s[16] == '1' {
            Some(ParamKey::Envelope(EnvelopeSlot::Modulator1, EnvelopeField::DecayFalloff))
        } else if s[16] == '2' {
            Some(ParamKey::Envelope(EnvelopeSlot::Modulator2, EnvelopeField::DecayFalloff))
        } else {
            None
        }
    } else if s[3] == 'E' {
        if s[16] == '1' {
            Some(ParamKey::Modulator(PairSlot::First, ModulatorField::Curve))
        } else if s[16] == '2' {
            Some(ParamKey::Modulator(PairSlot::Second, ModulatorField::Curve))
        } else {
            None
        }
    } else if s[3] == 'R' {
        if s[16] == '1' {
            Some(ParamKey::Envelope(EnvelopeSlot::Modulator1, EnvelopeField::ReleaseFalloff))
        } else if s[16] == '2' {
            Some(ParamKey::Envelope(EnvelopeSlot::Modulator2, EnvelopeField::ReleaseFalloff))
        } else {
            None
        }
    } else if s[3] == 't' {
        Some(ParamKey::Filter(FilterField::DriveSwitch))
    } else {
        None
    }
}

/// Tells the identifiers of 18 characters apart by a few of their
/// characters.
spec fn spelled_18(s: Seq<char>) -> Option<ParamKey> {
    if s[6] == 'A' {
        Some(ParamKey::Envelope(EnvelopeSlot::Filter, EnvelopeField::AttackCurve))
    } else if s[6] == 'D' {
        Some(ParamKey::Envelope(EnvelopeSlot::Filter, EnvelopeField::DecayFalloff))
    } else if s[6] == 'E' {
        Some(ParamKey::Settings(SettingField::FilterEnvelopeCurve))
    } else if s[6] == 'R' {
        Some(ParamKey::Envelope(EnvelopeSlot::Filter, EnvelopeField::ReleaseFalloff))
    } else {
        None
    }
}

/// Tells the identifiers apart by their length and a few of their
/// characters: for the identifier of a parameter, that parameter.
spec fn key_spelled(s: Seq<char>) -> Option<ParamKey> {
    if s.len() == 3 {
        spelled_3(s)
    } else if s.len() == 5 {
        spelled_5(s)
    } else if s.len() == 6 {
        spelled_6(s)
    } else if s.len() == 7 {
        spelled_7(s)
    } else if s.len() == 8 {
        spelled_8(s)
    } else if s.len() == 9 {
        spelled_9(s)
    } else if s.len() == 10 {
        spelled_10(s)
    } else if s.len() == 11 {
        spelled_11(s)
    } else if s.len() == 12 {
        spelled_12(s)
    } else if s.len() == 13 {
        spelled_13(s)
    } else if s.len() == 14 {
        spelled_14(s)
    } else if s.len() == 15 {
        spelled_15(s)
    } else if s.len() == 16 {
        spelled_16(s)
    } else if s.len() == 17 {
        spelled_17(s)
    } else if s.len() == 18 {
        spelled_18(s)
    } else {
        None
    }
}

/// The decision tree finds each parameter of an envelope from its
/// identifier.
proof fn lemma_spelled_envelope(slot: EnvelopeSlot, field: EnvelopeField)
    ensures
        key_spelled(
            ParamKey::Envelope(slot, field).id_text(),
        ) == Some(ParamKey::Envelope(slot, field)),
{
    let id = ParamKey::Envelope(slot, field).id_text();
    match field {
        EnvelopeField::Attack => match slot {
            EnvelopeSlot::Main => {
                reveal_strlit("EnvAttack");
                assert(id.len() == 9);
            },
            EnvelopeSlot::Filter => {
                reveal_strlit("FilterEnvAttack");
                assert(id.len() == 15);
            },
            EnvelopeSlot::Modulator1 => {
                reveal_strlit("ModEnvAttack_1");
                assert(id.len() == 14);
            },
            EnvelopeSlot::Modulator2 => {
                reveal_strlit("ModEnvAttack_2");
                assert(id.len() == 14);
            },
        },
        EnvelopeField::AttackCurve => match slot {
            EnvelopeSlot::Main => {
                reveal_strlit("AttCurveType");
                assert(id.len() == 12);
            },
            EnvelopeSlot::Filter => {
                reveal_strlit("FilterAttCurveType");
                assert(id.len() == 18);
            },
            EnvelopeSlot::Modulator1 => {
                reveal_strlit("ModAttCurveType_1");
                assert(id.len() == 17);
            },
            EnvelopeSlot::Modulator2 => {
                reveal_strlit("ModAttCurveType_2");
                assert(id.len() == 17);
            },
        },
        EnvelopeField::Decay => match slot {
            EnvelopeSlot::Main => {
                reveal_strlit("EnvDecay");
                assert(id.len() == 8);
            },
            EnvelopeSlot::Filter => {
                reveal_strlit("FilterEnvDecay");
                assert(id.len() == 14);
            },
            EnvelopeSlot::Modulator1 => {
                reveal_strlit("ModEnvDecay_1");
                assert(id.len() == 13);
            },
            EnvelopeSlot::Modulator2 => {
                reveal_strlit("ModEnvDecay_2");
                assert(id.len() == 13);
            },
        },
        EnvelopeField::DecayFalloff => match slot {
            EnvelopeSlot::Main => {
                reveal_strlit("DecCurveType");
                assert(id.len() == 12);
            },
            EnvelopeSlot::Filter => {
                reveal_strlit("FilterDecCurveType");
                assert(id.len() == 18);
            },
            EnvelopeSlot::Modulator1 => {
                reveal_strlit("ModDecCurveType_1");
                assert(id.len() == 17);
            },
            EnvelopeSlot::Modulator2 => {
                reveal_strlit("ModDecCurveType_2");
                assert(id.len() == 17);
            },
        },
        EnvelopeField::Sustain => match slot {
            EnvelopeSlot::Main => {
                reveal_strlit("EnvSustain");
                assert(id.len() == 10);
            },
            EnvelopeSlot::Filter => {
                reveal_strlit("FilterEnvSustain");
                assert(id.len() == 16);
            },
            EnvelopeSlot::Modulator1 => {
                reveal_strlit("ModEnvSustain_1");
                assert(id.len() == 15);
            },
            EnvelopeSlot::Modulator2 => {
                reveal_strlit("ModEnvSustain_2");
                assert(id.len() == 15);
            },
        },
        EnvelopeField::Release => match slot {
            EnvelopeSlot::Main => {
                reveal_strlit("EnvRelease");
                assert(id.len() == 10);
            },
            EnvelopeSlot::Filter => {
                reveal_strlit("FilterEnvRelease");
                assert(id.len() == 16);
            },
            EnvelopeSlot::Modulator1 => {
                reveal_strlit("ModEnvRelease_1");
                assert(id.len() == 15);
            },
            EnvelopeSlot::Modulator2 => {
                reveal_strlit("ModEnvRelease_2");
                assert(id.len() == 15);
            },
        },
        EnvelopeField::ReleaseFalloff => match slot {
            EnvelopeSlot::Main => {
                reveal_strlit("RelCurveType");
                assert(id.len() == 12);
            },
            EnvelopeSlot::Filter => {
                reveal_strlit("FilterRelCurveType");
                assert(id.len() == 18);
            },
            EnvelopeSlot::Modulator1 => {
                reveal_strlit("ModRelCurveType_1");
                assert(id.len() == 17);
            },
            EnvelopeSlot::Modulator2 => {
                reveal_strlit("ModRelCurveType_2");
                assert(id.len() == 17);
            },
        },
    }
}

/// The decision tree finds each parameter of the tuning from its
/// identifier.
proof fn lemma_spelled_tuning(field: TuningField)
    ensures
        key_spelled(ParamKey::Tuning(field).id_text()) == Some(ParamKey::Tuning(field)),
{
    let id = ParamKey::Tuning(field).id_text();
    match field {
        TuningField::A => {
            reveal_strlit("TuneA");
            assert(id.len() == 5);
        },
        TuningField::ASharp => {
            reveal_strlit("TuneASharp");
            assert(id.len() == 10);
        },
        TuningField::B => {
            reveal_strlit("TuneB");
            assert(id.len() == 5);
        },
        TuningField::C => {
            reveal_strlit("TuneC");
            assert(id.len() == 5);
        },
        TuningField::CSharp => {
            reveal_strlit("TuneCSharp");
            assert(id.len() == 10);
        },
        TuningField::D => {
            reveal_strlit("TuneD");
            assert(id.len() == 5);
        },
        TuningField::DSharp => {
            reveal_strlit("TuneDSharp");
            assert(id.len() == 10);
        },
        TuningField::E => {
            reveal_strlit("TuneE");
            assert(id.len() == 5);
        },
        TuningField::F => {
            reveal_strlit("TuneF");
            assert(id.len() == 5);
        },
        TuningField::FSharp => {
            reveal_strlit("TuneFSharp");
            assert(id.len() == 10);
        },
        TuningField::G => {
            reveal_strlit("TuneG");
            assert(id.len() == 5);
        },
        TuningField::GSharp => {
            reveal_strlit("TuneGSharp");
            assert(id.len() == 10);
        },
        TuningField::Transpose => {
            reveal_strlit("Transpose");
            assert(id.len() == 9);
        },
    }
}

/// The decision tree finds each parameter of the filter from its
/// identifier.
proof fn lemma_spelled_filter(field: FilterField)
    ensures
        key_spelled(ParamKey::Filter(field).id_text()) == Some(ParamKey::Filter(field)),
{
    let id = ParamKey::Filter(field).id_text();
    match field {
        FilterField::Switch => {
            reveal_strlit("FilterSwitch");
            assert(id.len() == 12);
        },
        FilterField::Type => {
            reveal_strlit("FilterType");
            assert(id.len() == 10);
        },
        FilterField::Resonance => {
            reveal_strlit("FilterRes");
            assert(id.len() == 9);
        },
        FilterField::Cutoff => {
            reveal_strlit("FilterCut");
            assert(id.len() == 9);
        },
        FilterField::KeyTracking => {
            reveal_strlit("FilterKey");
            assert(id.len() == 9);
        },
        FilterField::EnvelopeAmount => {
            reveal_strlit("FilterEnv");
            assert(id.len() == 9);
        },
        FilterField::DriveSwitch => {
            reveal_strlit("FilterDriveSwitch");
            assert(id.len() == 17);
        },
        FilterField::DriveType => {
            reveal_strlit("FilterDriveType");
            assert(id.len() == 15);
        },
        FilterField::Drive => {
            reveal_strlit("FilterDrive");
            assert(id.len() == 11);
        },
    }
}

/// The decision tree finds each parameter of an oscillator from its
/// identifier.
proof fn lemma_spelled_oscillator(slot: OscillatorSlot, field: OscillatorField)
    ensures
        key_spelled(
            ParamKey::Oscillator(slot, field).id_text(),
        ) == Some(ParamKey::Oscillator(slot, field)),
{
    let id = ParamKey::Oscillator(slot, field).id_text();
    match field {
        OscillatorField::Switch => match slot {
            OscillatorSlot::First => {
                reveal_strlit("OSCSwitch_1");
                assert(id.len() == 11);
            },
            OscillatorSlot::Second => {
                reveal_strlit("OSCSwitch_2");
                assert(id.len() == 11);
            },
            OscillatorSlot::Third => {
                reveal_strlit("OSCSwitch_3");
                assert(id.len() == 11);
            },
        },
        OscillatorField::Waveform => match slot {
            OscillatorSlot::First => {
                reveal_strlit("OSCWaveType_1");
                assert(id.len() == 13);
            },
            OscillatorSlot::Second => {
                reveal_strlit("OSCWaveType_2");
                assert(id.len() == 13);
            },
            OscillatorSlot::Third => {
                reveal_strlit("OSCWaveType_3");
                assert(id.len() == 13);
            },
        },
        OscillatorField::Invert => match slot {
            OscillatorSlot::First => {
                reveal_strlit("OSCInvert_1");
                assert(id.len() == 11);
            },
            OscillatorSlot::Second => {
                reveal_strlit("OSCInvert_2");
                assert(id.len() == 11);
            },
            OscillatorSlot::Third => {
                reveal_strlit("OSCInvert_3");
                assert(id.len() == 11);
            },
        },
        OscillatorField::Pan => match slot {
            OscillatorSlot::First => {
                reveal_strlit("OSCPan_1");
                assert(id.len() == 8);
            },
            OscillatorSlot::Second => {
                reveal_strlit("OSCPan_2");
                assert(id.len() == 8);
            },
            OscillatorSlot::Third => {
                reveal_strlit("OSCPan_3");
                assert(id.len() == 8);
            },
        },
        OscillatorField::Phase => match slot {
            OscillatorSlot::First => {
                reveal_strlit("OSCPhase_1");
                assert(id.len() == 10);
            },
            OscillatorSlot::Second => {
                reveal_strlit("OSCPhase_2");
                assert(id.len() == 10);
            },
            OscillatorSlot::Third => {
                reveal_strlit("OSCPhase_3");
                assert(id.len() == 10);
            },
        },
        OscillatorField::Pitch => match slot {
            OscillatorSlot::First => {
                reveal_strlit("OSCPitch_1");
                assert(id.len() == 10);
            },
            OscillatorSlot::Second => {
                reveal_strlit("OSCPitch_2");
                assert(id.len() == 10);
            },
            OscillatorSlot::Third => {
                reveal_strlit("OSCPitch_3");
                assert(id.len() == 10);
            },
        },
        OscillatorField::Fine => match slot {
            OscillatorSlot::First => {
                reveal_strlit("OSCFine_1");
                assert(id.len() == 9);
            },
            OscillatorSlot::Second => {
                reveal_strlit("OSCFine_2");
                assert(id.len() == 9);
            },
            OscillatorSlot::Third => {
                reveal_strlit("OSCFine_3");
                assert(id.len() == 9);
            },
        },
        OscillatorField::Semitone => match slot {
            OscillatorSlot::First => {
                reveal_strlit("OSCSemi_1");
                assert(id.len() == 9);
            },
            OscillatorSlot::Second => {
                reveal_strlit("OSCSemi_2");
                assert(id.len() == 9);
            },
            OscillatorSlot::Third => {
                reveal_strlit("OSCSemi_3");
                assert(id.len() == 9);
            },
        },
        OscillatorField::Octave => match slot {
            OscillatorSlot::First => {
                reveal_strlit("OSCOctave_1");
                assert(id.len() == 11);
            },
            OscillatorSlot::Second => {
                reveal_strlit("OSCOctave_2");
                assert(id.len() == 11);
            },
            OscillatorSlot::Third => {
                reveal_strlit("OSCOctave_3");
                assert(id.len() == 11);
            },
        },
        OscillatorField::Reverse => match slot {
            OscillatorSlot::First => {
                reveal_strlit("OSCReverse_1");
                assert(id.len() == 12);
            },
            OscillatorSlot::Second => {
                reveal_strlit("OSCReverse_2");
                assert(id.len() == 12);
            },
            OscillatorSlot::Third => {
                reveal_strlit("OSCReverse_3");
                assert(id.len() == 12);
            },
        },
        OscillatorField::FreeRun => match slot {
            OscillatorSlot::First => {
                reveal_strlit("OSCFreeRun_1");
                assert(id.len() == 12);
            },
            OscillatorSlot::Second => {
                reveal_strlit("OSCFreeRun_2");
                assert(id.len() == 12);
            },
            OscillatorSlot::Third => {
                reveal_strlit("OSCFreeRun_3");
                assert(id.len() == 12);
            },
        },
        OscillatorField::SyncAll => match slot {
            OscillatorSlot::First => {
                reveal_strlit("OSCSyncAll_1");
                assert(id.len() == 12);
            },
            OscillatorSlot::Second => {
                reveal_strlit("OSCSyncAll_2");
                assert(id.len() == 12);
            },
            OscillatorSlot::Third => {
                reveal_strlit("OSCSyncAll_3");
                assert(id.len() == 12);
            },
        },
        OscillatorField::Volume => match slot {
            OscillatorSlot::First => {
                reveal_strlit("OSCVol_1");
                assert(id.len() == 8);
            },
            OscillatorSlot::Second => {
                reveal_strlit("OSCVol_2");
                assert(id.len() == 8);
            },
            OscillatorSlot::Third => {
                reveal_strlit("OSCVol_3");
                assert(id.len() == 8);
            },
        },
        OscillatorField::UnisonVoices => match slot {
            OscillatorSlot::First => {
                reveal_strlit("OSCNumVoice_1");
                assert(id.len() == 13);
            },
            OscillatorSlot::Second => {
                reveal_strlit("OSCNumVoice_2");
                assert(id.len() == 13);
            },
            OscillatorSlot::Third => {
                reveal_strlit("OSCNumVoice_3");
                assert(id.len() == 13);
            },
        },
        OscillatorField::UnisonDetune => match slot {
            OscillatorSlot::First => {
                reveal_strlit("OSCDetune_1");
                assert(id.len() == 11);
            },
            OscillatorSlot::Second => {
                reveal_strlit("OSCDetune_2");
                assert(id.len() == 11);
            },
            OscillatorSlot::Third => {
                reveal_strlit("OSCDetune_3");
                assert(id.len() == 11);
            },
        },
        OscillatorField::UnisonSpread => match slot {
            OscillatorSlot::First => {
                reveal_strlit("OSCSpread_1");
                assert(id.len() == 11);
            },
            OscillatorSlot::Second => {
                reveal_strlit("OSCSpread_2");
                assert(id.len() == 11);
            },
            OscillatorSlot::Third => {
                reveal_strlit("OSCSpread_3");
                assert(id.len() == 11);
            },
        },
        OscillatorField::UnisonMix => match slot {
            OscillatorSlot::First => {
                reveal_strlit("OSCUniMix_1");
                assert(id.len() == 11);
            },
            OscillatorSlot::Second => {
                reveal_strlit("OSCUniMix_2");
                assert(id.len() == 11);
            },
            OscillatorSlot::Third => {
                reveal_strlit("OSCUniMix_3");
                assert(id.len() == 11);
            },
        },
        OscillatorField::AmplitudeModulationSwitch => match slot {
            OscillatorSlot::First => {
                reveal_strlit("OSCAMSwitch_1");
                assert(id.len() == 13);
            },
            OscillatorSlot::Second => {
                reveal_strlit("OSCAMSwitch_2");
                assert(id.len() == 13);
            },
            OscillatorSlot::Third => {
                reveal_strlit("OSCAMSwitch_3");
                assert(id.len() == 13);
            },
        },
        OscillatorField::AmplitudeModulation => match slot {
            OscillatorSlot::First => {
                reveal_strlit("OSCAM_1");
                assert(id.len() == 7);
            },
            OscillatorSlot::Second => {
                reveal_strlit("OSCAM_2");
                assert(id.len() == 7);
            },
            OscillatorSlot::Third => {
                reveal_strlit("OSCAM_3");
                assert(id.len() == 7);
            },
        },
        OscillatorField::FrequencyModulationSwitch => match slot {
            OscillatorSlot::First => {
                reveal_strlit("OSCFMSwitch_1");
                assert(id.len() == 13);
            },
            OscillatorSlot::Second => {
                reveal_strlit("OSCFMSwitch_2");
                assert(id.len() == 13);
            },
            OscillatorSlot::Third => {
                reveal_strlit("OSCFMSwitch_3");
                assert(id.len() == 13);
            },
        },
        OscillatorField::FrequencyModulation => match slot {
            OscillatorSlot::First => {
                reveal_strlit("OSCFM_1");
                assert(id.len() == 7);
            },
            OscillatorSlot::Second => {
                reveal_strlit("OSCFM_2");
                assert(id.len() == 7);
            },
            OscillatorSlot::Third => {
                reveal_strlit("OSCFM_3");
                assert(id.len() == 7);
            },
        },
        OscillatorField::RingModulationSwitch => match slot {
            OscillatorSlot::First => {
                reveal_strlit("OSCRMSwitch_1");
                assert(id.len() == 13);
            },
            OscillatorSlot::Second => {
                reveal_strlit("OSCRMSwitch_2");
                assert(id.len() == 13);
            },
            OscillatorSlot::Third => {
                reveal_strlit("OSCRMSwitch_3");
                assert(id.len() == 13);
            },
        },
        OscillatorField::RingModulation => match slot {
            OscillatorSlot::First => {
                reveal_strlit("OSCRM_1");
                assert(id.len() == 7);
            },
            OscillatorSlot::Second => {
                reveal_strlit("OSCRM_2");
                assert(id.len() == 7);
            },
            OscillatorSlot::Third => {
                reveal_strlit("OSCRM_3");
                assert(id.len() == 7);
            },
        },
    }
}

/// The decision tree finds each parameter of the noise generator from its
/// identifier.
proof fn lemma_spelled_noise(field: NoiseField)
    ensures
        key_spelled(ParamKey::Noise(field).id_text()) == Some(ParamKey::Noise(field)),
{
    let id = ParamKey::Noise(field).id_text();
    match field {
        NoiseField::Switch => {
            reveal_strlit("OSCSwitch_N");
            assert(id.len() == 11);
        },
        NoiseField::Width => {
            reveal_strlit("OSCWidth_N");
            assert(id.len() == 10);
        },
        NoiseField::Pan => {
            reveal_strlit("OSCPan_N");
            assert(id.len() == 8);
        },
        NoiseField::Volume => {
            reveal_strlit("OSCVol_N");
            assert(id.len() == 8);
        },
    }
}

/// The decision tree finds each parameter of a low-frequency oscillator from its
/// identifier.
proof fn lemma_spelled_lfo(slot: PairSlot, field: LfoField)
    ensures
        key_spelled(ParamKey::Lfo(slot, field).id_text()) == Some(ParamKey::Lfo(slot, field)),
{
    let id = ParamKey::Lfo(slot, field).id_text();
    match field {
        LfoField::Switch => match slot {
            PairSlot::First => {
                reveal_strlit("LFOSwitch_1");
                assert(id.len() == 11);
            },
            PairSlot::Second => {
                reveal_strlit("LFOSwitch_2");
                assert(id.len() == 11);
            },
        },
        LfoField::Waveform => match slot {
            PairSlot::First => {
                reveal_strlit("LFOWaveType_1");
                assert(id.len() == 13);
            },
            PairSlot::Second => {
                reveal_strlit("LFOWaveType_2");
                assert(id.len() == 13);
            },
        },
        LfoField::Sync => match slot {
            PairSlot::First => {
                reveal_strlit("LFOSync_1");
                assert(id.len() == 9);
            },
            PairSlot::Second => {
                reveal_strlit("LFOSync_2");
                assert(id.len() == 9);
            },
        },
        LfoField::Invert => match slot {
            PairSlot::First => {
                reveal_strlit("LFOInvert_1");
                assert(id.len() == 11);
            },
            PairSlot::Second => {
                reveal_strlit("LFOInvert_2");
                assert(id.len() == 11);
            },
        },
        LfoField::Reverse => match slot {
            PairSlot::First => {
                reveal_strlit("LFOReverse_1");
                assert(id.len() == 12);
            },
            PairSlot::Second => {
                reveal_strlit("LFOReverse_2");
                assert(id.len() == 12);
            },
        },
        LfoField::Mono => match slot {
            PairSlot::First => {
                reveal_strlit("LFOMono_1");
                assert(id.len() == 9);
            },
            PairSlot::Second => {
                reveal_strlit("LFOMono_2");
                assert(id.len() == 9);
            },
        },
        LfoField::FreeRun => match slot {
            PairSlot::First => {
                reveal_strlit("LFOFreeRun_1");
                assert(id.len() == 12);
            },
            PairSlot::Second => {
                reveal_strlit("LFOFreeRun_2");
                assert(id.len() == 12);
            },
        },
        LfoField::Frequency => match slot {
            PairSlot::First => {
                reveal_strlit("LFOFreq_1");
                assert(id.len() == 9);
            },
            PairSlot::Second => {
                reveal_strlit("LFOFreq_2");
                assert(id.len() == 9);
            },
        },
        LfoField::Phase => match slot {
            PairSlot::First => {
                reveal_strlit("LFOPhase_1");
                assert(id.len() == 10);
            },
            PairSlot::Second => {
                reveal_strlit("LFOPhase_2");
                assert(id.len() == 10);
            },
        },
    }
}

/// The decision tree finds each parameter of a modulator envelope from its
/// identifier.
proof fn lemma_spelled_modulator(slot: PairSlot, field: ModulatorField)
    ensures
        key_spelled(
            ParamKey::Modulator(slot, field).id_text(),
        ) == Some(ParamKey::Modulator(slot, field)),
{
    let id = ParamKey::Modulator(slot, field).id_text();
    match field {
        ModulatorField::Switch => match slot {
            PairSlot::First => {
                reveal_strlit("ModEnvSwitch_1");
                assert(id.len() == 14);
            },
            PairSlot::Second => {
                reveal_strlit("ModEnvSwitch_2");
                assert(id.len() == 14);
            },
        },
        ModulatorField::Curve => match slot {
            PairSlot::First => {
                reveal_strlit("ModEnvCurveType_1");
                assert(id.len() == 17);
            },
            PairSlot::Second => {
                reveal_strlit("ModEnvCurveType_2");
                assert(id.len() == 17);
            },
        },
    }
}

/// The decision tree finds each parameter of the vibrato from its
/// identifier.
proof fn lemma_spelled_vibrato(field: VibratoField)
    ensures
        key_spelled(ParamKey::Vibrato(field).id_text()) == Some(ParamKey::Vibrato(field)),
{
    let id = ParamKey::Vibrato(field).id_text();
    match field {
        VibratoField::Switch => {
            reveal_strlit("VibSwitch");
            assert(id.len() == 9);
        },
        VibratoField::Attack => {
            reveal_strlit("VibAttack");
            assert(id.len() == 9);
        },
        VibratoField::Frequency => {
            reveal_strlit("VibFrequency");
            assert(id.len() == 12);
        },
        VibratoField::Delay => {
            reveal_strlit("VibDelay");
            assert(id.len() == 8);
        },
    }
}

/// The decision tree finds each parameter of the modulation matrix from its
/// identifier.
proof fn lemma_spelled_matrix(slot: MatrixSlot, field: MatrixField)
    ensures
        key_spelled(ParamKey::Matrix(slot, field).id_text()) == Some(ParamKey::Matrix(slot, field)),
{
    let id = ParamKey::Matrix(slot, field).id_text();
    match field {
        MatrixField::Source => match slot {
            MatrixSlot::First => {
                reveal_strlit("MatrixSource_1");
                assert(id.len() == 14);
            },
            MatrixSlot::Second => {
                reveal_strlit("MatrixSource_2");
                assert(id.len() == 14);
            },
            MatrixSlot::Third => {
                reveal_strlit("MatrixSource_3");
                assert(id.len() == 14);
            },
            MatrixSlot::Fourth => {
                reveal_strlit("MatrixSource_4");
                assert(id.len() == 14);
            },
            MatrixSlot::Fifth => {
                reveal_strlit("MatrixSource_5");
                assert(id.len() == 14);
            },
            MatrixSlot::Sixth => {
                reveal_strlit("MatrixSource_6");
                assert(id.len() == 14);
            },
            MatrixSlot::Seventh => {
                reveal_strlit("MatrixSource_7");
                assert(id.len() == 14);
            },
            MatrixSlot::Eighth => {
                reveal_strlit("MatrixSource_8");
                assert(id.len() == 14);
            },
        },
        MatrixField::Target => match slot {
            MatrixSlot::First => {
                reveal_strlit("MatrixTarget_1");
                assert(id.len() == 14);
            },
            MatrixSlot::Second => {
                reveal_strlit("MatrixTarget_2");
                assert(id.len() == 14);
            },
            MatrixSlot::Third => {
                reveal_strlit("MatrixTarget_3");
                assert(id.len() == 14);
            },
            MatrixSlot::Fourth => {
                reveal_strlit("MatrixTarget_4");
                assert(id.len() == 14);
            },
            MatrixSlot::Fifth => {
                reveal_strlit("MatrixTarget_5");
                assert(id.len() == 14);
            },
            MatrixSlot::Sixth => {
                reveal_strlit("MatrixTarget_6");
                assert(id.len() == 14);
            },
            MatrixSlot::Seventh => {
                reveal_strlit("MatrixTarget_7");
                assert(id.len() == 14);
            },
            MatrixSlot::Eighth => {
                reveal_strlit("MatrixTarget_8");
                assert(id.len() == 14);
            },
        },
        MatrixField::Amount => match slot {
            MatrixSlot::First => {
                reveal_strlit("MatrixAmount_1");
                assert(id.len() == 14);
            },
            MatrixSlot::Second => {
                reveal_strlit("MatrixAmount_2");
                assert(id.len() == 14);
            },
            MatrixSlot::Third => {
                reveal_strlit("MatrixAmount_3");
                assert(id.len() == 14);
            },
            MatrixSlot::Fourth => {
                reveal_strlit("MatrixAmount_4");
                assert(id.len() == 14);
            },
            MatrixSlot::Fifth => {
                reveal_strlit("MatrixAmount_5");
                assert(id.len() == 14);
            },
            MatrixSlot::Sixth => {
                reveal_strlit("MatrixAmount_6");
                assert(id.len() == 14);
            },
            MatrixSlot::Seventh => {
                reveal_strlit("MatrixAmount_7");
                assert(id.len() == 14);
            },
            MatrixSlot::Eighth => {
                reveal_strlit("MatrixAmount_8");
                assert(id.len() == 14);
            },
        },
    }
}

/// The decision tree finds each parameter of the chorus from its
/// identifier.
proof fn lemma_spelled_chorus(field: ChorusField)
    ensures
        key_spelled(ParamKey::Chorus(field).id_text()) == Some(ParamKey::Chorus(field)),
{
    let id = ParamKey::Chorus(field).id_text();
    match field {
        ChorusField::Switch => {
            reveal_strlit("ChorusSwitch");
            assert(id.len() == 12);
        },
        ChorusField::Depth => {
            reveal_strlit("ChorusDepth");
            assert(id.len() == 11);
        },
        ChorusField::Mix => {
            reveal_strlit("ChorusMix");
            assert(id.len() == 9);
        },
        ChorusField::PreDelay => {
            reveal_strlit("ChorusPdelay");
            assert(id.len() == 12);
        },
        ChorusField::Ratio => {
            reveal_strlit("ChorusRatio");
            assert(id.len() == 11);
        },
    }
}

/// The decision tree finds each parameter of the delay from its
/// identifier.
proof fn lemma_spelled_delay(field: DelayField)
    ensures
        key_spelled(ParamKey::Delay(field).id_text()) == Some(ParamKey::Delay(field)),
{
    let id = ParamKey::Delay(field).id_text();
    match field {
        DelayField::Switch => {
            reveal_strlit("DelaySwitch");
            assert(id.len() == 11);
        },
        DelayField::PingPong => {
            reveal_strlit("DelayMode");
            assert(id.len() == 9);
        },
        DelayField::Feedback => {
            reveal_strlit("DelayFeed");
            assert(id.len() == 9);
        },
        DelayField::Filter => {
            reveal_strlit("DelayLP");
            assert(id.len() == 7);
        },
        DelayField::FilterMode => {
            reveal_strlit("DelayFilterMode");
            assert(id.len() == 15);
        },
        DelayField::Sync => {
            reveal_strlit("DelaySync");
            assert(id.len() == 9);
        },
        DelayField::Time => {
            reveal_strlit("DelayTime");
            assert(id.len() == 9);
        },
        DelayField::Mix => {
            reveal_strlit("DelayMix");
            assert(id.len() == 8);
        },
    }
}

/// The decision tree finds each parameter of the distortion from its
/// identifier.
proof fn lemma_spelled_distortion(field: DistortionField)
    ensures
        key_spelled(ParamKey::Distortion(field).id_text()) == Some(ParamKey::Distortion(field)),
{
    let id = ParamKey::Distortion(field).id_text();
    match field {
        DistortionField::Switch => {
            reveal_strlit("DistSwitch");
            assert(id.len() == 10);
        },
        DistortionField::Gain => {
            reveal_strlit("DistGain");
            assert(id.len() == 8);
        },
    }
}

/// The decision tree finds each parameter of the equalizer from its
/// identifier.
proof fn lemma_spelled_equalizer(field: EqualizerField)
    ensures
        key_spelled(ParamKey::Equalizer(field).id_text()) == Some(ParamKey::Equalizer(field)),
{
    let id = ParamKey::Equalizer(field).id_text();
    match field {
        EqualizerField::Switch => {
            reveal_strlit("EQSwitch");
            assert(id.len() == 8);
        },
        EqualizerField::High => {
            reveal_strlit("EQHigh");
            assert(id.len() == 6);
        },
        EqualizerField::Low => {
            reveal_strlit("EQLow");
            assert(id.len() == 5);
        },
        EqualizerField::Mid => {
            reveal_strlit("EQMid");
            assert(id.len() == 5);
        },
    }
}

/// The decision tree finds each parameter of the filter among the effects from its
/// identifier.
proof fn lemma_spelled_effect_filter(field: EffectFilterField)
    ensures
        key_spelled(ParamKey::EffectFilter(field).id_text()) == Some(ParamKey::EffectFilter(field)),
{
    let id = ParamKey::EffectFilter(field).id_text();
    match field {
        EffectFilterField::Switch => {
            reveal_strlit("FXFilterSwitch");
            assert(id.len() == 14);
        },
        EffectFilterField::Type => {
            reveal_strlit("FXFilterType");
            assert(id.len() == 12);
        },
        EffectFilterField::Resonance => {
            reveal_strlit("FXFilterRes");
            assert(id.len() == 11);
        },
        EffectFilterField::Cutoff => {
            reveal_strlit("FXFilterCut");
            assert(id.len() == 11);
        },
    }
}

/// The decision tree finds each parameter of the rate reducer from its
/// identifier.
proof fn lemma_spelled_lo_fi(field: LoFiField)
    ensures
        key_spelled(ParamKey::LoFi(field).id_text()) == Some(ParamKey::LoFi(field)),
{
    let id = ParamKey::LoFi(field).id_text();
    match field {
        LoFiField::Switch => {
            reveal_strlit("LoFiSwitch");
            assert(id.len() == 10);
        },
        LoFiField::BitRate => {
            reveal_strlit("LoFiBitRate");
            assert(id.len() == 11);
        },
        LoFiField::SampleRate => {
            reveal_strlit("LoFiSampleRate");
            assert(id.len() == 14);
        },
        LoFiField::Mix => {
            reveal_strlit("LoFiMix");
            assert(id.len() == 7);
        },
    }
}

/// The decision tree finds each parameter of the reverb from its
/// identifier.
proof fn lemma_spelled_reverb(field: ReverbField)
    ensures
        key_spelled(ParamKey::Reverb(field).id_text()) == Some(ParamKey::Reverb(field)),
{
    let id = ParamKey::Reverb(field).id_text();
    match field {
        ReverbField::Switch => {
            reveal_strlit("ReverbSwitch");
            assert(id.len() == 12);
        },
        ReverbField::Dampen => {
            reveal_strlit("ReverbDamp");
            assert(id.len() == 10);
        },
        ReverbField::Room => {
            reveal_strlit("ReverbRoom");
            assert(id.len() == 10);
        },
        ReverbField::Filter => {
            reveal_strlit("ReverbLP");
            assert(id.len() == 8);
        },
        ReverbField::Width => {
            reveal_strlit("ReverbWidth");
            assert(id.len() == 11);
        },
        ReverbField::Mix => {
            reveal_strlit("ReverbMix");
            assert(id.len() == 9);
        },
    }
}

/// The decision tree finds each parameter of the preset as a whole from its
/// identifier.
proof fn lemma_spelled_settings(field: SettingField)
    ensures
        key_spelled(ParamKey::Settings(field).id_text()) == Some(ParamKey::Settings(field)),
{
    let id = ParamKey::Settings(field).id_text();
    match field {
        SettingField::MasterVolume => {
            reveal_strlit("MainVol");
            assert(id.len() == 7);
        },
        SettingField::Polyphony => {
            reveal_strlit("MaxVoices");
            assert(id.len() == 9);
        },
        SettingField::PortamentoMode => {
            reveal_strlit("PortaMode");
            assert(id.len() == 9);
        },
        SettingField::MidiPlayMode => {
            reveal_strlit("MidiPlayMode");
            assert(id.len() == 12);
        },
        SettingField::Glide => {
            reveal_strlit("Glide");
            assert(id.len() == 5);
        },
        SettingField::VelocityCurve => {
            reveal_strlit("VeloCurve");
            assert(id.len() == 9);
        },
        SettingField::KeyTrackCurve => {
            reveal_strlit("KeyTrackCurve");
            assert(id.len() == 13);
        },
        SettingField::PitchBendRange => {
            reveal_strlit("PBRange");
            assert(id.len() == 7);
        },
        SettingField::LimitSwitch => {
            reveal_strlit("LimitSwitch");
            assert(id.len() == 11);
        },
        SettingField::EnvelopeCurve => {
            reveal_strlit("EnvCurveType");
            assert(id.len() == 12);
        },
        SettingField::FilterEnvelopeCurve => {
            reveal_strlit("FilterEnvCurveType");
            assert(id.len() == 18);
        },
        SettingField::HardSync => {
            reveal_strlit("OSCSync21");
            assert(id.len() == 9);
        },
        SettingField::Pitch => {
            reveal_strlit("PCH");
            assert(id.len() == 3);
        },
    }
}

/// The decision tree finds each parameter from its own identifier.
proof fn lemma_spelled(key: ParamKey)
    ensures
        key_spelled(key.id_text()) == Some(key),
{
    match key {
        ParamKey::Envelope(slot, field) => lemma_spelled_envelope(slot, field),
        ParamKey::Tuning(field) => lemma_spelled_tuning(field),
        ParamKey::Filter(field) => lemma_spelled_filter(field),
        ParamKey::Oscillator(slot, field) => lemma_spelled_oscillator(slot, field),
        ParamKey::Noise(field) => lemma_spelled_noise(field),
        ParamKey::Lfo(slot, field) => lemma_spelled_lfo(slot, field),
        ParamKey::Modulator(slot, field) => lemma_spelled_modulator(slot, field),
        ParamKey::Vibrato(field) => lemma_spelled_vibrato(field),
        ParamKey::Matrix(slot, field) => lemma_spelled_matrix(slot, field),
        ParamKey::Chorus(field) => lemma_spelled_chorus(field),
        ParamKey::Delay(field) => lemma_spelled_delay(field),
        ParamKey::Distortion(field) => lemma_spelled_distortion(field),
        ParamKey::Equalizer(field) => lemma_spelled_equalizer(field),
        ParamKey::EffectFilter(field) => lemma_spelled_effect_filter(field),
        ParamKey::LoFi(field) => lemma_spelled_lo_fi(field),
        ParamKey::Reverb(field) => lemma_spelled_reverb(field),
        ParamKey::Settings(field) => lemma_spelled_settings(field),
    }
}

/// No two parameters share an identifier.
pub proof fn lemma_ids_differ(a: ParamKey, b: ParamKey)
    requires
        a.id_text() == b.id_text(),
    ensures
        a == b,
{
    lemma_spelled(a);
    lemma_spelled(b);
}

/// A parameter is the one named by its own identifier.
pub proof fn lemma_key_named(key: ParamKey)
    ensures
        key_named(key.id_text()) == Some(key),
{
    let found = choose|other: ParamKey| other.id_text() == key.id_text();
    lemma_ids_differ(found, key);
}

} // verus!
