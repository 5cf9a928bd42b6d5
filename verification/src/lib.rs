//! Reads presets of the Babylon synthesizer.
//!
//! A preset file is a flat list of named parameters, each holding a number as
//! text, under a handful of structural fields. [`Preset::decode`] turns the
//! fields and parameters into a [`Preset`]: parameters that are missing or
//! hold no number give way to the synthesizer's own settings, and only an
//! order of the effects that names an unknown effect fails.

pub mod assemble;
pub mod effect;
pub mod error;
pub mod key;
pub mod laws;
pub mod model;
pub mod number;
pub mod param;
pub mod session;
pub mod waveform;

pub use assemble::Decoded;
pub use effect::{
    Chorus, Delay, DelayFilterMode, Distortion, Effect, EffectType, Equalizer, Filter,
    FilterEffectMode, FilterMode, LoFi, Reverb,
};
pub use error::DecodeError;
pub use model::{
    Envelope, EnvelopeCurve, Lfo, MatrixItem, MidiPlayMode, ModulatorEnvelope, Noise, Oscillator,
    PortamentoMode, Preset, Ratio, Time, Tuning, Unison, Vibrato,
};
pub use number::Number;
pub use param::{Param, PluginParamTree};
pub use waveform::Waveform;
