use synthahol_babylon::assemble::resolve_effect_order;
use synthahol_babylon::{
    DecodeError, DelayFilterMode, Effect, EffectType, EnvelopeCurve, FilterEffectMode, FilterMode,
    MidiPlayMode, Number, Param, PluginParamTree, PortamentoMode, Preset, Waveform,
};

const MODULATION_MATRIX_SIZE: usize = 8;

fn param(id: &str, value: &str) -> Param {
    Param { id: id.to_owned(), value: Some(value.to_owned()) }
}

fn tree(
    name: &str,
    info: &str,
    order: [Option<u32>; 7],
    pairs: &[(&str, &str)],
) -> PluginParamTree {
    PluginParamTree {
        scale: 0,
        custom_scale: 0,
        root_key: 0,
        preset_id: Some(-1),
        preset_folder: Some(0),
        preset_name: name.to_owned(),
        preset_info: info.to_owned(),
        fx_order0: order[0],
        fx_order1: order[1],
        fx_order2: order[2],
        fx_order3: order[3],
        fx_order4: order[4],
        fx_order5: order[5],
        fx_order6: order[6],
        params: pairs.iter().map(|(id, value)| param(id, value)).collect(),
    }
}

fn natural() -> [Option<u32>; 7] {
    [Some(0), Some(1), Some(2), Some(3), Some(4), Some(5), Some(6)]
}

fn read(pairs: &[(&str, &str)]) -> Preset {
    Preset::decode(tree("preset", "Preset Info", natural(), pairs)).unwrap().preset
}

fn as_f64(number: Number) -> f64 {
    match number {
        Number::Finite { negative, coefficient, exponent } => {
            let sign = if negative { "-" } else { "" };
            format!("{}{}e{}", sign, coefficient, exponent).parse().unwrap()
        }
        Number::Infinite { negative } => {
            if negative {
                f64::NEG_INFINITY
            } else {
                f64::INFINITY
            }
        }
        Number::NotANumber => f64::NAN,
    }
}

fn close(actual: f64, expected: f64, epsilon: f64) -> bool {
    (actual - expected).abs() <= epsilon
}

fn all_effect_types() -> Vec<EffectType> {
    vec![
        EffectType::Distortion,
        EffectType::LoFi,
        EffectType::Filter,
        EffectType::Chorus,
        EffectType::Equalizer,
        EffectType::Delay,
        EffectType::Reverb,
    ]
}

fn init_pairs() -> Vec<(&'static str, &'static str)> {
    vec![
        ("MainVol", "0.5"),
        ("MaxVoices", "8.0"),
        ("PortaMode", "0.0"),
        ("MidiPlayMode", "0.0"),
        ("Glide", "30.0"),
        ("VeloCurve", "0.5"),
        ("KeyTrackCurve", "0.0"),
        ("PBRange", "2.0"),
        ("LimitSwitch", "0.0"),
        ("EnvAttack", "2.0"),
        ("AttCurveType", "0.07000000029802322"),
        ("EnvDecay", "150.0"),
        ("DecCurveType", "0.07000000029802322"),
        ("EnvSustain", "0.8999999761581421"),
        ("EnvRelease", "4.0"),
        ("RelCurveType", "0.07000000029802322"),
        ("EnvCurveType", "0.1400000005960464"),
        ("Transpose", "0.0"),
        ("PCH", "0.0"),
        ("TuneA", "0.0"),
        ("TuneASharp", "0.0"),
        ("TuneB", "0.0"),
        ("TuneC", "0.0"),
        ("TuneCSharp", "0.0"),
        ("TuneD", "0.0"),
        ("TuneDSharp", "0.0"),
        ("TuneE", "0.0"),
        ("TuneF", "0.0"),
        ("TuneFSharp", "0.0"),
        ("TuneG", "0.0"),
        ("TuneGSharp", "0.0"),
        ("FilterSwitch", "0.0"),
        ("FilterType", "0.0"),
        ("FilterRes", "0.0"),
        ("FilterCut", "1.0"),
        ("FilterKey", "0.0"),
        ("FilterEnv", "0.0"),
        ("FilterDriveSwitch", "0.0"),
        ("FilterDriveType", "0.0"),
        ("FilterDrive", "0.5"),
        ("FilterEnvAttack", "2.0"),
        ("FilterAttCurveType", "0.07000000029802322"),
        ("FilterEnvDecay", "150.0"),
        ("FilterDecCurveType", "0.07000000029802322"),
        ("FilterEnvSustain", "0.01999999955296516"),
        ("FilterEnvRelease", "4.0"),
        ("FilterRelCurveType", "0.07000000029802322"),
        ("FilterEnvCurveType", "0.1400000005960464"),
        ("OSCSwitch_1", "1.0"),
        ("OSCSwitch_2", "0.0"),
        ("OSCSwitch_3", "0.0"),
        ("OSCVol_1", "0.5"),
        ("OSCVol_2", "0.5"),
        ("OSCVol_3", "0.5"),
        ("OSCWaveType_1", "0.0"),
        ("OSCWaveType_2", "0.0"),
        ("OSCWaveType_3", "0.0"),
        ("OSCNumVoice_1", "1.0"),
        ("OSCNumVoice_2", "1.0"),
        ("OSCNumVoice_3", "1.0"),
        ("OSCSync21", "0.0"),
        ("OSCSwitch_N", "0.0"),
        ("OSCWidth_N", "1.0"),
        ("OSCPan_N", "0.5"),
        ("OSCVol_N", "0.3199999928474426"),
        ("LFOSwitch_1", "0.0"),
        ("LFOSync_1", "1.0"),
        ("LFOFreq_1", "0.3499999940395355"),
        ("LFOSwitch_2", "0.0"),
        ("LFOSync_2", "1.0"),
        ("LFOFreq_2", "0.3499999940395355"),
        ("ModEnvSwitch_1", "0.0"),
        ("ModEnvCurveType_1", "0.1400000005960464"),
        ("ModEnvAttack_1", "1.0"),
        ("ModEnvDecay_1", "150.0"),
        ("ModEnvSustain_1", "0.8999999761581421"),
        ("ModEnvRelease_1", "1.0"),
        ("ModEnvSwitch_2", "0.0"),
        ("ModEnvCurveType_2", "0.1400000005960464"),
        ("ModEnvAttack_2", "1.0"),
        ("ModEnvDecay_2", "150.0"),
        ("ModEnvSustain_2", "0.8999999761581421"),
        ("ModEnvRelease_2", "1.0"),
        ("VibSwitch", "0.0"),
        ("VibAttack", "232.0"),
        ("VibDelay", "232.0"),
        ("VibFrequency", "6.099999904632568"),
        ("MatrixSource_1", "7.0"),
        ("MatrixTarget_1", "2.0"),
        ("MatrixAmount_1", "1.0"),
        ("ChorusSwitch", "0.0"),
        ("ChorusDepth", "0.5"),
        ("ChorusMix", "0.5"),
        ("ChorusPdelay", "0.5"),
        ("ChorusRatio", "0.5"),
        ("DelaySwitch", "0.0"),
        ("DelayMode", "0.0"),
        ("DelaySync", "1.0"),
        ("DelayTime", "0.1700000017881393"),
        ("DelayFeed", "0.300000011920929"),
        ("DelayLP", "0.0"),
        ("DelayMix", "0.2000000029802322"),
        ("DistSwitch", "0.0"),
        ("DistGain", "0.2000000029802322"),
        ("FXFilterSwitch", "0.0"),
        ("FXFilterType", "0.0"),
        ("FXFilterCut", "0.5"),
        ("FXFilterRes", "0.1000000014901161"),
        ("EQSwitch", "0.0"),
        ("EQLow", "0.5"),
        ("EQMid", "0.5"),
        ("EQHigh", "0.5"),
        ("LoFiSwitch", "0.0"),
        ("LoFiBitRate", "1.0"),
        ("LoFiSampleRate", "1.0"),
        ("LoFiMix", "1.0"),
        ("ReverbSwitch", "0.0"),
        ("ReverbDamp", "0.300000011920929"),
        ("ReverbLP", "0.0"),
        ("ReverbRoom", "0.300000011920929"),
        ("ReverbWidth", "0.800000011920929"),
        ("ReverbMix", "0.2000000029802322"),
    ]
}

#[test]
fn delay() {
    let preset = read(&[("DelayMode", "0.0")]);
    assert!(!preset.delay.ping_pong);

    let preset = read(&[("DelayMode", "1.0")]);
    assert!(preset.delay.ping_pong);

    let preset = read(&[
        ("DelayMode", "1.0"),
        ("DelaySync", "1.0"),
        ("DelayTime", "1.0"),
        ("DelayLP", "0.6669999957084656"),
    ]);
    assert!(preset.delay.ping_pong);
    assert!(preset.delay.sync);
    assert_eq!(as_f64(preset.delay.time), 1.0);
    assert_eq!(preset.delay.filter_mode, DelayFilterMode::HighPass100);

    let preset = read(&[("DelaySync", "0.0"), ("DelayTime", "0.5040000081062317")]);
    assert!(!preset.delay.sync);
    assert!(close(as_f64(preset.delay.time), 0.504, 0.00001));

    let preset = read(&[("DelayTime", "0.2569999992847443"), ("DelayLP", "0.3330000042915344")]);
    assert!(close(as_f64(preset.delay.time), 0.257, 0.00001));
    assert_eq!(preset.delay.filter_mode, DelayFilterMode::LowPass200);

    let preset = read(&[("DelayTime", "0.4099999964237213"), ("DelayLP", "0.7080000042915344")]);
    assert!(close(as_f64(preset.delay.time), 0.410, 0.00001));
    assert_eq!(preset.delay.filter_mode, DelayFilterMode::BandPass3000);
}

#[test]
fn delay_filter_mode() {
    let preset = read(&[("DelaySwitch", "1.0"), ("DelayFilterMode", "1.0")]);
    assert!(preset.delay.enabled);
    assert_eq!(preset.delay.filter_mode, DelayFilterMode::BandPass150);

    let preset = read(&[("DelaySwitch", "1.0"), ("DelayFilterMode", "0.8330000042915344")]);
    assert!(preset.delay.enabled);
    assert_eq!(preset.delay.filter_mode, DelayFilterMode::BandPass1000);

    let preset = read(&[("DelaySwitch", "1.0"), ("DelayFilterMode", "0.625")]);
    assert!(preset.delay.enabled);
    assert_eq!(preset.delay.filter_mode, DelayFilterMode::HighPass250);

    let preset = read(&[("DelaySwitch", "1.0"), ("DelayFilterMode", "0.3330000042915344")]);
    assert!(preset.delay.enabled);
    assert_eq!(preset.delay.filter_mode, DelayFilterMode::LowPass200);
}

#[test]
fn distortion() {
    let preset = read(&[("DistSwitch", "1.0"), ("DistGain", "0.5")]);
    assert!(preset.distortion.enabled);
    assert_eq!(as_f64(preset.distortion.gain), 0.5);
}

#[test]
fn effect_order() {
    let order = [Some(6), Some(5), Some(4), Some(3), Some(2), Some(1), Some(0)];
    let preset = Preset::decode(tree("reversed", "Preset Info", order, &[])).unwrap().preset;
    let expected_effect_order: Vec<EffectType> = all_effect_types().into_iter().rev().collect();
    assert_eq!(&preset.effect_order, &expected_effect_order);
    assert_eq!(preset.effect_position(EffectType::Equalizer).unwrap(), 2);
}

#[test]
fn equalizer() {
    let preset =
        read(&[("EQSwitch", "1.0"), ("EQLow", "0.5"), ("EQMid", "0.5"), ("EQHigh", "0.5")]);
    assert!(preset.equalizer.enabled);
    assert_eq!(as_f64(preset.equalizer.low_gain.percent), 0.5);
    assert_eq!(as_f64(preset.equalizer.mid_gain.percent), 0.5);
    assert_eq!(as_f64(preset.equalizer.high_gain.percent), 0.5);
}

#[test]
fn filter() {
    let preset = read(&[("FilterType", "1.0"), ("FilterCut", "1.0")]);
    assert_eq!(preset.filter.mode, FilterMode::BandPass);
    assert_eq!(as_f64(preset.filter.cutoff_frequency), 100.0);

    let preset = read(&[("FilterType", "2.0")]);
    assert_eq!(preset.filter.mode, FilterMode::HighPass);

    let preset = read(&[("FilterType", "3.0")]);
    assert_eq!(preset.filter.mode, FilterMode::Notch);

    let preset = read(&[("FilterType", "4.0")]);
    assert_eq!(preset.filter.mode, FilterMode::Peak);
}

#[test]
fn reverb() {
    let preset = read(&[
        ("ReverbSwitch", "1.0"),
        ("ReverbRoom", "1.0"),
        ("ReverbWidth", "0.0"),
        ("ReverbDamp", "0.5"),
        ("ReverbMix", "0.3400000035762787"),
        ("ReverbLP", "0.5830000042915344"),
    ]);
    assert!(preset.reverb.enabled);
    assert!(close(as_f64(preset.reverb.room), 1.0, 0.0001));
    assert!(close(as_f64(preset.reverb.width), 0.0, 0.0001));
    assert!(close(as_f64(preset.reverb.dampen), 0.50, 0.0001));
    assert!(close(as_f64(preset.reverb.mix), 0.34, 0.0001));
    assert!(close(as_f64(preset.reverb.filter), 0.583, 0.0001));
}

/// Check defaults.
#[test]
fn init() {
    let preset =
        Preset::decode(tree("init", "Preset Info", natural(), &init_pairs())).unwrap().preset;
    assert_eq!(as_f64(preset.master_volume_normalized), 0.5); // 0 dB
    assert_eq!(preset.polyphony, 8);
    assert_eq!(preset.portamento_mode, PortamentoMode::Poly);
    assert_eq!(preset.midi_play_mode, MidiPlayMode::Normal);
    assert_eq!(as_f64(preset.velocity_curve), 0.5);
    assert_eq!(as_f64(preset.key_track_curve), 0.0);
    assert_eq!(as_f64(preset.pitch_bend_range), 2.0);
    assert!(!preset.limit_enabled);
    assert!(close(as_f64(preset.glide), 30.0, 0.0001));

    assert_eq!(preset.name, "init".to_owned());
    assert!(preset.description.is_none());

    let envelope = &preset.envelope;
    assert!(close(as_f64(envelope.attack.milliseconds), 2.0, 0.0001));
    assert!(close(as_f64(envelope.attack_curve), 0.07, 0.0001));
    assert!(close(as_f64(envelope.decay.milliseconds), 150.0, 0.0001));
    assert!(close(as_f64(envelope.decay_falloff), 0.07, 0.0001));
    assert!(close(as_f64(envelope.sustain.percent), 0.9, 0.0001));
    assert!(close(as_f64(envelope.release.milliseconds), 4.0, 0.0001));
    assert!(close(as_f64(envelope.release_falloff), 0.07, 0.0001));
    assert!(close(as_f64(preset.envelope_curve), 0.14, 0.0001));

    let tuning = &preset.tuning;
    assert_eq!(as_f64(tuning.transpose), 0.0);
    assert_eq!(tuning.scale, 0);
    assert_eq!(tuning.root_key, 0);
    let tunings: Vec<f64> = tuning.tunings.iter().map(|offset| as_f64(*offset)).collect();
    assert_eq!(tunings, [0.0_f64; 12]);

    let filter = &preset.filter;
    assert!(!filter.enabled);
    assert_eq!(filter.mode, FilterMode::LowPass);
    assert!(close(as_f64(filter.resonance), 0.0, 0.0001));
    assert!(close(as_f64(filter.key_tracking), 0.0, 0.0001));
    assert!(close(as_f64(filter.cutoff_frequency), 100.0, 0.0001));
    assert!(close(as_f64(filter.envelope_amount), 0.0, 0.0001));
    assert!(!filter.effect_enabled);
    assert!(close(as_f64(filter.effect_amount), 0.5, 0.0001));
    assert_eq!(filter.effect_mode, FilterEffectMode::Off);

    let filter_env = &filter.envelope;
    assert!(close(as_f64(filter_env.attack.milliseconds), 2.0, 0.0001));
    assert!(close(as_f64(filter_env.attack_curve), 0.07, 0.0001));
    assert!(close(as_f64(filter_env.decay.milliseconds), 150.0, 0.0001));
    assert!(close(as_f64(filter_env.decay_falloff), 0.07, 0.0001));
    assert!(close(as_f64(filter_env.sustain.percent), 0.02, 0.0001));
    assert!(close(as_f64(filter_env.release.milliseconds), 4.0, 0.0001));
    assert!(close(as_f64(filter_env.release_falloff), 0.07, 0.0001));
    assert!(close(as_f64(preset.filter_envelope_curve), 0.14, 0.0001));

    //
    // Oscillators
    //

    assert_eq!(preset.oscillators.len(), 3);
    assert!(preset.oscillators[0].enabled);
    assert!(!preset.oscillators[1].enabled);
    assert!(!preset.oscillators[2].enabled);
    for osc in &preset.oscillators {
        assert!(!osc.invert);
        assert!(!osc.reverse);
        assert!(!osc.free_run);
        assert!(!osc.sync_all);

        assert!(!osc.am_enabled);
        assert_eq!(as_f64(osc.am_amount), 0.0);
        assert!(!osc.fm_enabled);
        assert_eq!(as_f64(osc.fm_amount), 0.0);
        assert!(!osc.rm_enabled);
        assert_eq!(as_f64(osc.rm_amount), 0.0);

        assert_eq!(osc.waveform, Waveform::Sine);

        assert!(close(as_f64(osc.pan), 0.5, 0.0001));
        assert!(close(as_f64(osc.phase), 0.0, 0.0001));
        assert!(close(as_f64(osc.volume), 0.5, 0.0001));

        assert!(close(as_f64(osc.pitch), 0.0, 0.0001));
        assert_eq!(osc.fine_tuning, 0);
        assert_eq!(osc.semitone_tuning, 0);
        assert_eq!(osc.octave_tuning, 0);

        let unison = &osc.unison;
        assert_eq!(unison.voices, 1);
        assert!(close(as_f64(unison.detune), 0.2, 0.0001));
        assert!(close(as_f64(unison.spread), 0.5, 0.0001));
        assert!(close(as_f64(unison.mix), 1.0, 0.0001));
    }

    assert!(!preset.hard_sync);

    let noise = &preset.noise;
    assert!(!noise.enabled);
    assert!(close(as_f64(noise.width), 1.0, 0.0001));
    assert!(close(as_f64(noise.pan), 0.5, 0.0001));
    assert!(close(as_f64(noise.volume), 0.32, 0.0001));

    //
    // Modulators
    //

    assert_eq!(preset.lfos.len(), 2);
    for lfo in &preset.lfos {
        assert!(!lfo.enabled);
        assert_eq!(lfo.waveform, Waveform::Sine);
        assert!(lfo.sync);
        assert!(!lfo.invert);
        assert!(!lfo.reverse);
        assert!(!lfo.mono);
        assert!(!lfo.free_run);
        assert!(close(as_f64(lfo.frequency), 0.35, 0.0001));
        assert!(close(as_f64(lfo.phase), 0.0, 0.0001));
    }

    assert_eq!(preset.mod_envelopes.len(), 2);
    for mod_envelope in &preset.mod_envelopes {
        assert!(!mod_envelope.enabled);
        assert!(close(as_f64(mod_envelope.curve), 0.14, 0.0001));
        let env = &mod_envelope.envelope;
        assert!(close(as_f64(env.attack.milliseconds), 1.0, 0.0001));
        assert!(close(as_f64(env.attack_curve), 0.07, 0.0001));
        assert!(close(as_f64(env.decay.milliseconds), 150.0, 0.0001));
        assert!(close(as_f64(env.decay_falloff), 0.07, 0.0001));
        assert!(close(as_f64(env.sustain.percent), 0.9, 0.0001));
        assert!(close(as_f64(env.release.milliseconds), 1.0, 0.0001));
        assert!(close(as_f64(env.release_falloff), 0.07, 0.0001));
    }

    let vibrato = &preset.vibrato;
    assert!(!vibrato.enabled);
    assert!(close(as_f64(vibrato.attack), 232.0, 0.0001));
    assert!(close(as_f64(vibrato.delay), 232.0, 0.0001));
    assert!(close(as_f64(vibrato.frequency), 6.1, 0.0001));

    assert_eq!(preset.matrix[0].source, 7);
    assert_eq!(preset.matrix[0].target, 2);
    assert_eq!(as_f64(preset.matrix[0].amount), 1.0);
    for index in 1..MODULATION_MATRIX_SIZE {
        assert_eq!(preset.matrix[index].source, 0);
        assert_eq!(preset.matrix[index].target, 0);
        assert_eq!(as_f64(preset.matrix[index].amount), 0.0);
    }

    //
    // Effects
    //

    let expected_effect_order: Vec<EffectType> = all_effect_types();
    assert_eq!(&preset.effect_order, &expected_effect_order);

    let chorus = &preset.chorus;
    assert!(!chorus.enabled);
    assert_eq!(as_f64(chorus.depth), 0.5);
    assert_eq!(as_f64(chorus.mix), 0.5);
    assert_eq!(as_f64(chorus.pre_delay), 0.5);
    assert_eq!(as_f64(chorus.ratio), 0.5);

    let delay = &preset.delay;
    assert!(!delay.enabled);
    assert!(!delay.ping_pong);
    assert!(delay.sync);
    assert!(close(as_f64(delay.time), 0.17, 0.0001));
    assert!(close(as_f64(delay.feedback), 0.3, 0.0001));
    assert!(close(as_f64(delay.filter), 0.0, 0.0001));
    assert!(close(as_f64(delay.mix), 0.2, 0.0001));

    let distortion = &preset.distortion;
    assert!(!distortion.enabled);
    assert!(close(as_f64(distortion.gain), 0.2, 0.0001));

    let effect_filter = &preset.effect_filter;
    assert!(!effect_filter.enabled);
    assert_eq!(effect_filter.mode, FilterMode::LowPass);
    assert_eq!(effect_filter.effect_mode, FilterEffectMode::Off);
    assert!(close(as_f64(effect_filter.cutoff_frequency), 0.5, 0.0001));
    assert!(close(as_f64(effect_filter.resonance), 0.1, 0.0001));
    assert!(close(as_f64(effect_filter.resonance), 0.1, 0.0001));
    assert!(close(as_f64(effect_filter.key_tracking), 0.0, 0.0001));
    assert!(close(as_f64(effect_filter.effect_amount), 0.0, 0.0001));
    assert!(close(as_f64(preset.filter_envelope_curve), 0.14, 0.0001));

    let equalizer = preset.equalizer;
    assert!(!equalizer.enabled);
    assert_eq!(as_f64(equalizer.low_gain.percent), 0.5);
    assert_eq!(as_f64(equalizer.mid_gain.percent), 0.5);
    assert_eq!(as_f64(equalizer.high_gain.percent), 0.5);

    let lofi = &preset.lofi;
    assert!(!lofi.enabled);
    assert!(close(as_f64(lofi.bitrate), 1.0, 0.0001));
    assert!(close(as_f64(lofi.sample_rate), 1.0, 0.0001));
    assert!(close(as_f64(lofi.mix), 1.0, 0.0001));

    let reverb = &preset.reverb;
    assert!(!reverb.enabled);
    assert!(close(as_f64(reverb.dampen), 0.3, 0.0001));
    assert!(close(as_f64(reverb.filter), 0.0, 0.0001));
    assert!(close(as_f64(reverb.room), 0.3, 0.0001));
    assert!(close(as_f64(reverb.width), 0.8, 0.0001));
    assert!(close(as_f64(reverb.mix), 0.2, 0.0001));
}

#[test]
fn envelopes() {
    let preset = read(&[
        ("EnvAttack", "1.0"),
        ("AttCurveType", "0.0"),
        ("EnvDecay", "15000.0"),
        ("DecCurveType", "0.07000000029802322"),
        ("EnvSustain", "0.4199999868869781"),
        ("EnvRelease", "76.0"),
        ("RelCurveType", "0.1330000013113022"),
        ("ModEnvSwitch_1", "1.0"),
        ("ModEnvAttack_1", "748.0"),
        ("ModAttCurveType_1", "0.4670000076293945"),
        ("ModEnvDecay_1", "150.0"),
        ("ModDecCurveType_1", "0.5329999923706055"),
        ("ModEnvSustain_1", "0.8999999761581421"),
        ("ModEnvRelease_1", "1.0"),
        ("ModRelCurveType_1", "0.6000000238418579"),
        ("ModEnvSwitch_2", "0.0"),
        ("ModEnvAttack_2", "1.0"),
        ("ModAttCurveType_2", "0.4000000059604645"),
        ("ModEnvDecay_2", "2.0"),
        ("ModEnvSustain_2", "0.0"),
        ("ModEnvRelease_2", "1.0"),
        ("FilterEnvAttack", "2.0"),
        ("FilterEnvDecay", "150.0"),
        ("FilterEnvSustain", "0.01999999955296516"),
        ("FilterEnvRelease", "4.0"),
    ]);

    // ADSR
    let envelope = &preset.envelope;
    assert!(close(as_f64(envelope.attack.milliseconds), 1.0, 0.00001));
    assert!(close(as_f64(envelope.attack_curve), as_f64(EnvelopeCurve::Linear.value()), 0.00001));
    assert!(close(as_f64(envelope.decay.milliseconds), 15000.0, 0.00001));
    assert!(close(
        as_f64(envelope.decay_falloff),
        as_f64(EnvelopeCurve::Exponential1.value()),
        0.00001
    ));
    assert!(close(as_f64(envelope.sustain.percent), 0.42, 0.00001));
    assert!(close(as_f64(envelope.release.milliseconds), 76.0, 0.00001));
    assert!(close(
        as_f64(envelope.release_falloff),
        as_f64(EnvelopeCurve::Exponential2.value()),
        0.00001
    ));

    // Modulator envelope 1
    let mod_envelope = &preset.mod_envelopes.get(0).unwrap();
    assert!(mod_envelope.enabled);
    let envelope = &mod_envelope.envelope;
    assert!(close(as_f64(envelope.attack.milliseconds), 748.0, 0.00001));
    assert!(close(as_f64(envelope.attack_curve), as_f64(EnvelopeCurve::Pluck1.value()), 0.00001));
    assert!(close(as_f64(envelope.decay.milliseconds), 150.0, 0.00001));
    assert!(close(as_f64(envelope.decay_falloff), as_f64(EnvelopeCurve::Pluck2.value()), 0.00001));
    assert!(close(as_f64(envelope.sustain.percent), 0.90, 0.00001));
    assert!(close(as_f64(envelope.release.milliseconds), 1.0, 0.00001));
    assert!(
        close(as_f64(envelope.release_falloff), as_f64(EnvelopeCurve::Pluck3.value()), 0.00001),
    );

    // Modulator envelope 2
    let mod_envelope = &preset.mod_envelopes.get(1).unwrap();
    assert!(!mod_envelope.enabled);
    let envelope = &mod_envelope.envelope;
    assert!(close(as_f64(envelope.attack.milliseconds), 1.0, 0.00001));
    assert!(close(
        as_f64(envelope.attack_curve),
        as_f64(EnvelopeCurve::Logarithmic2.value()),
        0.00001
    ));
    assert!(close(as_f64(envelope.decay.milliseconds), 2.0, 0.00001));
    assert!(close(as_f64(envelope.sustain.percent), 0.0, 0.00001));
    assert!(close(as_f64(envelope.release.milliseconds), 1.0, 0.00001));

    // Filter envelope
    let envelope = &preset.filter.envelope;
    assert!(close(as_f64(envelope.attack.milliseconds), 2.0, 0.00001));
    assert!(close(as_f64(envelope.decay.milliseconds), 150.0, 0.00001));
    assert!(close(as_f64(envelope.sustain.percent), 0.02, 0.00001));
    assert!(close(as_f64(envelope.release.milliseconds), 4.0, 0.00001));
}

#[test]
fn envelope_curves() {
    let preset = read(&[
        ("AttCurveType", "0.2000000029802322"),
        ("DecCurveType", "0.2669999897480011"),
        ("RelCurveType", "0.3330000042915344"),
    ]);
    assert!(close(
        as_f64(preset.envelope.attack_curve),
        as_f64(EnvelopeCurve::Exponential3.value()),
        0.0001
    ));
    assert!(close(
        as_f64(preset.envelope.decay_falloff),
        as_f64(EnvelopeCurve::Exponential4.value()),
        0.0001
    ));
    assert!(close(
        as_f64(preset.envelope.release_falloff),
        as_f64(EnvelopeCurve::Logarithmic1.value()),
        0.0001
    ));

    let preset = read(&[
        ("AttCurveType", "0.6000000238418579"),
        ("DecCurveType", "0.6669999957084656"),
        ("RelCurveType", "0.7329999804496765"),
    ]);
    assert!(
        close(as_f64(preset.envelope.attack_curve), as_f64(EnvelopeCurve::Pluck3.value()), 0.0001),
    );
    assert!(close(
        as_f64(preset.envelope.decay_falloff),
        as_f64(EnvelopeCurve::DoubleCurve1.value()),
        0.0001
    ));
    assert!(close(
        as_f64(preset.envelope.release_falloff),
        as_f64(EnvelopeCurve::DoubleCurve2.value()),
        0.0001
    ));
}

#[test]
fn master_volume() {
    let preset = read(&[("MainVol", "1.0")]);
    assert_eq!(as_f64(preset.master_volume_normalized), 1.0);

    let preset = read(&[("MainVol", "0.007000000216066837")]);
    assert!(close(as_f64(preset.master_volume_normalized), 0.007, 0.001));

    let preset = read(&[("MainVol", "0.0")]);
    assert_eq!(as_f64(preset.master_volume_normalized), 0.0);
}

#[test]
fn midi_play_mode() {
    let preset = read(&[("MidiPlayMode", "1.0")]);
    assert_eq!(preset.midi_play_mode, MidiPlayMode::Cheat1);
}

#[test]
fn waveforms() {
    fn read_waveform_preset(first: Waveform, second: Waveform, third: Waveform) -> Preset {
        let texts =
            [
                format!("{}.0", first.code()),
                format!("{}.0", second.code()),
                format!("{}.0", third.code()),
            ];
        read(&[
            ("OSCWaveType_1", texts[0].as_str()),
            ("OSCWaveType_2", texts[1].as_str()),
            ("OSCWaveType_3", texts[2].as_str()),
        ])
    }

    let preset =
        read_waveform_preset(Waveform::FormantA1, Waveform::SyntheticVoice1, Waveform::Organ1);
    assert_eq!(preset.oscillators[0].waveform, Waveform::FormantA1);
    assert_eq!(preset.oscillators[1].waveform, Waveform::SyntheticVoice1);
    assert_eq!(preset.oscillators[2].waveform, Waveform::Organ1);

    let preset = read_waveform_preset(Waveform::Gritty1, Waveform::Gate1, Waveform::SineFmKick12);
    assert_eq!(preset.oscillators[0].waveform, Waveform::Gritty1);
    assert_eq!(preset.oscillators[1].waveform, Waveform::Gate1);
    assert_eq!(preset.oscillators[2].waveform, Waveform::SineFmKick12);

    let preset = read(&[
        ("OSCWaveType_1", "0.0"),
        ("OSCWaveType_2", "60.0"),
        ("OSCWaveType_3", "65.0"),
    ]);
    assert_eq!(preset.oscillators[0].waveform, Waveform::Sine);
    assert_eq!(preset.oscillators[1].waveform, Waveform::Triangle);
    assert_eq!(preset.oscillators[2].waveform, Waveform::Saw);

    let preset = read_waveform_preset(Waveform::Square, Waveform::Pulse1, Waveform::Voice1);
    assert_eq!(preset.oscillators[0].waveform, Waveform::Square);
    assert_eq!(preset.oscillators[1].waveform, Waveform::Pulse1);
    assert_eq!(preset.oscillators[2].waveform, Waveform::Voice1);
}

#[test]
fn minimal_document_gives_factory_preset() {
    let decoded = Preset::decode(tree("Test", "Preset Info", [None; 7], &[])).unwrap();
    let preset = decoded.preset;
    assert!(decoded.unrecognized.is_empty());
    assert_eq!(preset.name, "Test");
    assert_eq!(preset.description, None);
    assert_eq!(as_f64(preset.master_volume_normalized), 0.5);
    assert_eq!(preset.polyphony, 8);
    assert_eq!(preset.portamento_mode, PortamentoMode::Poly);
    assert_eq!(preset.midi_play_mode, MidiPlayMode::Normal);
    assert_eq!(as_f64(preset.glide), 30.0);
    assert_eq!(as_f64(preset.pitch_bend_range), 2.0);
    assert_eq!(as_f64(preset.envelope_curve), 0.14);
    assert_eq!(preset.oscillators.len(), 3);
    assert!(preset.oscillators[0].enabled);
    assert!(!preset.oscillators[1].enabled);
    assert!(!preset.oscillators[2].enabled);
    for oscillator in &preset.oscillators {
        assert_eq!(oscillator.waveform, Waveform::Sine);
        assert_eq!(as_f64(oscillator.volume), 0.294);
        assert_eq!(oscillator.unison.voices, 1);
        assert_eq!(as_f64(oscillator.unison.detune), 0.2);
    }
    assert_eq!(preset.lfos.len(), 2);
    assert!(preset.lfos[0].sync && preset.lfos[1].sync);
    assert_eq!(preset.mod_envelopes.len(), 2);
    assert_eq!(as_f64(preset.mod_envelopes[0].envelope.sustain.percent), 1.9);
    assert_eq!(as_f64(preset.mod_envelopes[1].envelope.sustain.percent), 0.9);
    assert_eq!(as_f64(preset.envelope.attack.milliseconds), 2.0);
    assert_eq!(as_f64(preset.envelope.sustain.percent), 0.9);
    assert_eq!(as_f64(preset.filter.envelope.sustain.percent), 0.02);
    assert_eq!(as_f64(preset.filter.envelope.release.milliseconds), 23.0);
    assert_eq!(as_f64(preset.filter.cutoff_frequency), 100.0);
    assert_eq!(as_f64(preset.effect_filter.cutoff_frequency), 1.0);
    assert_eq!(preset.matrix.len(), 8);
    assert_eq!(preset.matrix[0].source, 7);
    assert_eq!(preset.matrix[0].target, 2);
    assert_eq!(as_f64(preset.matrix[0].amount), 1.0);
    for index in 1..MODULATION_MATRIX_SIZE {
        assert_eq!(preset.matrix[index].source, 0);
        assert_eq!(preset.matrix[index].target, 0);
        assert_eq!(as_f64(preset.matrix[index].amount), 0.0);
    }
    assert_eq!(preset.effect_order, all_effect_types());
    assert_eq!(preset.delay.filter_mode, DelayFilterMode::Off);
    assert_eq!(as_f64(preset.vibrato.frequency), 6.1);
    assert_eq!(as_f64(preset.noise.volume), 0.32);
}

#[test]
fn effect_filter_has_the_marker_envelope() {
    let filter = read(&[("FXFilterSwitch", "1.0"), ("FXFilterType", "2.0")]).effect_filter;
    assert!(filter.enabled);
    assert_eq!(filter.mode, FilterMode::HighPass);
    assert_eq!(as_f64(filter.envelope.attack.milliseconds), -1010.0);
    assert_eq!(as_f64(filter.envelope.decay.milliseconds), -1100.0);
    assert_eq!(as_f64(filter.envelope.release.milliseconds), -1100.0);
    assert_eq!(as_f64(filter.envelope.sustain.percent), 0.0);
    assert_eq!(as_f64(filter.envelope.attack_curve), -1.0);
    assert_eq!(as_f64(filter.envelope.decay_falloff), -1.0);
    assert_eq!(as_f64(filter.envelope.release_falloff), -1.0);
    assert_eq!(as_f64(filter.envelope_amount), 1.0);
    assert!(!filter.effect_enabled);
}

#[test]
fn description_is_kept_unless_blank() {
    let preset = Preset::decode(tree("Lead", "A bright lead", natural(), &[])).unwrap().preset;
    assert_eq!(preset.description, Some("A bright lead".to_owned()));
    let preset = Preset::decode(tree("Lead", "Preset Info", natural(), &[])).unwrap().preset;
    assert_eq!(preset.description, None);
    let preset = Preset::decode(tree("Lead", "", natural(), &[])).unwrap().preset;
    assert_eq!(preset.description, Some(String::new()));
}

#[test]
fn invalid_effect_order_fails_with_the_number() {
    let order = [Some(99), Some(1), Some(2), Some(3), Some(4), Some(5), Some(6)];
    let result = Preset::decode(tree("broken", "Preset Info", order, &init_pairs()));
    assert_eq!(result.err(), Some(DecodeError::UnknownEffectType(99)));
}

#[test]
fn any_invalid_place_fails_and_the_first_is_named() {
    for place in 0..7 {
        let mut order = natural();
        order[place] = Some(7);
        let result = Preset::decode(tree("broken", "Preset Info", order, &[]));
        assert_eq!(result.err(), Some(DecodeError::UnknownEffectType(7)));
    }
    let order = [Some(0), Some(1), Some(40), Some(3), Some(50), Some(5), Some(6)];
    assert_eq!(resolve_effect_order(order), Err(DecodeError::UnknownEffectType(40)));
}

#[test]
fn effect_order_follows_the_places() {
    let order = [Some(3), Some(0), Some(6), Some(1), Some(5), Some(2), Some(4)];
    let preset = Preset::decode(tree("mixed", "Preset Info", order, &[])).unwrap().preset;
    assert_eq!(
        preset.effect_order,
        vec![
            EffectType::Chorus,
            EffectType::Distortion,
            EffectType::Reverb,
            EffectType::LoFi,
            EffectType::Delay,
            EffectType::Filter,
            EffectType::Equalizer,
        ]
    );
    for effect_type in all_effect_types() {
        let position = preset.effect_position(effect_type).unwrap();
        assert_eq!(preset.effect_order[position as usize], effect_type);
    }
    let repeated = [Some(1); 7];
    let preset = Preset::decode(tree("same", "Preset Info", repeated, &[])).unwrap().preset;
    assert_eq!(preset.effect_order, vec![EffectType::LoFi; 7]);
    assert_eq!(preset.effect_position(EffectType::LoFi), Some(0));
    assert_eq!(preset.effect_position(EffectType::Reverb), None);
}

#[test]
fn missing_places_take_their_own_number() {
    let order = [None, Some(0), None, None, None, None, Some(5)];
    let preset = Preset::decode(tree("gaps", "Preset Info", order, &[])).unwrap().preset;
    assert_eq!(
        preset.effect_order,
        vec![
            EffectType::Distortion,
            EffectType::Distortion,
            EffectType::Filter,
            EffectType::Chorus,
            EffectType::Equalizer,
            EffectType::Delay,
            EffectType::Delay,
        ]
    );
}

#[test]
fn reading_twice_gives_equal_presets() {
    let first = Preset::decode(tree("init", "Some text", natural(), &init_pairs())).unwrap();
    let second = Preset::decode(tree("init", "Some text", natural(), &init_pairs())).unwrap();
    assert_eq!(format!("{:?}", first.preset), format!("{:?}", second.preset));
    assert_eq!(format!("{:?}", first.unrecognized), format!("{:?}", second.unrecognized));
}

#[test]
fn unknown_parameter_is_left_over_and_changes_nothing() {
    let plain = Preset::decode(tree("init", "Preset Info", natural(), &init_pairs())).unwrap();
    assert!(plain.unrecognized.is_empty());
    for at in [0, 17, init_pairs().len()] {
        let mut pairs = init_pairs();
        pairs.insert(at, ("EnvLock", "1.0"));
        let decoded = Preset::decode(tree("init", "Preset Info", natural(), &pairs)).unwrap();
        assert_eq!(format!("{:?}", decoded.preset), format!("{:?}", plain.preset));
        assert_eq!(decoded.unrecognized.len(), 1);
        assert_eq!(decoded.unrecognized[0].id, "EnvLock");
        assert_eq!(decoded.unrecognized[0].value, Some("1.0".to_owned()));
    }
}

#[test]
fn second_parameter_of_a_name_is_left_over() {
    let decoded = Preset::decode(tree(
        "twice",
        "Preset Info",
        natural(),
        &[("Glide", "12.0"), ("Mystery", "x"), ("Glide", "99.0"), ("MaxVoices", "4")],
    ))
    .unwrap();
    assert_eq!(as_f64(decoded.preset.glide), 12.0);
    assert_eq!(decoded.preset.polyphony, 4);
    let left: Vec<&str> = decoded.unrecognized.iter().map(|param| param.id.as_str()).collect();
    assert_eq!(left, vec!["Mystery", "Glide"]);
    assert_eq!(decoded.unrecognized[1].value, Some("99.0".to_owned()));
}

#[test]
fn malformed_text_gives_the_default_without_a_leftover() {
    let decoded = Preset::decode(tree(
        "odd",
        "Preset Info",
        natural(),
        &[
            ("MaxVoices", "eight"),
            ("MainVol", ""),
            ("LimitSwitch", "yes"),
            ("OSCFine_1", "1,5"),
            ("FilterType", " 1"),
            ("LFOSync_1", "0x1"),
        ],
    ))
    .unwrap();
    let preset = decoded.preset;
    assert!(decoded.unrecognized.is_empty());
    assert_eq!(preset.polyphony, 8);
    assert_eq!(as_f64(preset.master_volume_normalized), 0.5);
    assert!(!preset.limit_enabled);
    assert_eq!(preset.oscillators[0].fine_tuning, 0);
    assert_eq!(preset.filter.mode, FilterMode::LowPass);
    assert!(preset.lfos[0].sync);
}

#[test]
fn parameter_without_text_gives_the_default() {
    let mut input = tree("bare", "Preset Info", natural(), &[("MaxVoices", "3")]);
    input.params.insert(0, Param { id: "MaxVoices".to_owned(), value: None });
    let decoded = Preset::decode(input).unwrap();
    assert_eq!(decoded.preset.polyphony, 8);
    assert_eq!(decoded.unrecognized.len(), 1);
    assert_eq!(decoded.unrecognized[0].value, Some("3".to_owned()));
}

#[test]
fn unknown_modes_fall_back() {
    let preset = read(&[
        ("FilterType", "5.0"),
        ("FilterDriveType", "6.0"),
        ("PortaMode", "5.0"),
        ("MidiPlayMode", "3.0"),
        ("OSCWaveType_1", "257.0"),
        ("LFOWaveType_2", "100000.0"),
        ("DelayLP", "0.5009999871253967"),
        ("FXFilterType", "-1.0"),
    ]);
    assert_eq!(preset.filter.mode, FilterMode::LowPass);
    assert_eq!(preset.filter.effect_mode, FilterEffectMode::Off);
    assert_eq!(preset.portamento_mode, PortamentoMode::Poly);
    assert_eq!(preset.midi_play_mode, MidiPlayMode::Normal);
    assert_eq!(preset.oscillators[0].waveform, Waveform::Sine);
    assert_eq!(preset.lfos[1].waveform, Waveform::Sine);
    assert_eq!(preset.delay.filter_mode, DelayFilterMode::Off);
    assert_eq!(as_f64(preset.delay.filter), 0.5009999871253967);
    assert_eq!(preset.effect_filter.mode, FilterMode::LowPass);
}

#[test]
fn delay_filter_prefers_the_later_key() {
    let preset = read(&[("DelayLP", "0.042"), ("DelayFilterMode", "0.958")]);
    assert_eq!(preset.delay.filter_mode, DelayFilterMode::BandPass300);
    assert_eq!(as_f64(preset.delay.filter), 0.042);
    let preset = read(&[("DelayLP", "0.042"), ("DelayFilterMode", "none")]);
    assert_eq!(preset.delay.filter_mode, DelayFilterMode::LowPass5000);
    let preset = read(&[("DelayLP", "0.25")]);
    assert_eq!(preset.delay.filter_mode, DelayFilterMode::LowPass750);
    let preset = read(&[("DelayFilterMode", "0.2")]);
    assert_eq!(preset.delay.filter_mode, DelayFilterMode::Off);
}

#[test]
fn cutoff_is_stored_in_hundredths() {
    let preset = read(&[("FilterCut", "0.4375"), ("FXFilterCut", "0.4375")]);
    assert_eq!(as_f64(preset.filter.cutoff_frequency), 43.75);
    assert_eq!(as_f64(preset.effect_filter.cutoff_frequency), 0.4375);
}

#[test]
fn integers_are_cut_off_toward_zero() {
    let preset = read(&[
        ("OSCFine_1", "-12.9"),
        ("OSCSemi_1", "7.999"),
        ("OSCOctave_1", "-0.5"),
        ("OSCNumVoice_2", "4.7"),
        ("MatrixSource_3", "11.0"),
        ("MatrixTarget_3", "2.5"),
        ("MatrixAmount_3", "-0.25"),
    ]);
    assert_eq!(preset.oscillators[0].fine_tuning, -12);
    assert_eq!(preset.oscillators[0].semitone_tuning, 7);
    assert_eq!(preset.oscillators[0].octave_tuning, 0);
    assert_eq!(preset.oscillators[1].unison.voices, 4);
    assert_eq!(preset.matrix[2].source, 11);
    assert_eq!(preset.matrix[2].target, 2);
    assert_eq!(as_f64(preset.matrix[2].amount), -0.25);
}

#[test]
fn parts_tell_whether_they_are_enabled() {
    let preset = read(&[
        ("ChorusSwitch", "1.0"),
        ("DelaySwitch", "1.0"),
        ("DistSwitch", "1.0"),
        ("EQSwitch", "1.0"),
        ("FilterSwitch", "1.0"),
        ("LoFiSwitch", "1.0"),
        ("ReverbSwitch", "1.0"),
        ("OSCSwitch_N", "1.0"),
    ]);
    assert!(preset.chorus.is_enabled());
    assert!(preset.delay.is_enabled());
    assert!(preset.distortion.is_enabled());
    assert!(preset.equalizer.is_enabled());
    assert!(preset.filter.is_enabled());
    assert!(!preset.effect_filter.is_enabled());
    assert!(preset.lofi.is_enabled());
    assert!(preset.reverb.is_enabled());
    assert!(preset.noise.enabled);
    assert!(!preset.noise.is_enabled());
    let preset = read(&[]);
    assert!(!preset.chorus.is_enabled());
    assert!(!preset.reverb.is_enabled());
}

#[test]
fn header_gives_scale_and_root_key() {
    let mut input = tree(
        "tuned",
        "Preset Info",
        natural(),
        &[("Transpose", "-3.0"), ("TuneCSharp", "0.25")],
    );
    input.scale = 4;
    input.root_key = 9;
    let tuning = Preset::decode(input).unwrap().preset.tuning;
    assert_eq!(tuning.scale, 4);
    assert_eq!(tuning.root_key, 9);
    assert_eq!(as_f64(tuning.transpose), -3.0);
    assert_eq!(as_f64(tuning.tunings[4]), 0.25);
    assert_eq!(as_f64(tuning.tunings[3]), 0.0);
}
