use synthahol_babylon::error::decimal_text;
use synthahol_babylon::effect::{
    DelayFilterMode, EffectType, FilterEffectMode, FilterMode,
};
use synthahol_babylon::key::{
    EnvelopeField, EnvelopeSlot, MatrixField, MatrixSlot, OscillatorField, OscillatorSlot, ParamKey,
    SettingField,
};
use synthahol_babylon::number::decimal;
use synthahol_babylon::session::Session;
use synthahol_babylon::{
    DecodeError, EnvelopeCurve, MidiPlayMode, Param, PluginParamTree, PortamentoMode, Ratio, Time,
    Waveform,
};

fn param(id: &str, value: &str) -> Param {
    Param { id: id.to_owned(), value: Some(value.to_owned()) }
}

fn bag(pairs: &[(&str, &str)]) -> PluginParamTree {
    PluginParamTree {
        scale: 1,
        custom_scale: 2,
        root_key: 3,
        preset_id: None,
        preset_folder: None,
        preset_name: "bag".to_owned(),
        preset_info: "Preset Info".to_owned(),
        fx_order0: None,
        fx_order1: None,
        fx_order2: None,
        fx_order3: None,
        fx_order4: None,
        fx_order5: None,
        fx_order6: None,
        params: pairs.iter().map(|(id, value)| param(id, value)).collect(),
    }
}

fn ids(tree: &PluginParamTree) -> Vec<&str> {
    tree.params.iter().map(|param| param.id.as_str()).collect()
}

fn delay_filter_modes() -> Vec<(DelayFilterMode, u32)> {
    vec![
        (DelayFilterMode::Off, 0),
        (DelayFilterMode::LowPass5000, 42),
        (DelayFilterMode::LowPass3800, 83),
        (DelayFilterMode::LowPass2500, 125),
        (DelayFilterMode::LowPass1600, 167),
        (DelayFilterMode::LowPass1000, 208),
        (DelayFilterMode::LowPass750, 250),
        (DelayFilterMode::LowPass400, 292),
        (DelayFilterMode::LowPass200, 333),
        (DelayFilterMode::HighPass4000, 375),
        (DelayFilterMode::HighPass2000, 417),
        (DelayFilterMode::HighPass1200, 458),
        (DelayFilterMode::HighPass800, 500),
        (DelayFilterMode::HighPass600, 542),
        (DelayFilterMode::HighPass400, 583),
        (DelayFilterMode::HighPass250, 625),
        (DelayFilterMode::HighPass100, 667),
        (DelayFilterMode::BandPass3000, 708),
        (DelayFilterMode::BandPass1800, 750),
        (DelayFilterMode::BandPass1300, 792),
        (DelayFilterMode::BandPass1000, 833),
        (DelayFilterMode::BandPass700, 875),
        (DelayFilterMode::BandPass500, 917),
        (DelayFilterMode::BandPass300, 958),
        (DelayFilterMode::BandPass150, 1000),
    ]
}

#[test]
fn remove_takes_the_first_of_a_name() {
    let mut tree = bag(&[("A", "1"), ("B", "2"), ("A", "3"), ("C", "4")]);
    let first = tree.remove("A").unwrap();
    assert_eq!(first.id, "A");
    assert_eq!(first.value, Some("1".to_owned()));
    assert_eq!(ids(&tree), vec!["B", "A", "C"]);
    let second = tree.remove("A").unwrap();
    assert_eq!(second.value, Some("3".to_owned()));
    assert_eq!(ids(&tree), vec!["B", "C"]);
    assert!(tree.remove("A").is_none());
    assert!(tree.remove("a").is_none());
    assert!(tree.remove("").is_none());
    assert_eq!(ids(&tree), vec!["B", "C"]);
    assert_eq!(tree.remove("C").unwrap().value, Some("4".to_owned()));
    assert_eq!(tree.remove("B").unwrap().value, Some("2".to_owned()));
    assert!(tree.params.is_empty());
    assert!(tree.remove("B").is_none());
    assert_eq!((tree.scale, tree.custom_scale, tree.root_key), (1, 2, 3));
    assert_eq!(tree.preset_name, "bag");
}

#[test]
fn remove_or_gives_number_or_default() {
    let mut tree = bag(&[("Level", "0.25"), ("Bad", "loud"), ("Level", "0.75")]);
    assert_eq!(tree.remove_or("Level", decimal(5, 1)), decimal(25, 2));
    assert_eq!(tree.remove_or("Level", decimal(5, 1)), decimal(75, 2));
    assert_eq!(tree.remove_or("Level", decimal(5, 1)), decimal(5, 1));
    assert_eq!(tree.remove_or("Bad", decimal(5, 1)), decimal(5, 1));
    assert!(tree.params.is_empty());
    tree.params.push(Param { id: "Bare".to_owned(), value: None });
    assert_eq!(tree.remove_or("Bare", decimal(9, 0)), decimal(9, 0));
    assert!(tree.params.is_empty());
}

#[test]
fn remove_bool_or_reads_switches() {
    let mut tree = bag(&[("On", "1.0"), ("Off", "0.0"), ("Half", "0.5"), ("Bad", "on")]);
    assert!(tree.remove_bool_or("On", false));
    assert!(!tree.remove_bool_or("Off", true));
    assert!(!tree.remove_bool_or("Half", true));
    assert!(tree.remove_bool_or("Bad", true));
    assert!(!tree.remove_bool_or("Bad", false));
    assert!(tree.remove_bool_or("Missing", true));
    assert!(!tree.remove_bool_or("Missing", false));
    assert!(tree.params.is_empty());
}

#[test]
fn remove_integers_cut_off() {
    let mut tree = bag(&[("Voices", "7.9"), ("Fine", "-7.9"), ("Bad", "seven"), ("Low", "-2")]);
    assert_eq!(tree.remove_u32_or("Voices", 1), 7);
    assert_eq!(tree.remove_u32_or("Voices", 1), 1);
    assert_eq!(tree.remove_i32_or("Fine", 3), -7);
    assert_eq!(tree.remove_i32_or("Fine", 3), 3);
    assert_eq!(tree.remove_u32_or("Low", 9), 0);
    assert_eq!(tree.remove_i32_or("Bad", -4), -4);
    assert_eq!(tree.remove_u32_or("Bad", 4), 4);
    assert!(tree.params.is_empty());
}

#[test]
fn remove_units_wrap_the_number() {
    let mut tree = bag(&[("Attack", "2.5"), ("Sustain", "0.9")]);
    assert_eq!(
        tree.remove_milliseconds_or("Attack", decimal(1, 0)),
        Time { milliseconds: decimal(25, 1) },
    );
    assert_eq!(
        tree.remove_milliseconds_or("Attack", decimal(1, 0)),
        Time { milliseconds: decimal(1, 0) },
    );
    assert_eq!(tree.remove_percent_or("Sustain", decimal(5, 1)), Ratio { percent: decimal(9, 1) });
    assert_eq!(tree.remove_percent_or("Sustain", decimal(5, 1)), Ratio { percent: decimal(5, 1) });
}

#[test]
fn session_reads_by_key() {
    let tree = bag(&[
        ("Glide", "12"),
        ("OSCPan_2", "0.25"),
        ("Stray", "1"),
        ("MatrixSource_8", "5.5"),
        ("EnvAttack", "x"),
        ("OSCFine_3", "-3.2"),
        ("LimitSwitch", "1"),
    ]);
    let mut session = Session::open(tree);
    assert_eq!(
        session.number(ParamKey::Settings(SettingField::Glide), decimal(30, 0)),
        decimal(12, 0),
    );
    assert_eq!(
        session.number(
            ParamKey::Oscillator(OscillatorSlot::Second, OscillatorField::Pan),
            decimal(5, 1),
        ),
        decimal(25, 2)
    );
    assert_eq!(
        session.number(
            ParamKey::Oscillator(OscillatorSlot::First, OscillatorField::Pan),
            decimal(5, 1),
        ),
        decimal(5, 1)
    );
    assert_eq!(session.unsigned(ParamKey::Matrix(MatrixSlot::Eighth, MatrixField::Source), 0), 5);
    assert_eq!(
        session.number_if_any(ParamKey::Envelope(EnvelopeSlot::Main, EnvelopeField::Attack)),
        None
    );
    assert_eq!(
        session.signed(ParamKey::Oscillator(OscillatorSlot::Third, OscillatorField::Fine), 0),
        -3,
    );
    assert!(session.switch(ParamKey::Settings(SettingField::LimitSwitch), false));
    let left = session.close();
    assert_eq!(left.len(), 1);
    assert_eq!(left[0].id, "Stray");
}

#[test]
fn keys_have_the_identifiers_of_the_format() {
    assert_eq!(ParamKey::Envelope(EnvelopeSlot::Main, EnvelopeField::Attack).id(), "EnvAttack");
    assert_eq!(
        ParamKey::Envelope(EnvelopeSlot::Filter, EnvelopeField::Attack).id(),
        "FilterEnvAttack",
    );
    assert_eq!(
        ParamKey::Envelope(EnvelopeSlot::Modulator2, EnvelopeField::ReleaseFalloff).id(),
        "ModRelCurveType_2",
    );
    assert_eq!(
        ParamKey::Oscillator(OscillatorSlot::Third, OscillatorField::UnisonVoices).id(),
        "OSCNumVoice_3",
    );
    assert_eq!(ParamKey::Matrix(MatrixSlot::Fifth, MatrixField::Amount).id(), "MatrixAmount_5");
    assert_eq!(ParamKey::Settings(SettingField::MasterVolume).id(), "MainVol");
    assert_eq!(ParamKey::Settings(SettingField::HardSync).id(), "OSCSync21");
    assert_eq!(ParamKey::Settings(SettingField::Pitch).id(), "PCH");
}

#[test]
fn out_of_range_discriminants_give_the_default() {
    assert_eq!(FilterMode::from_or(5, FilterMode::Notch), FilterMode::Notch);
    assert_eq!(FilterMode::from_or(u32::MAX, FilterMode::Peak), FilterMode::Peak);
    assert_eq!(
        FilterEffectMode::from_or(6, FilterEffectMode::Overdrive),
        FilterEffectMode::Overdrive,
    );
    assert_eq!(MidiPlayMode::from_or(3, MidiPlayMode::Cheat2), MidiPlayMode::Cheat2);
    assert_eq!(PortamentoMode::from_or(5, PortamentoMode::Porta), PortamentoMode::Porta);
    assert_eq!(Waveform::from_or(257, Waveform::Saw), Waveform::Saw);
    assert_eq!(Waveform::from_or(u32::MAX, Waveform::Square), Waveform::Square);
    assert_eq!(
        DelayFilterMode::from_or(1, DelayFilterMode::BandPass150),
        DelayFilterMode::BandPass150,
    );
    assert_eq!(DelayFilterMode::from_or(25, DelayFilterMode::Off), DelayFilterMode::Off);
    assert_eq!(
        DelayFilterMode::from_or(1001, DelayFilterMode::LowPass200),
        DelayFilterMode::LowPass200,
    );
}

#[test]
fn discriminants_give_their_modes() {
    assert_eq!(FilterMode::from_or(0, FilterMode::Peak), FilterMode::LowPass);
    assert_eq!(FilterMode::from_or(1, FilterMode::Peak), FilterMode::BandPass);
    assert_eq!(FilterMode::from_or(2, FilterMode::Peak), FilterMode::HighPass);
    assert_eq!(FilterMode::from_or(3, FilterMode::Peak), FilterMode::Notch);
    assert_eq!(FilterMode::from_or(4, FilterMode::LowPass), FilterMode::Peak);
    assert_eq!(FilterEffectMode::from_or(0, FilterEffectMode::Distortion), FilterEffectMode::Off);
    assert_eq!(
        FilterEffectMode::from_or(5, FilterEffectMode::Off),
        FilterEffectMode::SampleRateReduction,
    );
    assert_eq!(MidiPlayMode::from_or(2, MidiPlayMode::Normal), MidiPlayMode::Cheat2);
    assert_eq!(PortamentoMode::from_or(2, PortamentoMode::Poly), PortamentoMode::LegatoNoRetrigger);
    assert_eq!(PortamentoMode::from_or(4, PortamentoMode::Poly), PortamentoMode::PortaPoly);
    assert_eq!(Waveform::from_or(0, Waveform::Saw), Waveform::Sine);
    assert_eq!(Waveform::from_or(256, Waveform::Sine), Waveform::Duck3);
    assert_eq!(Waveform::Duck3.code(), 256);
    assert_eq!(FilterMode::Notch.code(), 3);
    assert_eq!(PortamentoMode::Porta.code(), 3);
    assert_eq!(MidiPlayMode::Cheat1.code(), 1);
    assert_eq!(FilterEffectMode::BitRateReduction.code(), 4);
}

#[test]
fn waveform_numbers_round_trip() {
    let mut seen = 0;
    for id in 0..300 {
        let waveform = Waveform::from_or(id, Waveform::Sine);
        if id < 257 {
            assert_eq!(waveform.code(), id);
            seen += 1;
        } else {
            assert_eq!(waveform, Waveform::Sine);
        }
    }
    assert_eq!(seen, 257);
}

#[test]
fn delay_filter_mode_round_trip() {
    for (mode, number) in delay_filter_modes() {
        assert_eq!(mode.code(), number);
        assert_eq!(DelayFilterMode::from_or(number, DelayFilterMode::Off), mode);
        assert_eq!(DelayFilterMode::from_or(mode.code(), DelayFilterMode::BandPass150), mode);
    }
}

#[test]
fn delay_filter_modes_follow_the_slider() {
    for (position, (mode, number)) in delay_filter_modes().into_iter().enumerate() {
        let exact = position as f64 / 24.0 * 1000.0;
        assert_eq!(number, exact.round() as u32);
        assert_eq!(mode.code(), number);
    }
    let known: Vec<u32> = delay_filter_modes().into_iter().map(|(_, number)| number).collect();
    for id in 0..1100 {
        let mode = DelayFilterMode::from_or(id, DelayFilterMode::Off);
        if known.contains(&id) {
            assert_eq!(mode.code(), id);
        } else {
            assert_eq!(mode, DelayFilterMode::Off);
        }
    }
}

#[test]
fn effect_types_resolve_or_fail() {
    assert_eq!(EffectType::try_from(0), Ok(EffectType::Distortion));
    assert_eq!(EffectType::try_from(1), Ok(EffectType::LoFi));
    assert_eq!(EffectType::try_from(2), Ok(EffectType::Filter));
    assert_eq!(EffectType::try_from(3), Ok(EffectType::Chorus));
    assert_eq!(EffectType::try_from(4), Ok(EffectType::Equalizer));
    assert_eq!(EffectType::try_from(5), Ok(EffectType::Delay));
    assert_eq!(EffectType::try_from(6), Ok(EffectType::Reverb));
    assert_eq!(EffectType::try_from(7), Err(DecodeError::UnknownEffectType(7)));
    assert_eq!(EffectType::try_from(99), Err(DecodeError::UnknownEffectType(99)));
    assert_eq!(EffectType::try_from(u32::MAX), Err(DecodeError::UnknownEffectType(u32::MAX)));
    assert_eq!(EffectType::Equalizer.code(), 4);
}

#[test]
fn labels_are_those_of_the_synthesizer() {
    assert_eq!(Waveform::Sine.label(), "Sine");
    assert_eq!(Waveform::SineRoot1_5.label(), "Sine Root 1.5");
    assert_eq!(Waveform::SineFmKick12.label(), "Sine FM Kick 12");
    assert_eq!(Waveform::Duck3.label(), "Duck 3");
    assert_eq!(DelayFilterMode::Off.label(), "Filter: Off");
    assert_eq!(DelayFilterMode::LowPass750.label(), "LP: 750 Hz");
    assert_eq!(DelayFilterMode::HighPass100.label(), "HP: 100 Hz");
    assert_eq!(DelayFilterMode::BandPass150.label(), "BP: 150 Hz");
    assert_eq!(EnvelopeCurve::Linear.label(), "Linear");
    assert_eq!(EnvelopeCurve::DoubleCurve1.label(), "Double Curve 1: Exp > Log");
    assert_eq!(EnvelopeCurve::DoubleCurve2.label(), "Double Curve 2: Log > Exp");
}

#[test]
fn envelope_curves_have_their_values() {
    assert_eq!(EnvelopeCurve::Linear.value(), decimal(0, 3));
    assert_eq!(EnvelopeCurve::Exponential1.value(), decimal(70, 3));
    assert_eq!(EnvelopeCurve::Exponential2.value(), decimal(133, 3));
    assert_eq!(EnvelopeCurve::Exponential3.value(), decimal(200, 3));
    assert_eq!(EnvelopeCurve::Exponential4.value(), decimal(267, 3));
    assert_eq!(EnvelopeCurve::Logarithmic1.value(), decimal(333, 3));
    assert_eq!(EnvelopeCurve::Logarithmic2.value(), decimal(400, 3));
    assert_eq!(EnvelopeCurve::Pluck1.value(), decimal(467, 3));
    assert_eq!(EnvelopeCurve::Pluck2.value(), decimal(533, 3));
    assert_eq!(EnvelopeCurve::Pluck3.value(), decimal(600, 3));
    assert_eq!(EnvelopeCurve::DoubleCurve1.value(), decimal(667, 3));
    assert_eq!(EnvelopeCurve::DoubleCurve2.value(), decimal(733, 3));
}

#[test]
fn failures_name_the_number() {
    assert_eq!(DecodeError::UnknownEffectType(99).message(), "Unknown effect type ID 99");
    assert_eq!(DecodeError::UnknownEffectType(7).message(), "Unknown effect type ID 7");
    assert_eq!(
        DecodeError::UnknownEffectType(u32::MAX).message(),
        "Unknown effect type ID 4294967295"
    );
    assert_eq!(decimal_text(0), "0");
    assert_eq!(decimal_text(10), "10");
    assert_eq!(decimal_text(1203), "1203");
    assert_eq!(decimal_text(u32::MAX), u32::MAX.to_string());
}
