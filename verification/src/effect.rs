//! The effects of the synthesizer, and the modes and the order that a preset
//! gives them.

use crate::error::DecodeError;
use crate::model::{Envelope, Ratio};
use crate::number::Number;
use vstd::prelude::*;

verus! {

/// Something that a preset can switch on and off.
pub trait Effect {
    /// Whether the preset has the effect switched on.
    spec fn switched_on(&self) -> bool;

    /// Whether the preset has the effect switched on.
    fn is_enabled(&self) -> (enabled: bool)
        ensures
            enabled == self.switched_on(),
    ;
}

/// The chorus effect.
#[derive(Copy, Clone, Debug, PartialEq, Eq, Structural)]
pub struct Chorus {
    pub enabled: bool,
    pub depth: Number,
    pub pre_delay: Number,
    pub ratio: Number,
    pub mix: Number,
}

impl Effect for Chorus {
    open spec fn switched_on(&self) -> bool {
        self.enabled
    }

    fn is_enabled(&self) -> (enabled: bool) {
        self.enabled
    }
}

/// The mode of the filter that is built into the delay effect, in the order
/// of the synthesizer's slider.
///
/// A preset file holds the slider's position as a fraction of its travel. The
/// number of a mode is that fraction in thousandths, rounded.
#[derive(Copy, Clone, Debug, PartialEq, Eq, Structural)]
pub enum DelayFilterMode {
    Off,
    LowPass5000,
    LowPass3800,
    LowPass2500,
    LowPass1600,
    LowPass1000,
    LowPass750,
    LowPass400,
    LowPass200,
    HighPass4000,
    HighPass2000,
    HighPass1200,
    HighPass800,
    HighPass600,
    HighPass400,
    HighPass250,
    HighPass100,
    BandPass3000,
    BandPass1800,
    BandPass1300,
    BandPass1000,
    BandPass700,
    BandPass500,
    BandPass300,
    BandPass150,
}

impl DelayFilterMode {
    /// The number that stands for the mode in a preset file.
    pub open spec fn discriminant(self) -> u32 {
        match self {
            DelayFilterMode::Off => 0,
            DelayFilterMode::LowPass5000 => 42,
            DelayFilterMode::LowPass3800 => 83,
            DelayFilterMode::LowPass2500 => 125,
            DelayFilterMode::LowPass1600 => 167,
            DelayFilterMode::LowPass1000 => 208,
            DelayFilterMode::LowPass750 => 250,
            DelayFilterMode::LowPass400 => 292,
            DelayFilterMode::LowPass200 => 333,
            DelayFilterMode::HighPass4000 => 375,
            DelayFilterMode::HighPass2000 => 417,
            DelayFilterMode::HighPass1200 => 458,
            DelayFilterMode::HighPass800 => 500,
            DelayFilterMode::HighPass600 => 542,
            DelayFilterMode::HighPass400 => 583,
            DelayFilterMode::HighPass250 => 625,
            DelayFilterMode::HighPass100 => 667,
            DelayFilterMode::BandPass3000 => 708,
            DelayFilterMode::BandPass1800 => 750,
            DelayFilterMode::BandPass1300 => 792,
            DelayFilterMode::BandPass1000 => 833,
            DelayFilterMode::BandPass700 => 875,
            DelayFilterMode::BandPass500 => 917,
            DelayFilterMode::BandPass300 => 958,
            DelayFilterMode::BandPass150 => 1000,
        }
    }

    /// Whether some mode has the number `id`.
    pub open spec fn known(id: u32) -> bool {
        exists|mode: DelayFilterMode| mode.discriminant() == id
    }

    /// The mode with the number `id`, for a number that is known.
    pub open spec fn with_number(id: u32) -> DelayFilterMode {
        choose|mode: DelayFilterMode| mode.discriminant() == id
    }

    /// The mode with the number `id`, or `default` where no mode has
    /// that number.
    pub open spec fn with_number_or(id: u32, default: DelayFilterMode) -> DelayFilterMode {
        if DelayFilterMode::known(id) {
            DelayFilterMode::with_number(id)
        } else {
            default
        }
    }

    /// The number that stands for the mode in a preset file.
    pub fn code(self) -> (id: u32)
        ensures
            id == self.discriminant(),
    {
        match self {
            DelayFilterMode::Off => 0,
            DelayFilterMode::LowPass5000 => 42,
            DelayFilterMode::LowPass3800 => 83,
            DelayFilterMode::LowPass2500 => 125,
            DelayFilterMode::LowPass1600 => 167,
            DelayFilterMode::LowPass1000 => 208,
            DelayFilterMode::LowPass750 => 250,
            DelayFilterMode::LowPass400 => 292,
            DelayFilterMode::LowPass200 => 333,
            DelayFilterMode::HighPass4000 => 375,
            DelayFilterMode::HighPass2000 => 417,
            DelayFilterMode::HighPass1200 => 458,
            DelayFilterMode::HighPass800 => 500,
            DelayFilterMode::HighPass600 => 542,
            DelayFilterMode::HighPass400 => 583,
            DelayFilterMode::HighPass250 => 625,
            DelayFilterMode::HighPass100 => 667,
            DelayFilterMode::BandPass3000 => 708,
            DelayFilterMode::BandPass1800 => 750,
            DelayFilterMode::BandPass1300 => 792,
            DelayFilterMode::BandPass1000 => 833,
            DelayFilterMode::BandPass700 => 875,
            DelayFilterMode::BandPass500 => 917,
            DelayFilterMode::BandPass300 => 958,
            DelayFilterMode::BandPass150 => 1000,
        }
    }

    /// The mode with the number `mode_id`, or `default` where no mode
    /// has that number.
    pub fn from_or(mode_id: u32, default: DelayFilterMode) -> (mode: DelayFilterMode)
        ensures
            DelayFilterMode::known(mode_id) ==> mode.discriminant() == mode_id,
            !DelayFilterMode::known(mode_id) ==> mode == default,
            mode == DelayFilterMode::with_number_or(mode_id, default),
    {
        let mode = match mode_id {
            0 => DelayFilterMode::Off,
            42 => DelayFilterMode::LowPass5000,
            83 => DelayFilterMode::LowPass3800,
            125 => DelayFilterMode::LowPass2500,
            167 => DelayFilterMode::LowPass1600,
            208 => DelayFilterMode::LowPass1000,
            250 => DelayFilterMode::LowPass750,
            292 => DelayFilterMode::LowPass400,
            333 => DelayFilterMode::LowPass200,
            375 => DelayFilterMode::HighPass4000,
            417 => DelayFilterMode::HighPass2000,
            458 => DelayFilterMode::HighPass1200,
            500 => DelayFilterMode::HighPass800,
            542 => DelayFilterMode::HighPass600,
            583 => DelayFilterMode::HighPass400,
            625 => DelayFilterMode::HighPass250,
            667 => DelayFilterMode::HighPass100,
            708 => DelayFilterMode::BandPass3000,
            750 => DelayFilterMode::BandPass1800,
            792 => DelayFilterMode::BandPass1300,
            833 => DelayFilterMode::BandPass1000,
            875 => DelayFilterMode::BandPass700,
            917 => DelayFilterMode::BandPass500,
            958 => DelayFilterMode::BandPass300,
            1000 => DelayFilterMode::BandPass150,
            _ => default,
        };
        proof {
            if mode.discriminant() == mode_id {
                assert(DelayFilterMode::known(mode_id));
                let found = DelayFilterMode::with_number(mode_id);
                assert(found.discriminant() == mode.discriminant());
            }
        }
        mode
    }

    /// Where the mode stands on the slider of the synthesizer, which has
    /// twenty-five stops from end to end.
    pub open spec fn position(self) -> nat {
        match self {
            DelayFilterMode::Off => 0,
            DelayFilterMode::LowPass5000 => 1,
            DelayFilterMode::LowPass3800 => 2,
            DelayFilterMode::LowPass2500 => 3,
            DelayFilterMode::LowPass1600 => 4,
            DelayFilterMode::LowPass1000 => 5,
            DelayFilterMode::LowPass750 => 6,
            DelayFilterMode::LowPass400 => 7,
            DelayFilterMode::LowPass200 => 8,
            DelayFilterMode::HighPass4000 => 9,
            DelayFilterMode::HighPass2000 => 10,
            DelayFilterMode::HighPass1200 => 11,
            DelayFilterMode::HighPass800 => 12,
            DelayFilterMode::HighPass600 => 13,
            DelayFilterMode::HighPass400 => 14,
            DelayFilterMode::HighPass250 => 15,
            DelayFilterMode::HighPass100 => 16,
            DelayFilterMode::BandPass3000 => 17,
            DelayFilterMode::BandPass1800 => 18,
            DelayFilterMode::BandPass1300 => 19,
            DelayFilterMode::BandPass1000 => 20,
            DelayFilterMode::BandPass700 => 21,
            DelayFilterMode::BandPass500 => 22,
            DelayFilterMode::BandPass300 => 23,
            DelayFilterMode::BandPass150 => 24,
        }
    }

    /// The mode's name as the synthesizer shows it.
    pub open spec fn label_text(self) -> Seq<char> {
        match self {
            DelayFilterMode::Off => "Filter: Off"@,
            DelayFilterMode::LowPass5000 => "LP: 5000 Hz"@,
            DelayFilterMode::LowPass3800 => "LP: 3800 Hz"@,
            DelayFilterMode::LowPass2500 => "LP: 2500 Hz"@,
            DelayFilterMode::LowPass1600 => "LP: 1600 Hz"@,
            DelayFilterMode::LowPass1000 => "LP: 1000 Hz"@,
            DelayFilterMode::LowPass750 => "LP: 750 Hz"@,
            DelayFilterMode::LowPass400 => "LP: 400 Hz"@,
            DelayFilterMode::LowPass200 => "LP: 200 Hz"@,
            DelayFilterMode::HighPass4000 => "HP: 4000 Hz"@,
            DelayFilterMode::HighPass2000 => "HP: 2000 Hz"@,
            DelayFilterMode::HighPass1200 => "HP: 1200 Hz"@,
            DelayFilterMode::HighPass800 => "HP: 800 Hz"@,
            DelayFilterMode::HighPass600 => "HP: 600 Hz"@,
            DelayFilterMode::HighPass400 => "HP: 400 Hz"@,
            DelayFilterMode::HighPass250 => "HP: 250 Hz"@,
            DelayFilterMode::HighPass100 => "HP: 100 Hz"@,
            DelayFilterMode::BandPass3000 => "BP: 3000 Hz"@,
            DelayFilterMode::BandPass1800 => "BP: 1800 Hz"@,
            DelayFilterMode::BandPass1300 => "BP: 1300 Hz"@,
            DelayFilterMode::BandPass1000 => "BP: 1000 Hz"@,
            DelayFilterMode::BandPass700 => "BP: 700 Hz"@,
            DelayFilterMode::BandPass500 => "BP: 500 Hz"@,
            DelayFilterMode::BandPass300 => "BP: 300 Hz"@,
            DelayFilterMode::BandPass150 => "BP: 150 Hz"@,
        }
    }

    /// The mode's name as the synthesizer shows it.
    pub fn label(self) -> (name: &'static str)
        ensures
            name@ == self.label_text(),
    {
        match self {
            DelayFilterMode::Off => "Filter: Off",
            DelayFilterMode::LowPass5000 => "LP: 5000 Hz",
            DelayFilterMode::LowPass3800 => "LP: 3800 Hz",
            DelayFilterMode::LowPass2500 => "LP: 2500 Hz",
            DelayFilterMode::LowPass1600 => "LP: 1600 Hz",
            DelayFilterMode::LowPass1000 => "LP: 1000 Hz",
            DelayFilterMode::LowPass750 => "LP: 750 Hz",
            DelayFilterMode::LowPass400 => "LP: 400 Hz",
            DelayFilterMode::LowPass200 => "LP: 200 Hz",
            DelayFilterMode::HighPass4000 => "HP: 4000 Hz",
            DelayFilterMode::HighPass2000 => "HP: 2000 Hz",
            DelayFilterMode::HighPass1200 => "HP: 1200 Hz",
            DelayFilterMode::HighPass800 => "HP: 800 Hz",
            DelayFilterMode::HighPass600 => "HP: 600 Hz",
            DelayFilterMode::HighPass400 => "HP: 400 Hz",
            DelayFilterMode::HighPass250 => "HP: 250 Hz",
            DelayFilterMode::HighPass100 => "HP: 100 Hz",
            DelayFilterMode::BandPass3000 => "BP: 3000 Hz",
            DelayFilterMode::BandPass1800 => "BP: 1800 Hz",
            DelayFilterMode::BandPass1300 => "BP: 1300 Hz",
            DelayFilterMode::BandPass1000 => "BP: 1000 Hz",
            DelayFilterMode::BandPass700 => "BP: 700 Hz",
            DelayFilterMode::BandPass500 => "BP: 500 Hz",
            DelayFilterMode::BandPass300 => "BP: 300 Hz",
            DelayFilterMode::BandPass150 => "BP: 150 Hz",
        }
    }
}

/// The numbers that stand for a mode are these and no others.
pub proof fn lemma_delay_filter_mode_numbers(id: u32)
    ensures
        DelayFilterMode::known(
            id,
        ) <==> (id == 0 || id == 42 || id == 83 || id == 125 || id == 167 || id == 208
            || id == 250 || id == 292 || id == 333 || id == 375 || id == 417
            || id == 458 || id == 500 || id == 542 || id == 583 || id == 625
            || id == 667 || id == 708 || id == 750 || id == 792 || id == 833
            || id == 875 || id == 917 || id == 958 || id == 1000),
{
    if id == 0 {
        assert(DelayFilterMode::Off.discriminant() == id);
    }
    if id == 42 {
        assert(DelayFilterMode::LowPass5000.discriminant() == id);
    }
    if id == 83 {
        assert(DelayFilterMode::LowPass3800.discriminant() == id);
    }
    if id == 125 {
        assert(DelayFilterMode::LowPass2500.discriminant() == id);
    }
    if id == 167 {
        assert(DelayFilterMode::LowPass1600.discriminant() == id);
    }
    if id == 208 {
        assert(DelayFilterMode::LowPass1000.discriminant() == id);
    }
    if id == 250 {
        assert(DelayFilterMode::LowPass750.discriminant() == id);
    }
    if id == 292 {
        assert(DelayFilterMode::LowPass400.discriminant() == id);
    }
    if id == 333 {
        assert(DelayFilterMode::LowPass200.discriminant() == id);
    }
    if id == 375 {
        assert(DelayFilterMode::HighPass4000.discriminant() == id);
    }
    if id == 417 {
        assert(DelayFilterMode::HighPass2000.discriminant() == id);
    }
    if id == 458 {
        assert(DelayFilterMode::HighPass1200.discriminant() == id);
    }
    if id == 500 {
        assert(DelayFilterMode::HighPass800.discriminant() == id);
    }
    if id == 542 {
        assert(DelayFilterMode::HighPass600.discriminant() == id);
    }
    if id == 583 {
        assert(DelayFilterMode::HighPass400.discriminant() == id);
    }
    if id == 625 {
        assert(DelayFilterMode::HighPass250.discriminant() == id);
    }
    if id == 667 {
        assert(DelayFilterMode::HighPass100.discriminant() == id);
    }
    if id == 708 {
        assert(DelayFilterMode::BandPass3000.discriminant() == id);
    }
    if id == 750 {
        assert(DelayFilterMode::BandPass1800.discriminant() == id);
    }
    if id == 792 {
        assert(DelayFilterMode::BandPass1300.discriminant() == id);
    }
    if id == 833 {
        assert(DelayFilterMode::BandPass1000.discriminant() == id);
    }
    if id == 875 {
        assert(DelayFilterMode::BandPass700.discriminant() == id);
    }
    if id == 917 {
        assert(DelayFilterMode::BandPass500.discriminant() == id);
    }
    if id == 958 {
        assert(DelayFilterMode::BandPass300.discriminant() == id);
    }
    if id == 1000 {
        assert(DelayFilterMode::BandPass150.discriminant() == id);
    }
}

/// The number of a mode stands for that mode and no other.
pub proof fn lemma_delay_filter_mode_round_trip(mode: DelayFilterMode)
    ensures
        DelayFilterMode::known(mode.discriminant()),
        DelayFilterMode::with_number(mode.discriminant()) == mode,
        forall|default: DelayFilterMode|
            DelayFilterMode::with_number_or(mode.discriminant(), default) == mode,
{
    let found = DelayFilterMode::with_number(mode.discriminant());
    assert(found.discriminant() == mode.discriminant());
}

/// No two modes share a number.
pub proof fn lemma_delay_filter_mode_discriminants_differ(a: DelayFilterMode, b: DelayFilterMode)
    requires
        a.discriminant() == b.discriminant(),
    ensures
        a == b,
{
}

/// The number of a mode is its position on the slider in thousandths of the
/// slider's travel, rounded to the nearest integer.
pub proof fn lemma_delay_filter_mode_ladder(mode: DelayFilterMode)
    ensures
        mode.position() <= 24,
        mode.discriminant() == (2000 * mode.position() + 24) / 48,
{
}

/// The delay effect.
#[derive(Copy, Clone, Debug, PartialEq, Eq, Structural)]
pub struct Delay {
    pub enabled: bool,
    pub ping_pong: bool,
    pub feedback: Number,
    /// The position of the filter's slider as a fraction of its travel, as
    /// earlier revisions of the format hold it.
    pub filter: Number,
    pub filter_mode: DelayFilterMode,
    pub sync: bool,
    pub time: Number,
    pub mix: Number,
}

impl Effect for Delay {
    open spec fn switched_on(&self) -> bool {
        self.enabled
    }

    fn is_enabled(&self) -> (enabled: bool) {
        self.enabled
    }
}

/// The distortion effect.
#[derive(Copy, Clone, Debug, PartialEq, Eq, Structural)]
pub struct Distortion {
    pub enabled: bool,
    /// From 0.0 to 10.0 on the synthesizer.
    pub gain: Number,
}

impl Effect for Distortion {
    open spec fn switched_on(&self) -> bool {
        self.enabled
    }

    fn is_enabled(&self) -> (enabled: bool) {
        self.enabled
    }
}

/// The three-band equalizer.
#[derive(Copy, Clone, Debug, PartialEq, Eq, Structural)]
pub struct Equalizer {
    pub enabled: bool,
    pub high_gain: Ratio,
    pub low_gain: Ratio,
    pub mid_gain: Ratio,
}

impl Effect for Equalizer {
    open spec fn switched_on(&self) -> bool {
        self.enabled
    }

    fn is_enabled(&self) -> (enabled: bool) {
        self.enabled
    }
}

/// The kinds of effects, in the order in which the synthesizer applies them
/// unless a preset says otherwise.
#[derive(Copy, Clone, Debug, PartialEq, Eq, Structural)]
pub enum EffectType {
    Distortion,
    LoFi,
    Filter,
    Chorus,
    Equalizer,
    Delay,
    Reverb,
}

impl EffectType {
    /// The number that stands for the effect type in a preset file.
    pub open spec fn discriminant(self) -> u32 {
        match self {
            EffectType::Distortion => 0,
            EffectType::LoFi => 1,
            EffectType::Filter => 2,
            EffectType::Chorus => 3,
            EffectType::Equalizer => 4,
            EffectType::Delay => 5,
            EffectType::Reverb => 6,
        }
    }

    /// Whether some effect type has the number `id`.
    pub open spec fn known(id: u32) -> bool {
        exists|kind: EffectType| kind.discriminant() == id
    }

    /// The effect type with the number `id`, for a number that is known.
    pub open spec fn with_number(id: u32) -> EffectType {
        choose|kind: EffectType| kind.discriminant() == id
    }

    /// The number that stands for the effect type in a preset file.
    pub fn code(self) -> (id: u32)
        ensures
            id == self.discriminant(),
    {
        match self {
            EffectType::Distortion => 0,
            EffectType::LoFi => 1,
            EffectType::Filter => 2,
            EffectType::Chorus => 3,
            EffectType::Equalizer => 4,
            EffectType::Delay => 5,
            EffectType::Reverb => 6,
        }
    }

    /// The effect type with the number `effect_type_id`. Fails, naming the number,
    /// where no effect type has it.
    pub fn try_from(effect_type_id: u32) -> (r: Result<EffectType, DecodeError>)
        ensures
            r == if EffectType::known(effect_type_id) {
                Ok::<EffectType, DecodeError>(EffectType::with_number(effect_type_id))
            } else {
                Err(DecodeError::UnknownEffectType(effect_type_id))
            },
            r is Ok ==> r->Ok_0.discriminant() == effect_type_id,
    {
        let r = match effect_type_id {
            0 => Ok(EffectType::Distortion),
            1 => Ok(EffectType::LoFi),
            2 => Ok(EffectType::Filter),
            3 => Ok(EffectType::Chorus),
            4 => Ok(EffectType::Equalizer),
            5 => Ok(EffectType::Delay),
            6 => Ok(EffectType::Reverb),
            _ => Err(DecodeError::UnknownEffectType(effect_type_id)),
        };
        proof {
            if r is Ok {
                let found = r->Ok_0;
                assert(found.discriminant() == effect_type_id);
                assert(EffectType::known(effect_type_id));
                let named = EffectType::with_number(effect_type_id);
                assert(named.discriminant() == found.discriminant());
            }
        }
        r
    }
}

/// The numbers that stand for an effect type are these and no others.
pub proof fn lemma_effect_type_numbers(id: u32)
    ensures
        EffectType::known(id) <==> (id == 0 || id == 1 || id == 2 || id == 3 || id == 4 || id == 5
            || id == 6),
{
    if id == 0 {
        assert(EffectType::Distortion.discriminant() == id);
    }
    if id == 1 {
        assert(EffectType::LoFi.discriminant() == id);
    }
    if id == 2 {
        assert(EffectType::Filter.discriminant() == id);
    }
    if id == 3 {
        assert(EffectType::Chorus.discriminant() == id);
    }
    if id == 4 {
        assert(EffectType::Equalizer.discriminant() == id);
    }
    if id == 5 {
        assert(EffectType::Delay.discriminant() == id);
    }
    if id == 6 {
        assert(EffectType::Reverb.discriminant() == id);
    }
}

/// The number of an effect type stands for that effect type and no other.
pub proof fn lemma_effect_type_round_trip(kind: EffectType)
    ensures
        EffectType::known(kind.discriminant()),
        EffectType::with_number(kind.discriminant()) == kind,
{
    let found = EffectType::with_number(kind.discriminant());
    assert(found.discriminant() == kind.discriminant());
}

/// No two effect types share a number.
pub proof fn lemma_effect_type_discriminants_differ(a: EffectType, b: EffectType)
    requires
        a.discriminant() == b.discriminant(),
    ensures
        a == b,
{
}

/// The shape of a filter.
#[derive(Copy, Clone, Debug, PartialEq, Eq, Structural)]
pub enum FilterMode {
    LowPass,
    BandPass,
    HighPass,
    Notch,
    Peak,
}

impl FilterMode {
    /// The number that stands for the mode in a preset file.
    pub open spec fn discriminant(self) -> u32 {
        match self {
            FilterMode::LowPass => 0,
            FilterMode::BandPass => 1,
            FilterMode::HighPass => 2,
            FilterMode::Notch => 3,
            FilterMode::Peak => 4,
        }
    }

    /// Whether some mode has the number `id`.
    pub open spec fn known(id: u32) -> bool {
        exists|mode: FilterMode| mode.discriminant() == id
    }

    /// The mode with the number `id`, for a number that is known.
    pub open spec fn with_number(id: u32) -> FilterMode {
        choose|mode: FilterMode| mode.discriminant() == id
    }

    /// The mode with the number `id`, or `default` where no mode has
    /// that number.
    pub open spec fn with_number_or(id: u32, default: FilterMode) -> FilterMode {
        if FilterMode::known(id) {
            FilterMode::with_number(id)
        } else {
            default
        }
    }

    /// The number that stands for the mode in a preset file.
    pub fn code(self) -> (id: u32)
        ensures
            id == self.discriminant(),
    {
        match self {
            FilterMode::LowPass => 0,
            FilterMode::BandPass => 1,
            FilterMode::HighPass => 2,
            FilterMode::Notch => 3,
            FilterMode::Peak => 4,
        }
    }

    /// The mode with the number `mode_id`, or `default` where no mode
    /// has that number.
    pub fn from_or(mode_id: u32, default: FilterMode) -> (mode: FilterMode)
        ensures
            FilterMode::known(mode_id) ==> mode.discriminant() == mode_id,
            !FilterMode::known(mode_id) ==> mode == default,
            mode == FilterMode::with_number_or(mode_id, default),
    {
        let mode = match mode_id {
            0 => FilterMode::LowPass,
            1 => FilterMode::BandPass,
            2 => FilterMode::HighPass,
            3 => FilterMode::Notch,
            4 => FilterMode::Peak,
            _ => default,
        };
        proof {
            if mode.discriminant() == mode_id {
                assert(FilterMode::known(mode_id));
                let found = FilterMode::with_number(mode_id);
                assert(found.discriminant() == mode.discriminant());
            }
        }
        mode
    }
}

/// The numbers that stand for a mode are these and no others.
pub proof fn lemma_filter_mode_numbers(id: u32)
    ensures
        FilterMode::known(id) <==> (id == 0 || id == 1 || id == 2 || id == 3 || id == 4),
{
    if id == 0 {
        assert(FilterMode::LowPass.discriminant() == id);
    }
    if id == 1 {
        assert(FilterMode::BandPass.discriminant() == id);
    }
    if id == 2 {
        assert(FilterMode::HighPass.discriminant() == id);
    }
    if id == 3 {
        assert(FilterMode::Notch.discriminant() == id);
    }
    if id == 4 {
        assert(FilterMode::Peak.discriminant() == id);
    }
}

/// The number of a mode stands for that mode and no other.
pub proof fn lemma_filter_mode_round_trip(mode: FilterMode)
    ensures
        FilterMode::known(mode.discriminant()),
        FilterMode::with_number(mode.discriminant()) == mode,
        forall|default: FilterMode|
            FilterMode::with_number_or(mode.discriminant(), default) == mode,
{
    let found = FilterMode::with_number(mode.discriminant());
    assert(found.discriminant() == mode.discriminant());
}

/// No two modes share a number.
pub proof fn lemma_filter_mode_discriminants_differ(a: FilterMode, b: FilterMode)
    requires
        a.discriminant() == b.discriminant(),
    ensures
        a == b,
{
}

/// How the drive stage of the filter treats the signal.
#[derive(Copy, Clone, Debug, PartialEq, Eq, Structural)]
pub enum FilterEffectMode {
    Off,
    Saturation,
    Overdrive,
    Distortion,
    BitRateReduction,
    SampleRateReduction,
}

impl FilterEffectMode {
    /// The number that stands for the mode in a preset file.
    pub open spec fn discriminant(self) -> u32 {
        match self {
            FilterEffectMode::Off => 0,
            FilterEffectMode::Saturation => 1,
            FilterEffectMode::Overdrive => 2,
            FilterEffectMode::Distortion => 3,
            FilterEffectMode::BitRateReduction => 4,
            FilterEffectMode::SampleRateReduction => 5,
        }
    }

    /// Whether some mode has the number `id`.
    pub open spec fn known(id: u32) -> bool {
        exists|mode: FilterEffectMode| mode.discriminant() == id
    }

    /// The mode with the number `id`, for a number that is known.
    pub open spec fn with_number(id: u32) -> FilterEffectMode {
        choose|mode: FilterEffectMode| mode.discriminant() == id
    }

    /// The mode with the number `id`, or `default` where no mode has
    /// that number.
    pub open spec fn with_number_or(id: u32, default: FilterEffectMode) -> FilterEffectMode {
        if FilterEffectMode::known(id) {
            FilterEffectMode::with_number(id)
        } else {
            default
        }
    }

    /// The number that stands for the mode in a preset file.
    pub fn code(self) -> (id: u32)
        ensures
            id == self.discriminant(),
    {
        match self {
            FilterEffectMode::Off => 0,
            FilterEffectMode::Saturation => 1,
            FilterEffectMode::Overdrive => 2,
            FilterEffectMode::Distortion => 3,
            FilterEffectMode::BitRateReduction => 4,
            FilterEffectMode::SampleRateReduction => 5,
        }
    }

    /// The mode with the number `mode_id`, or `default` where no mode
    /// has that number.
    pub fn from_or(mode_id: u32, default: FilterEffectMode) -> (mode: FilterEffectMode)
        ensures
            FilterEffectMode::known(mode_id) ==> mode.discriminant() == mode_id,
            !FilterEffectMode::known(mode_id) ==> mode == default,
            mode == FilterEffectMode::with_number_or(mode_id, default),
    {
        let mode = match mode_id {
            0 => FilterEffectMode::Off,
            1 => FilterEffectMode::Saturation,
            2 => FilterEffectMode::Overdrive,
            3 => FilterEffectMode::Distortion,
            4 => FilterEffectMode::BitRateReduction,
            5 => FilterEffectMode::SampleRateReduction,
            _ => default,
        };
        proof {
            if mode.discriminant() == mode_id {
                assert(FilterEffectMode::known(mode_id));
                let found = FilterEffectMode::with_number(mode_id);
                assert(found.discriminant() == mode.discriminant());
            }
        }
        mode
    }
}

/// The numbers that stand for a mode are these and no others.
pub proof fn lemma_filter_effect_mode_numbers(id: u32)
    ensures
        FilterEffectMode::known(
            id,
        ) <==> (id == 0 || id == 1 || id == 2 || id == 3 || id == 4 || id == 5),
{
    if id == 0 {
        assert(FilterEffectMode::Off.discriminant() == id);
    }
    if id == 1 {
        assert(FilterEffectMode::Saturation.discriminant() == id);
    }
    if id == 2 {
        assert(FilterEffectMode::Overdrive.discriminant() == id);
    }
    if id == 3 {
        assert(FilterEffectMode::Distortion.discriminant() == id);
    }
    if id == 4 {
        assert(FilterEffectMode::BitRateReduction.discriminant() == id);
    }
    if id == 5 {
        assert(FilterEffectMode::SampleRateReduction.discriminant() == id);
    }
}

/// The number of a mode stands for that mode and no other.
pub proof fn lemma_filter_effect_mode_round_trip(mode: FilterEffectMode)
    ensures
        FilterEffectMode::known(mode.discriminant()),
        FilterEffectMode::with_number(mode.discriminant()) == mode,
        forall|default: FilterEffectMode|
            FilterEffectMode::with_number_or(mode.discriminant(), default) == mode,
{
    let found = FilterEffectMode::with_number(mode.discriminant());
    assert(found.discriminant() == mode.discriminant());
}

/// No two modes share a number.
pub proof fn lemma_filter_effect_mode_discriminants_differ(a: FilterEffectMode, b: FilterEffectMode)
    requires
        a.discriminant() == b.discriminant(),
    ensures
        a == b,
{
}

/// A filter with its envelope and drive stage.
#[derive(Copy, Clone, Debug, PartialEq, Eq, Structural)]
pub struct Filter {
    pub enabled: bool,
    pub mode: FilterMode,
    pub resonance: Number,
    pub cutoff_frequency: Number,
    pub key_tracking: Number,
    pub envelope: Envelope,
    /// How much the envelope moves the cutoff frequency.
    pub envelope_amount: Number,
    pub effect_mode: FilterEffectMode,
    pub effect_enabled: bool,
    pub effect_amount: Number,
}

impl Effect for Filter {
    open spec fn switched_on(&self) -> bool {
        self.enabled
    }

    fn is_enabled(&self) -> (enabled: bool) {
        self.enabled
    }
}

/// The bit and sample rate reducer.
#[derive(Copy, Clone, Debug, PartialEq, Eq, Structural)]
pub struct LoFi {
    pub enabled: bool,
    pub bitrate: Number,
    pub sample_rate: Number,
    pub mix: Number,
}

impl Effect for LoFi {
    open spec fn switched_on(&self) -> bool {
        self.enabled
    }

    fn is_enabled(&self) -> (enabled: bool) {
        self.enabled
    }
}

/// The reverb effect.
#[derive(Copy, Clone, Debug, PartialEq, Eq, Structural)]
pub struct Reverb {
    pub enabled: bool,
    pub dampen: Number,
    pub filter: Number,
    pub room: Number,
    pub width: Number,
    pub mix: Number,
}

impl Effect for Reverb {
    open spec fn switched_on(&self) -> bool {
        self.enabled
    }

    fn is_enabled(&self) -> (enabled: bool) {
        self.enabled
    }
}

} // verus!
