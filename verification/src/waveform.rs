//! The waveforms an oscillator or a low-frequency oscillator can play.

use vstd::prelude::*;

verus! {

/// A waveform. A preset file names a waveform by its position in this list,
/// counted from zero.
#[derive(Copy, Clone, Debug, PartialEq, Eq, Structural)]
pub enum Waveform {
    Sine,
    SineRoot1_5,
    SineRoot2,
    SineRoot3,
    SineRoot4,
    SinePower1_5,
    SinePower2,
    SinePower3,
    SinePower4,
    SineAm1,
    SineAm2,
    SineAm3,
    SineAm4,
    SineAm5,
    SineFmA1,
    SineFmA2,
    SineFmA3,
    SineFmA4,
    SineFmA5,
    SineFmA6,
    SineFmB1,
    SineFmB2,
    SineFmB3,
    SineFmB4,
    SineFmB5,
    SineFmC1,
    SineFmC2,
    SineFmC3,
    SineFmC4,
    SineFmC5,
    SineFmC6,
    SineFmC7,
    SineFmC8,
    SineFmD1,
    SineFmD2,
    SineFmD3,
    SineFmD4,
    SineFmD5,
    SineFmD6,
    SineFmD7,
    SineFmD8,
    SineFmD9,
    SineFmD10,
    SineFmD11,
    SineFmD12,
    SineFmD13,
    SineFmD14,
    SineFmD15,
    SineFmKick1,
    SineFmKick2,
    SineFmKick3,
    SineFmKick4,
    SineFmKick5,
    SineFmKick6,
    SineFmKick7,
    SineFmKick8,
    SineFmKick9,
    SineFmKick10,
    SineFmKick11,
    SineFmKick12,
    Triangle,
    TriangleRoot2,
    TriangleRoot3,
    TriangleRoot4,
    TriangleRoot5,
    Saw,
    SawPower1,
    SawPower2,
    SawSine1,
    SawSine2,
    SawSine3,
    Saw2x,
    Square,
    SquareSmooth1,
    SquareSmooth2,
    SquareHalfRoot,
    SquareHalfRootPower,
    SquarePower,
    SquareDoublePower1,
    SquareDoublePower2,
    SquareAttackPower,
    SquareTristate1,
    SquareTristate2,
    SquareTristate3,
    SquareTristate4,
    SquareTristate5,
    SquareTristate6,
    SquareFm1,
    SquareFm2,
    SquareFm3,
    SquareFm4,
    SquareFm5,
    SquareFm6,
    SquareFm7,
    SquareFm8,
    Pulse1,
    Pulse2,
    Pulse3,
    Pulse4,
    PulseSquare,
    PulseSquareSmooth,
    PulseSmooth1,
    PulseSmooth2,
    Voice1,
    Voice2,
    Voice3,
    Voice4,
    Voice5,
    Voice6,
    Voice7,
    Voice8,
    Voice9,
    Voice10,
    Voice11,
    Voice12,
    Voice13,
    Voice14,
    Voice15,
    Voice16,
    Voice17,
    Voice18,
    Voice19,
    Voice20,
    Voice21,
    Voice22,
    Voice23,
    Voice24,
    Voice25,
    Voice26,
    Voice27,
    Voice28,
    Voice29,
    Voice30,
    FormantA1,
    FormantA2,
    FormantA3,
    FormantA4,
    FormantA5,
    FormantA6,
    FormantA7,
    FormantA8,
    FormantB1,
    FormantB2,
    FormantB3,
    FormantB4,
    FormantB5,
    FormantB6,
    FormantB7,
    FormantB8,
    SyntheticVoice1,
    SyntheticVoice2,
    SyntheticVoice3,
    SyntheticVoice4,
    SyntheticVoice5,
    SyntheticVoice6,
    SyntheticVoice7,
    SyntheticVoice8,
    SyntheticVoice9,
    SyntheticVoice10,
    SyntheticVoice11,
    SyntheticVoice12,
    SyntheticVoice13,
    SyntheticVoice14,
    SyntheticVoice15,
    SyntheticVoice16,
    SyntheticVoice17,
    SyntheticVoice18,
    SyntheticVoice19,
    SyntheticVoice20,
    SyntheticVoice21,
    SyntheticVoice22,
    SyntheticVoice23,
    SyntheticVoice24,
    SyntheticVoice25,
    SyntheticVoice26,
    SyntheticVoice27,
    SyntheticVoice28,
    SyntheticVoice29,
    Organ1,
    Organ2,
    Organ3,
    Organ4,
    Organ5,
    Organ6,
    Organ7,
    Organ8,
    Organ9,
    Organ10,
    Organ11,
    Organ12,
    Organ13,
    Organ14,
    Organ15,
    Organ16,
    Organ17,
    Organ18,
    Organ19,
    Organ20,
    Organ21,
    Organ22,
    Organ23,
    EPiano1,
    EPiano2,
    EPiano3,
    EPiano4,
    Key1,
    Key2,
    Key3,
    DistGuitar1,
    DistGuitar2,
    Rhode,
    Brass1,
    Brass2,
    Chip1,
    Chip2,
    Chip3,
    Chip4,
    Chip5,
    Chip6,
    Chip7,
    Gritty1,
    Gritty2,
    Gritty3,
    Gritty4,
    Gritty5,
    Gritty6,
    Dirty1A,
    Dirty1B,
    Dirty1C,
    Dirty2A,
    Dirty2B,
    Dirty2C,
    Dirty3A,
    Dirty3B,
    Dirty3C,
    Dirty4A,
    Dirty4B,
    Dirty4C,
    Dirty5A,
    Dirty5B,
    Dirty5C,
    Dirty6A,
    Dirty6B,
    Dirty6C,
    Dirty7A,
    Dirty7B,
    Dirty7C,
    Dirty8A,
    Dirty8B,
    Dirty8C,
    Gate1,
    Gate2,
    Gate3,
    Gate4,
    Duck1,
    Duck2,
    Duck3,
}

impl Waveform {
    /// The number that stands for the waveform in a preset file.
    pub open spec fn discriminant(self) -> u32 {
        match self {
            Waveform::Sine => 0,
            Waveform::SineRoot1_5 => 1,
            Waveform::SineRoot2 => 2,
            Waveform::SineRoot3 => 3,
            Waveform::SineRoot4 => 4,
            Waveform::SinePower1_5 => 5,
            Waveform::SinePower2 => 6,
            Waveform::SinePower3 => 7,
            Waveform::SinePower4 => 8,
            Waveform::SineAm1 => 9,
            Waveform::SineAm2 => 10,
            Waveform::SineAm3 => 11,
            Waveform::SineAm4 => 12,
            Waveform::SineAm5 => 13,
            Waveform::SineFmA1 => 14,
            Waveform::SineFmA2 => 15,
            Waveform::SineFmA3 => 16,
            Waveform::SineFmA4 => 17,
            Waveform::SineFmA5 => 18,
            Waveform::SineFmA6 => 19,
            Waveform::SineFmB1 => 20,
            Waveform::SineFmB2 => 21,
            Waveform::SineFmB3 => 22,
            Waveform::SineFmB4 => 23,
            Waveform::SineFmB5 => 24,
            Waveform::SineFmC1 => 25,
            Waveform::SineFmC2 => 26,
            Waveform::SineFmC3 => 27,
            Waveform::SineFmC4 => 28,
            Waveform::SineFmC5 => 29,
            Waveform::SineFmC6 => 30,
            Waveform::SineFmC7 => 31,
            Waveform::SineFmC8 => 32,
            Waveform::SineFmD1 => 33,
            Waveform::SineFmD2 => 34,
            Waveform::SineFmD3 => 35,
            Waveform::SineFmD4 => 36,
            Waveform::SineFmD5 => 37,
            Waveform::SineFmD6 => 38,
            Waveform::SineFmD7 => 39,
            Waveform::SineFmD8 => 40,
            Waveform::SineFmD9 => 41,
            Waveform::SineFmD10 => 42,
            Waveform::SineFmD11 => 43,
            Waveform::SineFmD12 => 44,
            Waveform::SineFmD13 => 45,
            Waveform::SineFmD14 => 46,
            Waveform::SineFmD15 => 47,
            Waveform::SineFmKick1 => 48,
            Waveform::SineFmKick2 => 49,
            Waveform::SineFmKick3 => 50,
            Waveform::SineFmKick4 => 51,
            Waveform::SineFmKick5 => 52,
            Waveform::SineFmKick6 => 53,
            Waveform::SineFmKick7 => 54,
            Waveform::SineFmKick8 => 55,
            Waveform::SineFmKick9 => 56,
            Waveform::SineFmKick10 => 57,
            Waveform::SineFmKick11 => 58,
            Waveform::SineFmKick12 => 59,
            Waveform::Triangle => 60,
            Waveform::TriangleRoot2 => 61,
            Waveform::TriangleRoot3 => 62,
            Waveform::TriangleRoot4 => 63,
            Waveform::TriangleRoot5 => 64,
            Waveform::Saw => 65,
            Waveform::SawPower1 => 66,
            Waveform::SawPower2 => 67,
            Waveform::SawSine1 => 68,
            Waveform::SawSine2 => 69,
            Waveform::SawSine3 => 70,
            Waveform::Saw2x => 71,
            Waveform::Square => 72,
            Waveform::SquareSmooth1 => 73,
            Waveform::SquareSmooth2 => 74,
            Waveform::SquareHalfRoot => 75,
            Waveform::SquareHalfRootPower => 76,
            Waveform::SquarePower => 77,
            Waveform::SquareDoublePower1 => 78,
            Waveform::SquareDoublePower2 => 79,
            Waveform::SquareAttackPower => 80,
            Waveform::SquareTristate1 => 81,
            Waveform::SquareTristate2 => 82,
            Waveform::SquareTristate3 => 83,
            Waveform::SquareTristate4 => 84,
            Waveform::SquareTristate5 => 85,
            Waveform::SquareTristate6 => 86,
            Waveform::SquareFm1 => 87,
            Waveform::SquareFm2 => 88,
            Waveform::SquareFm3 => 89,
            Waveform::SquareFm4 => 90,
            Waveform::SquareFm5 => 91,
            Waveform::SquareFm6 => 92,
            Waveform::SquareFm7 => 93,
            Waveform::SquareFm8 => 94,
            Waveform::Pulse1 => 95,
            Waveform::Pulse2 => 96,
            Waveform::Pulse3 => 97,
            Waveform::Pulse4 => 98,
            Waveform::PulseSquare => 99,
            Waveform::PulseSquareSmooth => 100,
            Waveform::PulseSmooth1 => 101,
            Waveform::PulseSmooth2 => 102,
            Waveform::Voice1 => 103,
            Waveform::Voice2 => 104,
            Waveform::Voice3 => 105,
            Waveform::Voice4 => 106,
            Waveform::Voice5 => 107,
            Waveform::Voice6 => 108,
            Waveform::Voice7 => 109,
            Waveform::Voice8 => 110,
            Waveform::Voice9 => 111,
            Waveform::Voice10 => 112,
            Waveform::Voice11 => 113,
            Waveform::Voice12 => 114,
            Waveform::Voice13 => 115,
            Waveform::Voice14 => 116,
            Waveform::Voice15 => 117,
            Waveform::Voice16 => 118,
            Waveform::Voice17 => 119,
            Waveform::Voice18 => 120,
            Waveform::Voice19 => 121,
            Waveform::Voice20 => 122,
            Waveform::Voice21 => 123,
            Waveform::Voice22 => 124,
            Waveform::Voice23 => 125,
            Waveform::Voice24 => 126,
            Waveform::Voice25 => 127,
            Waveform::Voice26 => 128,
            Waveform::Voice27 => 129,
            Waveform::Voice28 => 130,
            Waveform::Voice29 => 131,
            Waveform::Voice30 => 132,
            Waveform::FormantA1 => 133,
            Waveform::FormantA2 => 134,
            Waveform::FormantA3 => 135,
            Waveform::FormantA4 => 136,
            Waveform::FormantA5 => 137,
            Waveform::FormantA6 => 138,
            Waveform::FormantA7 => 139,
            Waveform::FormantA8 => 140,
            Waveform::FormantB1 => 141,
            Waveform::FormantB2 => 142,
            Waveform::FormantB3 => 143,
            Waveform::FormantB4 => 144,
            Waveform::FormantB5 => 145,
            Waveform::FormantB6 => 146,
            Waveform::FormantB7 => 147,
            Waveform::FormantB8 => 148,
            Waveform::SyntheticVoice1 => 149,
            Waveform::SyntheticVoice2 => 150,
            Waveform::SyntheticVoice3 => 151,
            Waveform::SyntheticVoice4 => 152,
            Waveform::SyntheticVoice5 => 153,
            Waveform::SyntheticVoice6 => 154,
            Waveform::SyntheticVoice7 => 155,
            Waveform::SyntheticVoice8 => 156,
            Waveform::SyntheticVoice9 => 157,
            Waveform::SyntheticVoice10 => 158,
            Waveform::SyntheticVoice11 => 159,
            Waveform::SyntheticVoice12 => 160,
            Waveform::SyntheticVoice13 => 161,
            Waveform::SyntheticVoice14 => 162,
            Waveform::SyntheticVoice15 => 163,
            Waveform::SyntheticVoice16 => 164,
            Waveform::SyntheticVoice17 => 165,
            Waveform::SyntheticVoice18 => 166,
            Waveform::SyntheticVoice19 => 167,
            Waveform::SyntheticVoice20 => 168,
            Waveform::SyntheticVoice21 => 169,
            Waveform::SyntheticVoice22 => 170,
            Waveform::SyntheticVoice23 => 171,
            Waveform::SyntheticVoice24 => 172,
            Waveform::SyntheticVoice25 => 173,
            Waveform::SyntheticVoice26 => 174,
            Waveform::SyntheticVoice27 => 175,
            Waveform::SyntheticVoice28 => 176,
            Waveform::SyntheticVoice29 => 177,
            Waveform::Organ1 => 178,
            Waveform::Organ2 => 179,
            Waveform::Organ3 => 180,
            Waveform::Organ4 => 181,
            Waveform::Organ5 => 182,
            Waveform::Organ6 => 183,
            Waveform::Organ7 => 184,
            Waveform::Organ8 => 185,
            Waveform::Organ9 => 186,
            Waveform::Organ10 => 187,
            Waveform::Organ11 => 188,
            Waveform::Organ12 => 189,
            Waveform::Organ13 => 190,
            Waveform::Organ14 => 191,
            Waveform::Organ15 => 192,
            Waveform::Organ16 => 193,
            Waveform::Organ17 => 194,
            Waveform::Organ18 => 195,
            Waveform::Organ19 => 196,
            Waveform::Organ20 => 197,
            Waveform::Organ21 => 198,
            Waveform::Organ22 => 199,
            Waveform::Organ23 => 200,
            Waveform::EPiano1 => 201,
            Waveform::EPiano2 => 202,
            Waveform::EPiano3 => 203,
            Waveform::EPiano4 => 204,
            Waveform::Key1 => 205,
            Waveform::Key2 => 206,
            Waveform::Key3 => 207,
            Waveform::DistGuitar1 => 208,
            Waveform::DistGuitar2 => 209,
            Waveform::Rhode => 210,
            Waveform::Brass1 => 211,
            Waveform::Brass2 => 212,
            Waveform::Chip1 => 213,
            Waveform::Chip2 => 214,
            Waveform::Chip3 => 215,
            Waveform::Chip4 => 216,
            Waveform::Chip5 => 217,
            Waveform::Chip6 => 218,
            Waveform::Chip7 => 219,
            Waveform::Gritty1 => 220,
            Waveform::Gritty2 => 221,
            Waveform::Gritty3 => 222,
            Waveform::Gritty4 => 223,
            Waveform::Gritty5 => 224,
            Waveform::Gritty6 => 225,
            Waveform::Dirty1A => 226,
            Waveform::Dirty1B => 227,
            Waveform::Dirty1C => 228,
            Waveform::Dirty2A => 229,
            Waveform::Dirty2B => 230,
            Waveform::Dirty2C => 231,
            Waveform::Dirty3A => 232,
            Waveform::Dirty3B => 233,
            Waveform::Dirty3C => 234,
            Waveform::Dirty4A => 235,
            Waveform::Dirty4B => 236,
            Waveform::Dirty4C => 237,
            Waveform::Dirty5A => 238,
            Waveform::Dirty5B => 239,
            Waveform::Dirty5C => 240,
            Waveform::Dirty6A => 241,
            Waveform::Dirty6B => 242,
            Waveform::Dirty6C => 243,
            Waveform::Dirty7A => 244,
            Waveform::Dirty7B => 245,
            Waveform::Dirty7C => 246,
            Waveform::Dirty8A => 247,
            Waveform::Dirty8B => 248,
            Waveform::Dirty8C => 249,
            Waveform::Gate1 => 250,
            Waveform::Gate2 => 251,
            Waveform::Gate3 => 252,
            Waveform::Gate4 => 253,
            Waveform::Duck1 => 254,
            Waveform::Duck2 => 255,
            Waveform::Duck3 => 256,
        }
    }

    /// Whether some waveform has the number `id`.
    pub open spec fn known(id: u32) -> bool {
        exists|waveform: Waveform| waveform.discriminant() == id
    }

    /// The waveform with the number `id`, for a number that is known.
    pub open spec fn with_number(id: u32) -> Waveform {
        choose|waveform: Waveform| waveform.discriminant() == id
    }

    /// The waveform with the number `id`, or `default` where no waveform has
    /// that number.
    pub open spec fn with_number_or(id: u32, default: Waveform) -> Waveform {
        if Waveform::known(id) {
            Waveform::with_number(id)
        } else {
            default
        }
    }

    /// The waveform's name as the synthesizer shows it.
    pub open spec fn label_text(self) -> Seq<char> {
        match self {
            Waveform::Sine => "Sine"@,
            Waveform::SineRoot1_5 => "Sine Root 1.5"@,
            Waveform::SineRoot2 => "Sine Root 2"@,
            Waveform::SineRoot3 => "Sine Root 3"@,
            Waveform::SineRoot4 => "Sine Root 4"@,
            Waveform::SinePower1_5 => "Sine Power 1.5"@,
            Waveform::SinePower2 => "Sine Power 2"@,
            Waveform::SinePower3 => "Sine Power 3"@,
            Waveform::SinePower4 => "Sine Power 4"@,
            Waveform::SineAm1 => "Sine AM 1"@,
            Waveform::SineAm2 => "Sine AM 2"@,
            Waveform::SineAm3 => "Sine AM 3"@,
            Waveform::SineAm4 => "Sine AM 4"@,
            Waveform::SineAm5 => "Sine AM 5"@,
            Waveform::SineFmA1 => "Sine FM A 1"@,
            Waveform::SineFmA2 => "Sine FM A 2"@,
            Waveform::SineFmA3 => "Sine FM A 3"@,
            Waveform::SineFmA4 => "Sine FM A 4"@,
            Waveform::SineFmA5 => "Sine FM A 5"@,
            Waveform::SineFmA6 => "Sine FM A 6"@,
            Waveform::SineFmB1 => "Sine FM B 1"@,
            Waveform::SineFmB2 => "Sine FM B 2"@,
            Waveform::SineFmB3 => "Sine FM B 3"@,
            Waveform::SineFmB4 => "Sine FM B 4"@,
            Waveform::SineFmB5 => "Sine FM B 5"@,
            Waveform::SineFmC1 => "Sine FM C 1"@,
            Waveform::SineFmC2 => "Sine FM C 2"@,
            Waveform::SineFmC3 => "Sine FM C 3"@,
            Waveform::SineFmC4 => "Sine FM C 4"@,
            Waveform::SineFmC5 => "Sine FM C 5"@,
            Waveform::SineFmC6 => "Sine FM C 6"@,
            Waveform::SineFmC7 => "Sine FM C 7"@,
            Waveform::SineFmC8 => "Sine FM C 8"@,
            Waveform::SineFmD1 => "Sine FM D 1"@,
            Waveform::SineFmD2 => "Sine FM D 2"@,
            Waveform::SineFmD3 => "Sine FM D 3"@,
            Waveform::SineFmD4 => "Sine FM D 4"@,
            Waveform::SineFmD5 => "Sine FM D 5"@,
            Waveform::SineFmD6 => "Sine FM D 6"@,
            Waveform::SineFmD7 => "Sine FM D 7"@,
            Waveform::SineFmD8 => "Sine FM D 8"@,
            Waveform::SineFmD9 => "Sine FM D 9"@,
            Waveform::SineFmD10 => "Sine FM D 10"@,
            Waveform::SineFmD11 => "Sine FM D 11"@,
            Waveform::SineFmD12 => "Sine FM D 12"@,
            Waveform::SineFmD13 => "Sine FM D 13"@,
            Waveform::SineFmD14 => "Sine FM D 14"@,
            Waveform::SineFmD15 => "Sine FM D 15"@,
            Waveform::SineFmKick1 => "Sine FM Kick 1"@,
            Waveform::SineFmKick2 => "Sine FM Kick 2"@,
            Waveform::SineFmKick3 => "Sine FM Kick 3"@,
            Waveform::SineFmKick4 => "Sine FM Kick 4"@,
            Waveform::SineFmKick5 => "Sine FM Kick 5"@,
            Waveform::SineFmKick6 => "Sine FM Kick 6"@,
            Waveform::SineFmKick7 => "Sine FM Kick 7"@,
            Waveform::SineFmKick8 => "Sine FM Kick 8"@,
            Waveform::SineFmKick9 => "Sine FM Kick 9"@,
            Waveform::SineFmKick10 => "Sine FM Kick 10"@,
            Waveform::SineFmKick11 => "Sine FM Kick 11"@,
            Waveform::SineFmKick12 => "Sine FM Kick 12"@,
            Waveform::Triangle => "Triangle"@,
            Waveform::TriangleRoot2 => "Triangle Root 2"@,
            Waveform::TriangleRoot3 => "Triangle Root 3"@,
            Waveform::TriangleRoot4 => "Triangle Root 4"@,
            Waveform::TriangleRoot5 => "Triangle Root 5"@,
            Waveform::Saw => "Saw"@,
            Waveform::SawPower1 => "Saw Power 1"@,
            Waveform::SawPower2 => "Saw Power 2"@,
            Waveform::SawSine1 => "Saw Sine 1"@,
            Waveform::SawSine2 => "Saw Sine 2"@,
            Waveform::SawSine3 => "Saw Sine 3"@,
            Waveform::Saw2x => "Saw 2x"@,
            Waveform::Square => "Square"@,
            Waveform::SquareSmooth1 => "Square Smooth 1"@,
            Waveform::SquareSmooth2 => "Square Smooth 2"@,
            Waveform::SquareHalfRoot => "Square Half Root"@,
            Waveform::SquareHalfRootPower => "Square Half Root Power"@,
            Waveform::SquarePower => "Square Power"@,
            Waveform::SquareDoublePower1 => "Square Double Power 1"@,
            Waveform::SquareDoublePower2 => "Square Double Power 2"@,
            Waveform::SquareAttackPower => "Square Attack Power"@,
            Waveform::SquareTristate1 => "Square Tristate 1"@,
            Waveform::SquareTristate2 => "Square Tristate 2"@,
            Waveform::SquareTristate3 => "Square Tristate 3"@,
            Waveform::SquareTristate4 => "Square Tristate 4"@,
            Waveform::SquareTristate5 => "Square Tristate 5"@,
            Waveform::SquareTristate6 => "Square Tristate 6"@,
            Waveform::SquareFm1 => "Square FM 1"@,
            Waveform::SquareFm2 => "Square FM 2"@,
            Waveform::SquareFm3 => "Square FM 3"@,
            Waveform::SquareFm4 => "Square FM 4"@,
            Waveform::SquareFm5 => "Square FM 5"@,
            Waveform::SquareFm6 => "Square FM 6"@,
            Waveform::SquareFm7 => "Square FM 7"@,
            Waveform::SquareFm8 => "Square FM 8"@,
            Waveform::Pulse1 => "Pulse 1"@,
            Waveform::Pulse2 => "Pulse 2"@,
            Waveform::Pulse3 => "Pulse 3"@,
            Waveform::Pulse4 => "Pulse 4"@,
            Waveform::PulseSquare => "Pulse Square"@,
            Waveform::PulseSquareSmooth => "Pulse Square Smooth"@,
            Waveform::PulseSmooth1 => "Pulse Smooth 1"@,
            Waveform::PulseSmooth2 => "Pulse Smooth 2"@,
            Waveform::Voice1 => "Voice 1"@,
            Waveform::Voice2 => "Voice 2"@,
            Waveform::Voice3 => "Voice 3"@,
            Waveform::Voice4 => "Voice 4"@,
            Waveform::Voice5 => "Voice 5"@,
            Waveform::Voice6 => "Voice 6"@,
            Waveform::Voice7 => "Voice 7"@,
            Waveform::Voice8 => "Voice 8"@,
            Waveform::Voice9 => "Voice 9"@,
            Waveform::Voice10 => "Voice 10"@,
            Waveform::Voice11 => "Voice 11"@,
            Waveform::Voice12 => "Voice 12"@,
            Waveform::Voice13 => "Voice 13"@,
            Waveform::Voice14 => "Voice 14"@,
            Waveform::Voice15 => "Voice 15"@,
            Waveform::Voice16 => "Voice 16"@,
            Waveform::Voice17 => "Voice 17"@,
            Waveform::Voice18 => "Voice 18"@,
            Waveform::Voice19 => "Voice 19"@,
            Waveform::Voice20 => "Voice 20"@,
            Waveform::Voice21 => "Voice 21"@,
            Waveform::Voice22 => "Voice 22"@,
            Waveform::Voice23 => "Voice 23"@,
            Waveform::Voice24 => "Voice 24"@,
            Waveform::Voice25 => "Voice 25"@,
            Waveform::Voice26 => "Voice 26"@,
            Waveform::Voice27 => "Voice 27"@,
            Waveform::Voice28 => "Voice 28"@,
            Waveform::Voice29 => "Voice 29"@,
            Waveform::Voice30 => "Voice 30"@,
            Waveform::FormantA1 => "Formant A 1"@,
            Waveform::FormantA2 => "Formant A 2"@,
            Waveform::FormantA3 => "Formant A 3"@,
            Waveform::FormantA4 => "Formant A 4"@,
            Waveform::FormantA5 => "Formant A 5"@,
            Waveform::FormantA6 => "Formant A 6"@,
            Waveform::FormantA7 => "Formant A 7"@,
            Waveform::FormantA8 => "Formant A 8"@,
            Waveform::FormantB1 => "Formant B 1"@,
            Waveform::FormantB2 => "Formant B 2"@,
            Waveform::FormantB3 => "Formant B 3"@,
            Waveform::FormantB4 => "Formant B 4"@,
            Waveform::FormantB5 => "Formant B 5"@,
            Waveform::FormantB6 => "Formant B 6"@,
            Waveform::FormantB7 => "Formant B 7"@,
            Waveform::FormantB8 => "Formant B 8"@,
            Waveform::SyntheticVoice1 => "Synthetic Voice 1"@,
            Waveform::SyntheticVoice2 => "Synthetic Voice 2"@,
            Waveform::SyntheticVoice3 => "Synthetic Voice 3"@,
            Waveform::SyntheticVoice4 => "Synthetic Voice 4"@,
            Waveform::SyntheticVoice5 => "Synthetic Voice 5"@,
            Waveform::SyntheticVoice6 => "Synthetic Voice 6"@,
            Waveform::SyntheticVoice7 => "Synthetic Voice 7"@,
            Waveform::SyntheticVoice8 => "Synthetic Voice 8"@,
            Waveform::SyntheticVoice9 => "Synthetic Voice 9"@,
            Waveform::SyntheticVoice10 => "Synthetic Voice 10"@,
            Waveform::SyntheticVoice11 => "Synthetic Voice 11"@,
            Waveform::SyntheticVoice12 => "Synthetic Voice 12"@,
            Waveform::SyntheticVoice13 => "Synthetic Voice 13"@,
            Waveform::SyntheticVoice14 => "Synthetic Voice 14"@,
            Waveform::SyntheticVoice15 => "Synthetic Voice 15"@,
            Waveform::SyntheticVoice16 => "Synthetic Voice 16"@,
            Waveform::SyntheticVoice17 => "Synthetic Voice 17"@,
            Waveform::SyntheticVoice18 => "Synthetic Voice 18"@,
            Waveform::SyntheticVoice19 => "Synthetic Voice 19"@,
            Waveform::SyntheticVoice20 => "Synthetic Voice 20"@,
            Waveform::SyntheticVoice21 => "Synthetic Voice 21"@,
            Waveform::SyntheticVoice22 => "Synthetic Voice 22"@,
            Waveform::SyntheticVoice23 => "Synthetic Voice 23"@,
            Waveform::SyntheticVoice24 => "Synthetic Voice 24"@,
            Waveform::SyntheticVoice25 => "Synthetic Voice 25"@,
            Waveform::SyntheticVoice26 => "Synthetic Voice 26"@,
            Waveform::SyntheticVoice27 => "Synthetic Voice 27"@,
            Waveform::SyntheticVoice28 => "Synthetic Voice 28"@,
            Waveform::SyntheticVoice29 => "Synthetic Voice 39"@,
            Waveform::Organ1 => "Organ 1"@,
            Waveform::Organ2 => "Organ 2"@,
            Waveform::Organ3 => "Organ 3"@,
            Waveform::Organ4 => "Organ 4"@,
            Waveform::Organ5 => "Organ 5"@,
            Waveform::Organ6 => "Organ 6"@,
            Waveform::Organ7 => "Organ 7"@,
            Waveform::Organ8 => "Organ 8"@,
            Waveform::Organ9 => "Organ 9"@,
            Waveform::Organ10 => "Organ 10"@,
            Waveform::Organ11 => "Organ 11"@,
            Waveform::Organ12 => "Organ 12"@,
            Waveform::Organ13 => "Organ 13"@,
            Waveform::Organ14 => "Organ 14"@,
            Waveform::Organ15 => "Organ 15"@,
            Waveform::Organ16 => "Organ 16"@,
            Waveform::Organ17 => "Organ 17"@,
            Waveform::Organ18 => "Organ 18"@,
            Waveform::Organ19 => "Organ 19"@,
            Waveform::Organ20 => "Organ 20"@,
            Waveform::Organ21 => "Organ 21"@,
            Waveform::Organ22 => "Organ 22"@,
            Waveform::Organ23 => "Organ 23"@,
            Waveform::EPiano1 => "E Piano 1"@,
            Waveform::EPiano2 => "E Piano 2"@,
            Waveform::EPiano3 => "E Piano 3"@,
            Waveform::EPiano4 => "E Piano 4"@,
            Waveform::Key1 => "Key 1"@,
            Waveform::Key2 => "Key 2"@,
            Waveform::Key3 => "Key 3"@,
            Waveform::DistGuitar1 => "Dist Guitar 1"@,
            Waveform::DistGuitar2 => "Dist Guitar 2"@,
            Waveform::Rhode => "Rhode"@,
            Waveform::Brass1 => "Brass 1"@,
            Waveform::Brass2 => "Brass 2"@,
            Waveform::Chip1 => "Chip 1"@,
            Waveform::Chip2 => "Chip 2"@,
            Waveform::Chip3 => "Chip 3"@,
            Waveform::Chip4 => "Chip 4"@,
            Waveform::Chip5 => "Chip 5"@,
            Waveform::Chip6 => "Chip 6"@,
            Waveform::Chip7 => "Chip 7"@,
            Waveform::Gritty1 => "Gritty 1"@,
            Waveform::Gritty2 => "Gritty 2"@,
            Waveform::Gritty3 => "Gritty 3"@,
            Waveform::Gritty4 => "Gritty 4"@,
            Waveform::Gritty5 => "Gritty 5"@,
            Waveform::Gritty6 => "Gritty 6"@,
            Waveform::Dirty1A => "Dirty 1 A"@,
            Waveform::Dirty1B => "Dirty 1 B"@,
            Waveform::Dirty1C => "Dirty 1 C"@,
            Waveform::Dirty2A => "Dirty 2 A"@,
            Waveform::Dirty2B => "Dirty 2 B"@,
            Waveform::Dirty2C => "Dirty 2 C"@,
            Waveform::Dirty3A => "Dirty 3 A"@,
            Waveform::Dirty3B => "Dirty 3 B"@,
            Waveform::Dirty3C => "Dirty 3 C"@,
            Waveform::Dirty4A => "Dirty 4 A"@,
            Waveform::Dirty4B => "Dirty 4 B"@,
            Waveform::Dirty4C => "Dirty 4 C"@,
            Waveform::Dirty5A => "Dirty 5 A"@,
            Waveform::Dirty5B => "Dirty 5 B"@,
            Waveform::Dirty5C => "Dirty 5 C"@,
            Waveform::Dirty6A => "Dirty 6 A"@,
            Waveform::Dirty6B => "Dirty 6 B"@,
            Waveform::Dirty6C => "Dirty 6 C"@,
            Waveform::Dirty7A => "Dirty 7 A"@,
            Waveform::Dirty7B => "Dirty 7 B"@,
            Waveform::Dirty7C => "Dirty 7 C"@,
            Waveform::Dirty8A => "Dirty 8 A"@,
            Waveform::Dirty8B => "Dirty 8 B"@,
            Waveform::Dirty8C => "Dirty 8 C"@,
            Waveform::Gate1 => "Gate 1"@,
            Waveform::Gate2 => "Gate 2"@,
            Waveform::Gate3 => "Gate 3"@,
            Waveform::Gate4 => "Gate 4"@,
            Waveform::Duck1 => "Duck 1"@,
            Waveform::Duck2 => "Duck 2"@,
            Waveform::Duck3 => "Duck 3"@,
        }
    }

    /// The number that stands for the waveform in a preset file.
    pub fn code(self) -> (id: u32)
        ensures
            id == self.discriminant(),
    {
        match self {
            Waveform::Sine => 0,
            Waveform::SineRoot1_5 => 1,
            Waveform::SineRoot2 => 2,
            Waveform::SineRoot3 => 3,
            Waveform::SineRoot4 => 4,
            Waveform::SinePower1_5 => 5,
            Waveform::SinePower2 => 6,
            Waveform::SinePower3 => 7,
            Waveform::SinePower4 => 8,
            Waveform::SineAm1 => 9,
            Waveform::SineAm2 => 10,
            Waveform::SineAm3 => 11,
            Waveform::SineAm4 => 12,
            Waveform::SineAm5 => 13,
            Waveform::SineFmA1 => 14,
            Waveform::SineFmA2 => 15,
            Waveform::SineFmA3 => 16,
            Waveform::SineFmA4 => 17,
            Waveform::SineFmA5 => 18,
            Waveform::SineFmA6 => 19,
            Waveform::SineFmB1 => 20,
            Waveform::SineFmB2 => 21,
            Waveform::SineFmB3 => 22,
            Waveform::SineFmB4 => 23,
            Waveform::SineFmB5 => 24,
            Waveform::SineFmC1 => 25,
            Waveform::SineFmC2 => 26,
            Waveform::SineFmC3 => 27,
            Waveform::SineFmC4 => 28,
            Waveform::SineFmC5 => 29,
            Waveform::SineFmC6 => 30,
            Waveform::SineFmC7 => 31,
            Waveform::SineFmC8 => 32,
            Waveform::SineFmD1 => 33,
            Waveform::SineFmD2 => 34,
            Waveform::SineFmD3 => 35,
            Waveform::SineFmD4 => 36,
            Waveform::SineFmD5 => 37,
            Waveform::SineFmD6 => 38,
            Waveform::SineFmD7 => 39,
            Waveform::SineFmD8 => 40,
            Waveform::SineFmD9 => 41,
            Waveform::SineFmD10 => 42,
            Waveform::SineFmD11 => 43,
            Waveform::SineFmD12 => 44,
            Waveform::SineFmD13 => 45,
            Waveform::SineFmD14 => 46,
            Waveform::SineFmD15 => 47,
            Waveform::SineFmKick1 => 48,
            Waveform::SineFmKick2 => 49,
            Waveform::SineFmKick3 => 50,
            Waveform::SineFmKick4 => 51,
            Waveform::SineFmKick5 => 52,
            Waveform::SineFmKick6 => 53,
            Waveform::SineFmKick7 => 54,
            Waveform::SineFmKick8 => 55,
            Waveform::SineFmKick9 => 56,
            Waveform::SineFmKick10 => 57,
            Waveform::SineFmKick11 => 58,
            Waveform::SineFmKick12 => 59,
            Waveform::Triangle => 60,
            Waveform::TriangleRoot2 => 61,
            Waveform::TriangleRoot3 => 62,
            Waveform::TriangleRoot4 => 63,
            Waveform::TriangleRoot5 => 64,
            Waveform::Saw => 65,
            Waveform::SawPower1 => 66,
            Waveform::SawPower2 => 67,
            Waveform::SawSine1 => 68,
            Waveform::SawSine2 => 69,
            Waveform::SawSine3 => 70,
            Waveform::Saw2x => 71,
            Waveform::Square => 72,
            Waveform::SquareSmooth1 => 73,
            Waveform::SquareSmooth2 => 74,
            Waveform::SquareHalfRoot => 75,
            Waveform::SquareHalfRootPower => 76,
            Waveform::SquarePower => 77,
            Waveform::SquareDoublePower1 => 78,
            Waveform::SquareDoublePower2 => 79,
            Waveform::SquareAttackPower => 80,
            Waveform::SquareTristate1 => 81,
            Waveform::SquareTristate2 => 82,
            Waveform::SquareTristate3 => 83,
            Waveform::SquareTristate4 => 84,
            Waveform::SquareTristate5 => 85,
            Waveform::SquareTristate6 => 86,
            Waveform::SquareFm1 => 87,
            Waveform::SquareFm2 => 88,
            Waveform::SquareFm3 => 89,
            Waveform::SquareFm4 => 90,
            Waveform::SquareFm5 => 91,
            Waveform::SquareFm6 => 92,
            Waveform::SquareFm7 => 93,
            Waveform::SquareFm8 => 94,
            Waveform::Pulse1 => 95,
            Waveform::Pulse2 => 96,
            Waveform::Pulse3 => 97,
            Waveform::Pulse4 => 98,
            Waveform::PulseSquare => 99,
            Waveform::PulseSquareSmooth => 100,
            Waveform::PulseSmooth1 => 101,
            Waveform::PulseSmooth2 => 102,
            Waveform::Voice1 => 103,
            Waveform::Voice2 => 104,
            Waveform::Voice3 => 105,
            Waveform::Voice4 => 106,
            Waveform::Voice5 => 107,
            Waveform::Voice6 => 108,
            Waveform::Voice7 => 109,
            Waveform::Voice8 => 110,
            Waveform::Voice9 => 111,
            Waveform::Voice10 => 112,
            Waveform::Voice11 => 113,
            Waveform::Voice12 => 114,
            Waveform::Voice13 => 115,
            Waveform::Voice14 => 116,
            Waveform::Voice15 => 117,
            Waveform::Voice16 => 118,
            Waveform::Voice17 => 119,
            Waveform::Voice18 => 120,
            Waveform::Voice19 => 121,
            Waveform::Voice20 => 122,
            Waveform::Voice21 => 123,
            Waveform::Voice22 => 124,
            Waveform::Voice23 => 125,
            Waveform::Voice24 => 126,
            Waveform::Voice25 => 127,
            Waveform::Voice26 => 128,
            Waveform::Voice27 => 129,
            Waveform::Voice28 => 130,
            Waveform::Voice29 => 131,
            Waveform::Voice30 => 132,
            Waveform::FormantA1 => 133,
            Waveform::FormantA2 => 134,
            Waveform::FormantA3 => 135,
            Waveform::FormantA4 => 136,
            Waveform::FormantA5 => 137,
            Waveform::FormantA6 => 138,
            Waveform::FormantA7 => 139,
            Waveform::FormantA8 => 140,
            Waveform::FormantB1 => 141,
            Waveform::FormantB2 => 142,
            Waveform::FormantB3 => 143,
            Waveform::FormantB4 => 144,
            Waveform::FormantB5 => 145,
            Waveform::FormantB6 => 146,
            Waveform::FormantB7 => 147,
            Waveform::FormantB8 => 148,
            Waveform::SyntheticVoice1 => 149,
            Waveform::SyntheticVoice2 => 150,
            Waveform::SyntheticVoice3 => 151,
            Waveform::SyntheticVoice4 => 152,
            Waveform::SyntheticVoice5 => 153,
            Waveform::SyntheticVoice6 => 154,
            Waveform::SyntheticVoice7 => 155,
            Waveform::SyntheticVoice8 => 156,
            Waveform::SyntheticVoice9 => 157,
            Waveform::SyntheticVoice10 => 158,
            Waveform::SyntheticVoice11 => 159,
            Waveform::SyntheticVoice12 => 160,
            Waveform::SyntheticVoice13 => 161,
            Waveform::SyntheticVoice14 => 162,
            Waveform::SyntheticVoice15 => 163,
            Waveform::SyntheticVoice16 => 164,
            Waveform::SyntheticVoice17 => 165,
            Waveform::SyntheticVoice18 => 166,
            Waveform::SyntheticVoice19 => 167,
            Waveform::SyntheticVoice20 => 168,
            Waveform::SyntheticVoice21 => 169,
            Waveform::SyntheticVoice22 => 170,
            Waveform::SyntheticVoice23 => 171,
            Waveform::SyntheticVoice24 => 172,
            Waveform::SyntheticVoice25 => 173,
            Waveform::SyntheticVoice26 => 174,
            Waveform::SyntheticVoice27 => 175,
            Waveform::SyntheticVoice28 => 176,
            Waveform::SyntheticVoice29 => 177,
            Waveform::Organ1 => 178,
            Waveform::Organ2 => 179,
            Waveform::Organ3 => 180,
            Waveform::Organ4 => 181,
            Waveform::Organ5 => 182,
            Waveform::Organ6 => 183,
            Waveform::Organ7 => 184,
            Waveform::Organ8 => 185,
            Waveform::Organ9 => 186,
            Waveform::Organ10 => 187,
            Waveform::Organ11 => 188,
            Waveform::Organ12 => 189,
            Waveform::Organ13 => 190,
            Waveform::Organ14 => 191,
            Waveform::Organ15 => 192,
            Waveform::Organ16 => 193,
            Waveform::Organ17 => 194,
            Waveform::Organ18 => 195,
            Waveform::Organ19 => 196,
            Waveform::Organ20 => 197,
            Waveform::Organ21 => 198,
            Waveform::Organ22 => 199,
            Waveform::Organ23 => 200,
            Waveform::EPiano1 => 201,
            Waveform::EPiano2 => 202,
            Waveform::EPiano3 => 203,
            Waveform::EPiano4 => 204,
            Waveform::Key1 => 205,
            Waveform::Key2 => 206,
            Waveform::Key3 => 207,
            Waveform::DistGuitar1 => 208,
            Waveform::DistGuitar2 => 209,
            Waveform::Rhode => 210,
            Waveform::Brass1 => 211,
            Waveform::Brass2 => 212,
            Waveform::Chip1 => 213,
            Waveform::Chip2 => 214,
            Waveform::Chip3 => 215,
            Waveform::Chip4 => 216,
            Waveform::Chip5 => 217,
            Waveform::Chip6 => 218,
            Waveform::Chip7 => 219,
            Waveform::Gritty1 => 220,
            Waveform::Gritty2 => 221,
            Waveform::Gritty3 => 222,
            Waveform::Gritty4 => 223,
            Waveform::Gritty5 => 224,
            Waveform::Gritty6 => 225,
            Waveform::Dirty1A => 226,
            Waveform::Dirty1B => 227,
            Waveform::Dirty1C => 228,
            Waveform::Dirty2A => 229,
            Waveform::Dirty2B => 230,
            Waveform::Dirty2C => 231,
            Waveform::Dirty3A => 232,
            Waveform::Dirty3B => 233,
            Waveform::Dirty3C => 234,
            Waveform::Dirty4A => 235,
            Waveform::Dirty4B => 236,
            Waveform::Dirty4C => 237,
            Waveform::Dirty5A => 238,
            Waveform::Dirty5B => 239,
            Waveform::Dirty5C => 240,
            Waveform::Dirty6A => 241,
            Waveform::Dirty6B => 242,
            Waveform::Dirty6C => 243,
            Waveform::Dirty7A => 244,
            Waveform::Dirty7B => 245,
            Waveform::Dirty7C => 246,
            Waveform::Dirty8A => 247,
            Waveform::Dirty8B => 248,
            Waveform::Dirty8C => 249,
            Waveform::Gate1 => 250,
            Waveform::Gate2 => 251,
            Waveform::Gate3 => 252,
            Waveform::Gate4 => 253,
            Waveform::Duck1 => 254,
            Waveform::Duck2 => 255,
            Waveform::Duck3 => 256,
        }
    }

    /// The waveform with the number `waveform_id`, or `default` where no
    /// waveform has that number.
    #[verifier::rlimit(100)]
    pub fn from_or(waveform_id: u32, default: Waveform) -> (waveform: Waveform)
        ensures
            Waveform::known(waveform_id) ==> waveform.discriminant() == waveform_id,
            !Waveform::known(waveform_id) ==> waveform == default,
            waveform == Waveform::with_number_or(waveform_id, default),
    {
        if waveform_id >= 257 {
            proof {
                lemma_waveform_range(waveform_id);
            }
            return default;
        }
        let waveform = match waveform_id {
            0 => Waveform::Sine,
            1 => Waveform::SineRoot1_5,
            2 => Waveform::SineRoot2,
            3 => Waveform::SineRoot3,
            4 => Waveform::SineRoot4,
            5 => Waveform::SinePower1_5,
            6 => Waveform::SinePower2,
            7 => Waveform::SinePower3,
            8 => Waveform::SinePower4,
            9 => Waveform::SineAm1,
            10 => Waveform::SineAm2,
            11 => Waveform::SineAm3,
            12 => Waveform::SineAm4,
            13 => Waveform::SineAm5,
            14 => Waveform::SineFmA1,
            15 => Waveform::SineFmA2,
            16 => Waveform::SineFmA3,
            17 => Waveform::SineFmA4,
            18 => Waveform::SineFmA5,
            19 => Waveform::SineFmA6,
            20 => Waveform::SineFmB1,
            21 => Waveform::SineFmB2,
            22 => Waveform::SineFmB3,
            23 => Waveform::SineFmB4,
            24 => Waveform::SineFmB5,
            25 => Waveform::SineFmC1,
            26 => Waveform::SineFmC2,
            27 => Waveform::SineFmC3,
            28 => Waveform::SineFmC4,
            29 => Waveform::SineFmC5,
            30 => Waveform::SineFmC6,
            31 => Waveform::SineFmC7,
            32 => Waveform::SineFmC8,
            33 => Waveform::SineFmD1,
            34 => Waveform::SineFmD2,
            35 => Waveform::SineFmD3,
            36 => Waveform::SineFmD4,
            37 => Waveform::SineFmD5,
            38 => Waveform::SineFmD6,
            39 => Waveform::SineFmD7,
            40 => Waveform::SineFmD8,
            41 => Waveform::SineFmD9,
            42 => Waveform::SineFmD10,
            43 => Waveform::SineFmD11,
            44 => Waveform::SineFmD12,
            45 => Waveform::SineFmD13,
            46 => Waveform::SineFmD14,
            47 => Waveform::SineFmD15,
            48 => Waveform::SineFmKick1,
            49 => Waveform::SineFmKick2,
            50 => Waveform::SineFmKick3,
            51 => Waveform::SineFmKick4,
            52 => Waveform::SineFmKick5,
            53 => Waveform::SineFmKick6,
            54 => Waveform::SineFmKick7,
            55 => Waveform::SineFmKick8,
            56 => Waveform::SineFmKick9,
            57 => Waveform::SineFmKick10,
            58 => Waveform::SineFmKick11,
            59 => Waveform::SineFmKick12,
            60 => Waveform::Triangle,
            61 => Waveform::TriangleRoot2,
            62 => Waveform::TriangleRoot3,
            63 => Waveform::TriangleRoot4,
            64 => Waveform::TriangleRoot5,
            65 => Waveform::Saw,
            66 => Waveform::SawPower1,
            67 => Waveform::SawPower2,
            68 => Waveform::SawSine1,
            69 => Waveform::SawSine2,
            70 => Waveform::SawSine3,
            71 => Waveform::Saw2x,
            72 => Waveform::Square,
            73 => Waveform::SquareSmooth1,
            74 => Waveform::SquareSmooth2,
            75 => Waveform::SquareHalfRoot,
            76 => Waveform::SquareHalfRootPower,
            77 => Waveform::SquarePower,
            78 => Waveform::SquareDoublePower1,
            79 => Waveform::SquareDoublePower2,
            80 => Waveform::SquareAttackPower,
            81 => Waveform::SquareTristate1,
            82 => Waveform::SquareTristate2,
            83 => Waveform::SquareTristate3,
            84 => Waveform::SquareTristate4,
            85 => Waveform::SquareTristate5,
            86 => Waveform::SquareTristate6,
            87 => Waveform::SquareFm1,
            88 => Waveform::SquareFm2,
            89 => Waveform::SquareFm3,
            90 => Waveform::SquareFm4,
            91 => Waveform::SquareFm5,
            92 => Waveform::SquareFm6,
            93 => Waveform::SquareFm7,
            94 => Waveform::SquareFm8,
            95 => Waveform::Pulse1,
            96 => Waveform::Pulse2,
            97 => Waveform::Pulse3,
            98 => Waveform::Pulse4,
            99 => Waveform::PulseSquare,
            100 => Waveform::PulseSquareSmooth,
            101 => Waveform::PulseSmooth1,
            102 => Waveform::PulseSmooth2,
            103 => Waveform::Voice1,
            104 => Waveform::Voice2,
            105 => Waveform::Voice3,
            106 => Waveform::Voice4,
            107 => Waveform::Voice5,
            108 => Waveform::Voice6,
            109 => Waveform::Voice7,
            110 => Waveform::Voice8,
            111 => Waveform::Voice9,
            112 => Waveform::Voice10,
            113 => Waveform::Voice11,
            114 => Waveform::Voice12,
            115 => Waveform::Voice13,
            116 => Waveform::Voice14,
            117 => Waveform::Voice15,
            118 => Waveform::Voice16,
            119 => Waveform::Voice17,
            120 => Waveform::Voice18,
            121 => Waveform::Voice19,
            122 => Waveform::Voice20,
            123 => Waveform::Voice21,
            124 => Waveform::Voice22,
            125 => Waveform::Voice23,
            126 => Waveform::Voice24,
            127 => Waveform::Voice25,
            128 => Waveform::Voice26,
            129 => Waveform::Voice27,
            130 => Waveform::Voice28,
            131 => Waveform::Voice29,
            132 => Waveform::Voice30,
            133 => Waveform::FormantA1,
            134 => Waveform::FormantA2,
            135 => Waveform::FormantA3,
            136 => Waveform::FormantA4,
            137 => Waveform::FormantA5,
            138 => Waveform::FormantA6,
            139 => Waveform::FormantA7,
            140 => Waveform::FormantA8,
            141 => Waveform::FormantB1,
            142 => Waveform::FormantB2,
            143 => Waveform::FormantB3,
            144 => Waveform::FormantB4,
            145 => Waveform::FormantB5,
            146 => Waveform::FormantB6,
            147 => Waveform::FormantB7,
            148 => Waveform::FormantB8,
            149 => Waveform::SyntheticVoice1,
            150 => Waveform::SyntheticVoice2,
            151 => Waveform::SyntheticVoice3,
            152 => Waveform::SyntheticVoice4,
            153 => Waveform::SyntheticVoice5,
            154 => Waveform::SyntheticVoice6,
            155 => Waveform::SyntheticVoice7,
            156 => Waveform::SyntheticVoice8,
            157 => Waveform::SyntheticVoice9,
            158 => Waveform::SyntheticVoice10,
            159 => Waveform::SyntheticVoice11,
            160 => Waveform::SyntheticVoice12,
            161 => Waveform::SyntheticVoice13,
            162 => Waveform::SyntheticVoice14,
            163 => Waveform::SyntheticVoice15,
            164 => Waveform::SyntheticVoice16,
            165 => Waveform::SyntheticVoice17,
            166 => Waveform::SyntheticVoice18,
            167 => Waveform::SyntheticVoice19,
            168 => Waveform::SyntheticVoice20,
            169 => Waveform::SyntheticVoice21,
            170 => Waveform::SyntheticVoice22,
            171 => Waveform::SyntheticVoice23,
            172 => Waveform::SyntheticVoice24,
            173 => Waveform::SyntheticVoice25,
            174 => Waveform::SyntheticVoice26,
            175 => Waveform::SyntheticVoice27,
            176 => Waveform::SyntheticVoice28,
            177 => Waveform::SyntheticVoice29,
            178 => Waveform::Organ1,
            179 => Waveform::Organ2,
            180 => Waveform::Organ3,
            181 => Waveform::Organ4,
            182 => Waveform::Organ5,
            183 => Waveform::Organ6,
            184 => Waveform::Organ7,
            185 => Waveform::Organ8,
            186 => Waveform::Organ9,
            187 => Waveform::Organ10,
            188 => Waveform::Organ11,
            189 => Waveform::Organ12,
            190 => Waveform::Organ13,
            191 => Waveform::Organ14,
            192 => Waveform::Organ15,
            193 => Waveform::Organ16,
            194 => Waveform::Organ17,
            195 => Waveform::Organ18,
            196 => Waveform::Organ19,
            197 => Waveform::Organ20,
            198 => Waveform::Organ21,
            199 => Waveform::Organ22,
            200 => Waveform::Organ23,
            201 => Waveform::EPiano1,
            202 => Waveform::EPiano2,
            203 => Waveform::EPiano3,
            204 => Waveform::EPiano4,
            205 => Waveform::Key1,
            206 => Waveform::Key2,
            207 => Waveform::Key3,
            208 => Waveform::DistGuitar1,
            209 => Waveform::DistGuitar2,
            210 => Waveform::Rhode,
            211 => Waveform::Brass1,
            212 => Waveform::Brass2,
            213 => Waveform::Chip1,
            214 => Waveform::Chip2,
            215 => Waveform::Chip3,
            216 => Waveform::Chip4,
            217 => Waveform::Chip5,
            218 => Waveform::Chip6,
            219 => Waveform::Chip7,
            220 => Waveform::Gritty1,
            221 => Waveform::Gritty2,
            222 => Waveform::Gritty3,
            223 => Waveform::Gritty4,
            224 => Waveform::Gritty5,
            225 => Waveform::Gritty6,
            226 => Waveform::Dirty1A,
            227 => Waveform::Dirty1B,
            228 => Waveform::Dirty1C,
            229 => Waveform::Dirty2A,
            230 => Waveform::Dirty2B,
            231 => Waveform::Dirty2C,
            232 => Waveform::Dirty3A,
            233 => Waveform::Dirty3B,
            234 => Waveform::Dirty3C,
            235 => Waveform::Dirty4A,
            236 => Waveform::Dirty4B,
            237 => Waveform::Dirty4C,
            238 => Waveform::Dirty5A,
            239 => Waveform::Dirty5B,
            240 => Waveform::Dirty5C,
            241 => Waveform::Dirty6A,
            242 => Waveform::Dirty6B,
            243 => Waveform::Dirty6C,
            244 => Waveform::Dirty7A,
            245 => Waveform::Dirty7B,
            246 => Waveform::Dirty7C,
            247 => Waveform::Dirty8A,
            248 => Waveform::Dirty8B,
            249 => Waveform::Dirty8C,
            250 => Waveform::Gate1,
            251 => Waveform::Gate2,
            252 => Waveform::Gate3,
            253 => Waveform::Gate4,
            254 => Waveform::Duck1,
            255 => Waveform::Duck2,
            256 => Waveform::Duck3,
            _ => default,
        };
        assert(waveform.discriminant() == waveform_id);
        proof {
            lemma_waveform_discriminants_differ(Waveform::with_number(waveform_id), waveform);
        }
        waveform
    }

    /// The waveform's name as the synthesizer shows it.
    pub fn label(self) -> (name: &'static str)
        ensures
            name@ == self.label_text(),
    {
        match self {
            Waveform::Sine => "Sine",
            Waveform::SineRoot1_5 => "Sine Root 1.5",
            Waveform::SineRoot2 => "Sine Root 2",
            Waveform::SineRoot3 => "Sine Root 3",
            Waveform::SineRoot4 => "Sine Root 4",
            Waveform::SinePower1_5 => "Sine Power 1.5",
            Waveform::SinePower2 => "Sine Power 2",
            Waveform::SinePower3 => "Sine Power 3",
            Waveform::SinePower4 => "Sine Power 4",
            Waveform::SineAm1 => "Sine AM 1",
            Waveform::SineAm2 => "Sine AM 2",
            Waveform::SineAm3 => "Sine AM 3",
            Waveform::SineAm4 => "Sine AM 4",
            Waveform::SineAm5 => "Sine AM 5",
            Waveform::SineFmA1 => "Sine FM A 1",
            Waveform::SineFmA2 => "Sine FM A 2",
            Waveform::SineFmA3 => "Sine FM A 3",
            Waveform::SineFmA4 => "Sine FM A 4",
            Waveform::SineFmA5 => "Sine FM A 5",
            Waveform::SineFmA6 => "Sine FM A 6",
            Waveform::SineFmB1 => "Sine FM B 1",
            Waveform::SineFmB2 => "Sine FM B 2",
            Waveform::SineFmB3 => "Sine FM B 3",
            Waveform::SineFmB4 => "Sine FM B 4",
            Waveform::SineFmB5 => "Sine FM B 5",
            Waveform::SineFmC1 => "Sine FM C 1",
            Waveform::SineFmC2 => "Sine FM C 2",
            Waveform::SineFmC3 => "Sine FM C 3",
            Waveform::SineFmC4 => "Sine FM C 4",
            Waveform::SineFmC5 => "Sine FM C 5",
            Waveform::SineFmC6 => "Sine FM C 6",
            Waveform::SineFmC7 => "Sine FM C 7",
            Waveform::SineFmC8 => "Sine FM C 8",
            Waveform::SineFmD1 => "Sine FM D 1",
            Waveform::SineFmD2 => "Sine FM D 2",
            Waveform::SineFmD3 => "Sine FM D 3",
            Waveform::SineFmD4 => "Sine FM D 4",
            Waveform::SineFmD5 => "Sine FM D 5",
            Waveform::SineFmD6 => "Sine FM D 6",
            Waveform::SineFmD7 => "Sine FM D 7",
            Waveform::SineFmD8 => "Sine FM D 8",
            Waveform::SineFmD9 => "Sine FM D 9",
            Waveform::SineFmD10 => "Sine FM D 10",
            Waveform::SineFmD11 => "Sine FM D 11",
            Waveform::SineFmD12 => "Sine FM D 12",
            Waveform::SineFmD13 => "Sine FM D 13",
            Waveform::SineFmD14 => "Sine FM D 14",
            Waveform::SineFmD15 => "Sine FM D 15",
            Waveform::SineFmKick1 => "Sine FM Kick 1",
            Waveform::SineFmKick2 => "Sine FM Kick 2",
            Waveform::SineFmKick3 => "Sine FM Kick 3",
            Waveform::SineFmKick4 => "Sine FM Kick 4",
            Waveform::SineFmKick5 => "Sine FM Kick 5",
            Waveform::SineFmKick6 => "Sine FM Kick 6",
            Waveform::SineFmKick7 => "Sine FM Kick 7",
            Waveform::SineFmKick8 => "Sine FM Kick 8",
            Waveform::SineFmKick9 => "Sine FM Kick 9",
            Waveform::SineFmKick10 => "Sine FM Kick 10",
            Waveform::SineFmKick11 => "Sine FM Kick 11",
            Waveform::SineFmKick12 => "Sine FM Kick 12",
            Waveform::Triangle => "Triangle",
            Waveform::TriangleRoot2 => "Triangle Root 2",
            Waveform::TriangleRoot3 => "Triangle Root 3",
            Waveform::TriangleRoot4 => "Triangle Root 4",
            Waveform::TriangleRoot5 => "Triangle Root 5",
            Waveform::Saw => "Saw",
            Waveform::SawPower1 => "Saw Power 1",
            Waveform::SawPower2 => "Saw Power 2",
            Waveform::SawSine1 => "Saw Sine 1",
            Waveform::SawSine2 => "Saw Sine 2",
            Waveform::SawSine3 => "Saw Sine 3",
            Waveform::Saw2x => "Saw 2x",
            Waveform::Square => "Square",
            Waveform::SquareSmooth1 => "Square Smooth 1",
            Waveform::SquareSmooth2 => "Square Smooth 2",
            Waveform::SquareHalfRoot => "Square Half Root",
            Waveform::SquareHalfRootPower => "Square Half Root Power",
            Waveform::SquarePower => "Square Power",
            Waveform::SquareDoublePower1 => "Square Double Power 1",
            Waveform::SquareDoublePower2 => "Square Double Power 2",
            Waveform::SquareAttackPower => "Square Attack Power",
            Waveform::SquareTristate1 => "Square Tristate 1",
            Waveform::SquareTristate2 => "Square Tristate 2",
            Waveform::SquareTristate3 => "Square Tristate 3",
            Waveform::SquareTristate4 => "Square Tristate 4",
            Waveform::SquareTristate5 => "Square Tristate 5",
            Waveform::SquareTristate6 => "Square Tristate 6",
            Waveform::SquareFm1 => "Square FM 1",
            Waveform::SquareFm2 => "Square FM 2",
            Waveform::SquareFm3 => "Square FM 3",
            Waveform::SquareFm4 => "Square FM 4",
            Waveform::SquareFm5 => "Square FM 5",
            Waveform::SquareFm6 => "Square FM 6",
            Waveform::SquareFm7 => "Square FM 7",
            Waveform::SquareFm8 => "Square FM 8",
            Waveform::Pulse1 => "Pulse 1",
            Waveform::Pulse2 => "Pulse 2",
            Waveform::Pulse3 => "Pulse 3",
            Waveform::Pulse4 => "Pulse 4",
            Waveform::PulseSquare => "Pulse Square",
            Waveform::PulseSquareSmooth => "Pulse Square Smooth",
            Waveform::PulseSmooth1 => "Pulse Smooth 1",
            Waveform::PulseSmooth2 => "Pulse Smooth 2",
            Waveform::Voice1 => "Voice 1",
            Waveform::Voice2 => "Voice 2",
            Waveform::Voice3 => "Voice 3",
            Waveform::Voice4 => "Voice 4",
            Waveform::Voice5 => "Voice 5",
            Waveform::Voice6 => "Voice 6",
            Waveform::Voice7 => "Voice 7",
            Waveform::Voice8 => "Voice 8",
            Waveform::Voice9 => "Voice 9",
            Waveform::Voice10 => "Voice 10",
            Waveform::Voice11 => "Voice 11",
            Waveform::Voice12 => "Voice 12",
            Waveform::Voice13 => "Voice 13",
            Waveform::Voice14 => "Voice 14",
            Waveform::Voice15 => "Voice 15",
            Waveform::Voice16 => "Voice 16",
            Waveform::Voice17 => "Voice 17",
            Waveform::Voice18 => "Voice 18",
            Waveform::Voice19 => "Voice 19",
            Waveform::Voice20 => "Voice 20",
            Waveform::Voice21 => "Voice 21",
            Waveform::Voice22 => "Voice 22",
            Waveform::Voice23 => "Voice 23",
            Waveform::Voice24 => "Voice 24",
            Waveform::Voice25 => "Voice 25",
            Waveform::Voice26 => "Voice 26",
            Waveform::Voice27 => "Voice 27",
            Waveform::Voice28 => "Voice 28",
            Waveform::Voice29 => "Voice 29",
            Waveform::Voice30 => "Voice 30",
            Waveform::FormantA1 => "Formant A 1",
            Waveform::FormantA2 => "Formant A 2",
            Waveform::FormantA3 => "Formant A 3",
            Waveform::FormantA4 => "Formant A 4",
            Waveform::FormantA5 => "Formant A 5",
            Waveform::FormantA6 => "Formant A 6",
            Waveform::FormantA7 => "Formant A 7",
            Waveform::FormantA8 => "Formant A 8",
            Waveform::FormantB1 => "Formant B 1",
            Waveform::FormantB2 => "Formant B 2",
            Waveform::FormantB3 => "Formant B 3",
            Waveform::FormantB4 => "Formant B 4",
            Waveform::FormantB5 => "Formant B 5",
            Waveform::FormantB6 => "Formant B 6",
            Waveform::FormantB7 => "Formant B 7",
            Waveform::FormantB8 => "Formant B 8",
            Waveform::SyntheticVoice1 => "Synthetic Voice 1",
            Waveform::SyntheticVoice2 => "Synthetic Voice 2",
            Waveform::SyntheticVoice3 => "Synthetic Voice 3",
            Waveform::SyntheticVoice4 => "Synthetic Voice 4",
            Waveform::SyntheticVoice5 => "Synthetic Voice 5",
            Waveform::SyntheticVoice6 => "Synthetic Voice 6",
            Waveform::SyntheticVoice7 => "Synthetic Voice 7",
            Waveform::SyntheticVoice8 => "Synthetic Voice 8",
            Waveform::SyntheticVoice9 => "Synthetic Voice 9",
            Waveform::SyntheticVoice10 => "Synthetic Voice 10",
            Waveform::SyntheticVoice11 => "Synthetic Voice 11",
            Waveform::SyntheticVoice12 => "Synthetic Voice 12",
            Waveform::SyntheticVoice13 => "Synthetic Voice 13",
            Waveform::SyntheticVoice14 => "Synthetic Voice 14",
            Waveform::SyntheticVoice15 => "Synthetic Voice 15",
            Waveform::SyntheticVoice16 => "Synthetic Voice 16",
            Waveform::SyntheticVoice17 => "Synthetic Voice 17",
            Waveform::SyntheticVoice18 => "Synthetic Voice 18",
            Waveform::SyntheticVoice19 => "Synthetic Voice 19",
            Waveform::SyntheticVoice20 => "Synthetic Voice 20",
            Waveform::SyntheticVoice21 => "Synthetic Voice 21",
            Waveform::SyntheticVoice22 => "Synthetic Voice 22",
            Waveform::SyntheticVoice23 => "Synthetic Voice 23",
            Waveform::SyntheticVoice24 => "Synthetic Voice 24",
            Waveform::SyntheticVoice25 => "Synthetic Voice 25",
            Waveform::SyntheticVoice26 => "Synthetic Voice 26",
            Waveform::SyntheticVoice27 => "Synthetic Voice 27",
            Waveform::SyntheticVoice28 => "Synthetic Voice 28",
            Waveform::SyntheticVoice29 => "Synthetic Voice 39",
            Waveform::Organ1 => "Organ 1",
            Waveform::Organ2 => "Organ 2",
            Waveform::Organ3 => "Organ 3",
            Waveform::Organ4 => "Organ 4",
            Waveform::Organ5 => "Organ 5",
            Waveform::Organ6 => "Organ 6",
            Waveform::Organ7 => "Organ 7",
            Waveform::Organ8 => "Organ 8",
            Waveform::Organ9 => "Organ 9",
            Waveform::Organ10 => "Organ 10",
            Waveform::Organ11 => "Organ 11",
            Waveform::Organ12 => "Organ 12",
            Waveform::Organ13 => "Organ 13",
            Waveform::Organ14 => "Organ 14",
            Waveform::Organ15 => "Organ 15",
            Waveform::Organ16 => "Organ 16",
            Waveform::Organ17 => "Organ 17",
            Waveform::Organ18 => "Organ 18",
            Waveform::Organ19 => "Organ 19",
            Waveform::Organ20 => "Organ 20",
            Waveform::Organ21 => "Organ 21",
            Waveform::Organ22 => "Organ 22",
            Waveform::Organ23 => "Organ 23",
            Waveform::EPiano1 => "E Piano 1",
            Waveform::EPiano2 => "E Piano 2",
            Waveform::EPiano3 => "E Piano 3",
            Waveform::EPiano4 => "E Piano 4",
            Waveform::Key1 => "Key 1",
            Waveform::Key2 => "Key 2",
            Waveform::Key3 => "Key 3",
            Waveform::DistGuitar1 => "Dist Guitar 1",
            Waveform::DistGuitar2 => "Dist Guitar 2",
            Waveform::Rhode => "Rhode",
            Waveform::Brass1 => "Brass 1",
            Waveform::Brass2 => "Brass 2",
            Waveform::Chip1 => "Chip 1",
            Waveform::Chip2 => "Chip 2",
            Waveform::Chip3 => "Chip 3",
            Waveform::Chip4 => "Chip 4",
            Waveform::Chip5 => "Chip 5",
            Waveform::Chip6 => "Chip 6",
            Waveform::Chip7 => "Chip 7",
            Waveform::Gritty1 => "Gritty 1",
            Waveform::Gritty2 => "Gritty 2",
            Waveform::Gritty3 => "Gritty 3",
            Waveform::Gritty4 => "Gritty 4",
            Waveform::Gritty5 => "Gritty 5",
            Waveform::Gritty6 => "Gritty 6",
            Waveform::Dirty1A => "Dirty 1 A",
            Waveform::Dirty1B => "Dirty 1 B",
            Waveform::Dirty1C => "Dirty 1 C",
            Waveform::Dirty2A => "Dirty 2 A",
            Waveform::Dirty2B => "Dirty 2 B",
            Waveform::Dirty2C => "Dirty 2 C",
            Waveform::Dirty3A => "Dirty 3 A",
            Waveform::Dirty3B => "Dirty 3 B",
            Waveform::Dirty3C => "Dirty 3 C",
            Waveform::Dirty4A => "Dirty 4 A",
            Waveform::Dirty4B => "Dirty 4 B",
            Waveform::Dirty4C => "Dirty 4 C",
            Waveform::Dirty5A => "Dirty 5 A",
            Waveform::Dirty5B => "Dirty 5 B",
            Waveform::Dirty5C => "Dirty 5 C",
            Waveform::Dirty6A => "Dirty 6 A",
            Waveform::Dirty6B => "Dirty 6 B",
            Waveform::Dirty6C => "Dirty 6 C",
            Waveform::Dirty7A => "Dirty 7 A",
            Waveform::Dirty7B => "Dirty 7 B",
            Waveform::Dirty7C => "Dirty 7 C",
            Waveform::Dirty8A => "Dirty 8 A",
            Waveform::Dirty8B => "Dirty 8 B",
            Waveform::Dirty8C => "Dirty 8 C",
            Waveform::Gate1 => "Gate 1",
            Waveform::Gate2 => "Gate 2",
            Waveform::Gate3 => "Gate 3",
            Waveform::Gate4 => "Gate 4",
            Waveform::Duck1 => "Duck 1",
            Waveform::Duck2 => "Duck 2",
            Waveform::Duck3 => "Duck 3",
        }
    }
}

/// No two waveforms share a number.
pub proof fn lemma_waveform_discriminants_differ(a: Waveform, b: Waveform)
    requires
        a.discriminant() == b.discriminant(),
    ensures
        a == b,
{
}

/// The number of a waveform stands for that waveform and no other.
pub proof fn lemma_waveform_round_trip(waveform: Waveform)
    ensures
        Waveform::known(waveform.discriminant()),
        Waveform::with_number(waveform.discriminant()) == waveform,
        forall|default: Waveform|
            Waveform::with_number_or(waveform.discriminant(), default) == waveform,
{
    let found = Waveform::with_number(waveform.discriminant());
    lemma_waveform_discriminants_differ(found, waveform);
}

/// Every waveform's number is below the number of waveforms, so a number
/// from there on is unknown.
pub proof fn lemma_waveform_range(id: u32)
    requires
        id >= 257,
    ensures
        !Waveform::known(id),
{
    assert forall|waveform: Waveform| waveform.discriminant() != id by {
        assert(waveform.discriminant() < 257);
    }
}

} // verus!
