//! The instruments of General MIDI.

use vstd::prelude::*;
use vstd::std_specs::convert::FromSpecImpl;

verus! {

/// The 128 instruments of General MIDI, numbered from `1` as the General
/// MIDI sound set lists them.
#[derive(Clone, Copy, Debug, PartialEq, Eq, PartialOrd, Ord, Hash, Structural)]
pub enum GeneralMidi {
    AcousticGrandPiano,
    BrightAcousticPiano,
    ElectricGrandPiano,
    HonkyTonkPiano,
    ElectricPiano1,
    ElectricPiano2,
    Harpsichord,
    Clavi,
    Celesta,
    Glockenspiel,
    MusicBox,
    Vibraphone,
    Marimba,
    Xylophone,
    TubularBells,
    Dulcimer,
    DrawbarOrgan,
    PercussiveOrgan,
    RockOrgan,
    ChurchOrgan,
    ReedOrgan,
    Accordion,
    Harmonica,
    TangoAccordion,
    AcousticGuitarNylon,
    AcousticGuitarSteel,
    ElectricGuitarJazz,
    ElectricGuitarClean,
    ElectricGuitarMuted,
    OverdrivenGuitar,
    DistortionGuitar,
    GuitarHarmonics,
    AcousticBass,
    ElectricBassFinger,
    ElectricBassPick,
    FretlessBass,
    SlapBass1,
    SlapBass2,
    SynthBass1,
    SynthBass2,
    Violin,
    Viola,
    Cello,
    Contrabass,
    TremoloStrings,
    PizzicatoStrings,
    OrchestralHarp,
    Timpani,
    StringEnsemble1,
    StringEnsemble2,
    SynthStrings1,
    SynthStrings2,
    ChoirAahs,
    VoiceOohs,
    SynthVoice,
    OrchestraHit,
    Trumpet,
    Trombone,
    Tuba,
    MutedTrumpet,
    FrenchHorn,
    BrassSection,
    SynthBrass1,
    SynthBrass2,
    SopranoSax,
    AltoSax,
    TenorSax,
    BaritoneSax,
    Oboe,
    EnglishHorn,
    Bassoon,
    Clarinet,
    Piccolo,
    Flute,
    Recorder,
    PanFlute,
    BlownBottle,
    Shakuhachi,
    Whistle,
    Ocarina,
    Lead1Square,
    Lead2Sawtooth,
    Lead3Calliope,
    Lead4Chiff,
    Lead5Charang,
    Lead6Voice,
    Lead7Fifths,
    Lead8BassLead,
    Pad1NewAge,
    Pad2Warm,
    Pad3Polysynth,
    Pad4Choir,
    Pad5Bowed,
    Pad6Metallic,
    Pad7Halo,
    Pad8Sweep,
    Fx1Rain,
    Fx2Soundtrack,
    Fx3Crystal,
    Fx4Atmosphere,
    Fx5Brightness,
    Fx6Goblins,
    Fx7Echoes,
    Fx8SciFi,
    Sitar,
    Banjo,
    Shamisen,
    Koto,
    Kalimba,
    BagPipe,
    Fiddle,
    Shanai,
    TinkleBell,
    Agogo,
    SteelDrums,
    Woodblock,
    TaikoDrum,
    MelodicTom,
    SynthDrum,
    ReverseCymbal,
    GuitarFretNoise,
    BreathNoise,
    Seashore,
    BirdTweet,
    TelephoneRing,
    Helicopter,
    Applause,
    Gunshot,
}

impl GeneralMidi {
    /// The number of the instrument, from `1` to `128`.
    pub open spec fn code(self) -> u8 {
        match self {
            GeneralMidi::AcousticGrandPiano => 1,
            GeneralMidi::BrightAcousticPiano => 2,
            GeneralMidi::ElectricGrandPiano => 3,
            GeneralMidi::HonkyTonkPiano => 4,
            GeneralMidi::ElectricPiano1 => 5,
            GeneralMidi::ElectricPiano2 => 6,
            GeneralMidi::Harpsichord => 7,
            GeneralMidi::Clavi => 8,
            GeneralMidi::Celesta => 9,
            GeneralMidi::Glockenspiel => 10,
            GeneralMidi::MusicBox => 11,
            GeneralMidi::Vibraphone => 12,
            GeneralMidi::Marimba => 13,
            GeneralMidi::Xylophone => 14,
            GeneralMidi::TubularBells => 15,
            GeneralMidi::Dulcimer => 16,
            GeneralMidi::DrawbarOrgan => 17,
            GeneralMidi::PercussiveOrgan => 18,
            GeneralMidi::RockOrgan => 19,
            GeneralMidi::ChurchOrgan => 20,
            GeneralMidi::ReedOrgan => 21,
            GeneralMidi::Accordion => 22,
            GeneralMidi::Harmonica => 23,
            GeneralMidi::TangoAccordion => 24,
            GeneralMidi::AcousticGuitarNylon => 25,
            GeneralMidi::AcousticGuitarSteel => 26,
            GeneralMidi::ElectricGuitarJazz => 27,
            GeneralMidi::ElectricGuitarClean => 28,
            GeneralMidi::ElectricGuitarMuted => 29,
            GeneralMidi::OverdrivenGuitar => 30,
            GeneralMidi::DistortionGuitar => 31,
            GeneralMidi::GuitarHarmonics => 32,
            GeneralMidi::AcousticBass => 33,
            GeneralMidi::ElectricBassFinger => 34,
            GeneralMidi::ElectricBassPick => 35,
            GeneralMidi::FretlessBass => 36,
            GeneralMidi::SlapBass1 => 37,
            GeneralMidi::SlapBass2 => 38,
            GeneralMidi::SynthBass1 => 39,
            GeneralMidi::SynthBass2 => 40,
            GeneralMidi::Violin => 41,
            GeneralMidi::Viola => 42,
            GeneralMidi::Cello => 43,
            GeneralMidi::Contrabass => 44,
            GeneralMidi::TremoloStrings => 45,
            GeneralMidi::PizzicatoStrings => 46,
            GeneralMidi::OrchestralHarp => 47,
            GeneralMidi::Timpani => 48,
            GeneralMidi::StringEnsemble1 => 49,
            GeneralMidi::StringEnsemble2 => 50,
            GeneralMidi::SynthStrings1 => 51,
            GeneralMidi::SynthStrings2 => 52,
            GeneralMidi::ChoirAahs => 53,
            GeneralMidi::VoiceOohs => 54,
            GeneralMidi::SynthVoice => 55,
            GeneralMidi::OrchestraHit => 56,
            GeneralMidi::Trumpet => 57,
            GeneralMidi::Trombone => 58,
            GeneralMidi::Tuba => 59,
            GeneralMidi::MutedTrumpet => 60,
            GeneralMidi::FrenchHorn => 61,
            GeneralMidi::BrassSection => 62,
            GeneralMidi::SynthBrass1 => 63,
            GeneralMidi::SynthBrass2 => 64,
            GeneralMidi::SopranoSax => 65,
            GeneralMidi::AltoSax => 66,
            GeneralMidi::TenorSax => 67,
            GeneralMidi::BaritoneSax => 68,
            GeneralMidi::Oboe => 69,
            GeneralMidi::EnglishHorn => 70,
            GeneralMidi::Bassoon => 71,
            GeneralMidi::Clarinet => 72,
            GeneralMidi::Piccolo => 73,
            GeneralMidi::Flute => 74,
            GeneralMidi::Recorder => 75,
            GeneralMidi::PanFlute => 76,
            GeneralMidi::BlownBottle => 77,
            GeneralMidi::Shakuhachi => 78,
            GeneralMidi::Whistle => 79,
            GeneralMidi::Ocarina => 80,
            GeneralMidi::Lead1Square => 81,
            GeneralMidi::Lead2Sawtooth => 82,
            GeneralMidi::Lead3Calliope => 83,
            GeneralMidi::Lead4Chiff => 84,
            GeneralMidi::Lead5Charang => 85,
            GeneralMidi::Lead6Voice => 86,
            GeneralMidi::Lead7Fifths => 87,
            GeneralMidi::Lead8BassLead => 88,
            GeneralMidi::Pad1NewAge => 89,
            GeneralMidi::Pad2Warm => 90,
            GeneralMidi::Pad3Polysynth => 91,
            GeneralMidi::Pad4Choir => 92,
            GeneralMidi::Pad5Bowed => 93,
            GeneralMidi::Pad6Metallic => 94,
            GeneralMidi::Pad7Halo => 95,
            GeneralMidi::Pad8Sweep => 96,
            GeneralMidi::Fx1Rain => 97,
            GeneralMidi::Fx2Soundtrack => 98,
            GeneralMidi::Fx3Crystal => 99,
            GeneralMidi::Fx4Atmosphere => 100,
            GeneralMidi::Fx5Brightness => 101,
            GeneralMidi::Fx6Goblins => 102,
            GeneralMidi::Fx7Echoes => 103,
            GeneralMidi::Fx8SciFi => 104,
            GeneralMidi::Sitar => 105,
            GeneralMidi::Banjo => 106,
            GeneralMidi::Shamisen => 107,
            GeneralMidi::Koto => 108,
            GeneralMidi::Kalimba => 109,
            GeneralMidi::BagPipe => 110,
            GeneralMidi::Fiddle => 111,
            GeneralMidi::Shanai => 112,
            GeneralMidi::TinkleBell => 113,
            GeneralMidi::Agogo => 114,
            GeneralMidi::SteelDrums => 115,
            GeneralMidi::Woodblock => 116,
            GeneralMidi::TaikoDrum => 117,
            GeneralMidi::MelodicTom => 118,
            GeneralMidi::SynthDrum => 119,
            GeneralMidi::ReverseCymbal => 120,
            GeneralMidi::GuitarFretNoise => 121,
            GeneralMidi::BreathNoise => 122,
            GeneralMidi::Seashore => 123,
            GeneralMidi::BirdTweet => 124,
            GeneralMidi::TelephoneRing => 125,
            GeneralMidi::Helicopter => 126,
            GeneralMidi::Applause => 127,
            GeneralMidi::Gunshot => 128,
        }
    }

    /// The number of the instrument, from `1` to `128`.
    pub fn to_u8(self) -> (r: u8)
        ensures
            r == self.code(),
            1 <= r <= 128,
    {
        match self {
            GeneralMidi::AcousticGrandPiano => 1,
            GeneralMidi::BrightAcousticPiano => 2,
            GeneralMidi::ElectricGrandPiano => 3,
            GeneralMidi::HonkyTonkPiano => 4,
            GeneralMidi::ElectricPiano1 => 5,
            GeneralMidi::ElectricPiano2 => 6,
            GeneralMidi::Harpsichord => 7,
            GeneralMidi::Clavi => 8,
            GeneralMidi::Celesta => 9,
            GeneralMidi::Glockenspiel => 10,
            GeneralMidi::MusicBox => 11,
            GeneralMidi::Vibraphone => 12,
            GeneralMidi::Marimba => 13,
            GeneralMidi::Xylophone => 14,
            GeneralMidi::TubularBells => 15,
            GeneralMidi::Dulcimer => 16,
            GeneralMidi::DrawbarOrgan => 17,
            GeneralMidi::PercussiveOrgan => 18,
            GeneralMidi::RockOrgan => 19,
            GeneralMidi::ChurchOrgan => 20,
            GeneralMidi::ReedOrgan => 21,
            GeneralMidi::Accordion => 22,
            GeneralMidi::Harmonica => 23,
            GeneralMidi::TangoAccordion => 24,
            GeneralMidi::AcousticGuitarNylon => 25,
            GeneralMidi::AcousticGuitarSteel => 26,
            GeneralMidi::ElectricGuitarJazz => 27,
            GeneralMidi::ElectricGuitarClean => 28,
            GeneralMidi::ElectricGuitarMuted => 29,
            GeneralMidi::OverdrivenGuitar => 30,
            GeneralMidi::DistortionGuitar => 31,
            GeneralMidi::GuitarHarmonics => 32,
            GeneralMidi::AcousticBass => 33,
            GeneralMidi::ElectricBassFinger => 34,
            GeneralMidi::ElectricBassPick => 35,
            GeneralMidi::FretlessBass => 36,
            GeneralMidi::SlapBass1 => 37,
            GeneralMidi::SlapBass2 => 38,
            GeneralMidi::SynthBass1 => 39,
            GeneralMidi::SynthBass2 => 40,
            GeneralMidi::Violin => 41,
            GeneralMidi::Viola => 42,
            GeneralMidi::Cello => 43,
            GeneralMidi::Contrabass => 44,
            GeneralMidi::TremoloStrings => 45,
            GeneralMidi::PizzicatoStrings => 46,
            GeneralMidi::OrchestralHarp => 47,
            GeneralMidi::Timpani => 48,
            GeneralMidi::StringEnsemble1 => 49,
            GeneralMidi::StringEnsemble2 => 50,
            GeneralMidi::SynthStrings1 => 51,
            GeneralMidi::SynthStrings2 => 52,
            GeneralMidi::ChoirAahs => 53,
            GeneralMidi::VoiceOohs => 54,
            GeneralMidi::SynthVoice => 55,
            GeneralMidi::OrchestraHit => 56,
            GeneralMidi::Trumpet => 57,
            GeneralMidi::Trombone => 58,
            GeneralMidi::Tuba => 59,
            GeneralMidi::MutedTrumpet => 60,
            GeneralMidi::FrenchHorn => 61,
            GeneralMidi::BrassSection => 62,
            GeneralMidi::SynthBrass1 => 63,
            GeneralMidi::SynthBrass2 => 64,
            GeneralMidi::SopranoSax => 65,
            GeneralMidi::AltoSax => 66,
            GeneralMidi::TenorSax => 67,
            GeneralMidi::BaritoneSax => 68,
            GeneralMidi::Oboe => 69,
            GeneralMidi::EnglishHorn => 70,
            GeneralMidi::Bassoon => 71,
            GeneralMidi::Clarinet => 72,
            GeneralMidi::Piccolo => 73,
            GeneralMidi::Flute => 74,
            GeneralMidi::Recorder => 75,
            GeneralMidi::PanFlute => 76,
            GeneralMidi::BlownBottle => 77,
            GeneralMidi::Shakuhachi => 78,
            GeneralMidi::Whistle => 79,
            GeneralMidi::Ocarina => 80,
            GeneralMidi::Lead1Square => 81,
            GeneralMidi::Lead2Sawtooth => 82,
            GeneralMidi::Lead3Calliope => 83,
            GeneralMidi::Lead4Chiff => 84,
            GeneralMidi::Lead5Charang => 85,
            GeneralMidi::Lead6Voice => 86,
            GeneralMidi::Lead7Fifths => 87,
            GeneralMidi::Lead8BassLead => 88,
            GeneralMidi::Pad1NewAge => 89,
            GeneralMidi::Pad2Warm => 90,
            GeneralMidi::Pad3Polysynth => 91,
            GeneralMidi::Pad4Choir => 92,
            GeneralMidi::Pad5Bowed => 93,
            GeneralMidi::Pad6Metallic => 94,
            GeneralMidi::Pad7Halo => 95,
            GeneralMidi::Pad8Sweep => 96,
            GeneralMidi::Fx1Rain => 97,
            GeneralMidi::Fx2Soundtrack => 98,
            GeneralMidi::Fx3Crystal => 99,
            GeneralMidi::Fx4Atmosphere => 100,
            GeneralMidi::Fx5Brightness => 101,
            GeneralMidi::Fx6Goblins => 102,
            GeneralMidi::Fx7Echoes => 103,
            GeneralMidi::Fx8SciFi => 104,
            GeneralMidi::Sitar => 105,
            GeneralMidi::Banjo => 106,
            GeneralMidi::Shamisen => 107,
            GeneralMidi::Koto => 108,
            GeneralMidi::Kalimba => 109,
            GeneralMidi::BagPipe => 110,
            GeneralMidi::Fiddle => 111,
            GeneralMidi::Shanai => 112,
            GeneralMidi::TinkleBell => 113,
            GeneralMidi::Agogo => 114,
            GeneralMidi::SteelDrums => 115,
            GeneralMidi::Woodblock => 116,
            GeneralMidi::TaikoDrum => 117,
            GeneralMidi::MelodicTom => 118,
            GeneralMidi::SynthDrum => 119,
            GeneralMidi::ReverseCymbal => 120,
            GeneralMidi::GuitarFretNoise => 121,
            GeneralMidi::BreathNoise => 122,
            GeneralMidi::Seashore => 123,
            GeneralMidi::BirdTweet => 124,
            GeneralMidi::TelephoneRing => 125,
            GeneralMidi::Helicopter => 126,
            GeneralMidi::Applause => 127,
            GeneralMidi::Gunshot => 128,
        }
    }
}

impl Default for GeneralMidi {
    fn default() -> (r: Self)
        ensures
            r == GeneralMidi::AcousticGrandPiano,
    {
        GeneralMidi::AcousticGrandPiano
    }
}

impl From<GeneralMidi> for u8 {
    fn from(value: GeneralMidi) -> (r: u8) {
        value.to_u8()
    }
}

impl FromSpecImpl<GeneralMidi> for u8 {
    open spec fn obeys_from_spec() -> bool {
        true
    }

    open spec fn from_spec(value: GeneralMidi) -> u8 {
        value.code()
    }
}

} // verus!
