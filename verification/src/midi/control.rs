//! The controller numbers of control change messages.

use crate::error::{agrees, Defect, Error, ErrorKind};
use vstd::prelude::*;
use vstd::std_specs::convert::TryFromSpecImpl;

verus! {

/// The controllers of a control change message, by their numbers `0` to
/// `119`. The numbers `32` to `63` carry the low byte (`Lsb`) of the
/// controllers `0` to `31`.
#[derive(Clone, Copy, Debug, PartialEq, Eq, PartialOrd, Ord, Hash, Structural)]
pub enum Control {
    BankSelect,
    ModWheel,
    BreathController,
    Undefined3,
    FootController,
    PortamentoTime,
    DataEntryMsb,
    ChannelVolume,
    Balance,
    Undefined9,
    Pan,
    ExpressionController,
    EffectControl1,
    EffectControl2,
    Undefined14,
    Undefined15,
    GeneralPurpose1,
    GeneralPurpose2,
    GeneralPurpose3,
    GeneralPurpose4,
    Undefined20,
    Undefined21,
    Undefined22,
    Undefined23,
    Undefined24,
    Undefined25,
    Undefined26,
    Undefined27,
    Undefined28,
    Undefined29,
    Undefined30,
    Undefined31,
    BankSelectLsb,
    ModWheelLsb,
    BreathControllerLsb,
    Undefined3Lsb,
    FootControllerLsb,
    PortamentoTimeLsb,
    DataEntryMsbLsb,
    ChannelVolumeLsb,
    BalanceLsb,
    Undefined9Lsb,
    PanLsb,
    ExpressionControllerLsb,
    EffectControl1Lsb,
    EffectControl2Lsb,
    Undefined14Lsb,
    Undefined15Lsb,
    GeneralPurpose1Lsb,
    GeneralPurpose2Lsb,
    GeneralPurpose3Lsb,
    GeneralPurpose4Lsb,
    Undefined20Lsb,
    Undefined21Lsb,
    Undefined22Lsb,
    Undefined23Lsb,
    Undefined24Lsb,
    Undefined25Lsb,
    Undefined26Lsb,
    Undefined27Lsb,
    Undefined28Lsb,
    Undefined29Lsb,
    Undefined30Lsb,
    Undefined31Lsb,
    DamperPedalSustain,
    PortamentoOnOff,
    Sostenuto,
    SoftPedal,
    LegatoFootswitch,
    Hold2,
    SoundVariation,
    HarmonicIntensity,
    ReleaseTime,
    AttackTime,
    Brightness,
    SoundControllers6,
    SoundControllers7,
    SoundControllers8,
    SoundControllers9,
    SoundControllers10,
    GeneralPurpose5,
    GeneralPurpose6,
    GeneralPurpose7,
    GeneralPurpose8,
    PortamentoControl,
    Undefined85,
    Undefined86,
    Undefined87,
    Undefined88,
    Undefined89,
    Undefined90,
    Effects1Depth,
    Effects2Depth,
    Effects3Depth,
    Effects4Depth,
    Effects5Depth,
    DataIncrement,
    DataDecrement,
    NonRegisteredParameterNumberLsb,
    NonRegisteredParameterNumberMsb,
    RegisteredParameterNumberLsb,
    RegisteredParameterNumberMsb,
    Undefined102,
    Undefined103,
    Undefined104,
    Undefined105,
    Undefined106,
    Undefined107,
    Undefined108,
    Undefined109,
    Undefined110,
    Undefined111,
    Undefined112,
    Undefined113,
    Undefined114,
    Undefined115,
    Undefined116,
    Undefined117,
    Undefined118,
    Undefined119,
}

impl Control {
    /// The number that stands for the value on the wire.
    pub open spec fn code(self) -> u8 {
        match self {
            Control::BankSelect => 0,
            Control::ModWheel => 1,
            Control::BreathController => 2,
            Control::Undefined3 => 3,
            Control::FootController => 4,
            Control::PortamentoTime => 5,
            Control::DataEntryMsb => 6,
            Control::ChannelVolume => 7,
            Control::Balance => 8,
            Control::Undefined9 => 9,
            Control::Pan => 10,
            Control::ExpressionController => 11,
            Control::EffectControl1 => 12,
            Control::EffectControl2 => 13,
            Control::Undefined14 => 14,
            Control::Undefined15 => 15,
            Control::GeneralPurpose1 => 16,
            Control::GeneralPurpose2 => 17,
            Control::GeneralPurpose3 => 18,
            Control::GeneralPurpose4 => 19,
            Control::Undefined20 => 20,
            Control::Undefined21 => 21,
            Control::Undefined22 => 22,
            Control::Undefined23 => 23,
            Control::Undefined24 => 24,
            Control::Undefined25 => 25,
            Control::Undefined26 => 26,
            Control::Undefined27 => 27,
            Control::Undefined28 => 28,
            Control::Undefined29 => 29,
            Control::Undefined30 => 30,
            Control::Undefined31 => 31,
            Control::BankSelectLsb => 32,
            Control::ModWheelLsb => 33,
            Control::BreathControllerLsb => 34,
            Control::Undefined3Lsb => 35,
            Control::FootControllerLsb => 36,
            Control::PortamentoTimeLsb => 37,
            Control::DataEntryMsbLsb => 38,
            Control::ChannelVolumeLsb => 39,
            Control::BalanceLsb => 40,
            Control::Undefined9Lsb => 41,
            Control::PanLsb => 42,
            Control::ExpressionControllerLsb => 43,
            Control::EffectControl1Lsb => 44,
            Control::EffectControl2Lsb => 45,
            Control::Undefined14Lsb => 46,
            Control::Undefined15Lsb => 47,
            Control::GeneralPurpose1Lsb => 48,
            Control::GeneralPurpose2Lsb => 49,
            Control::GeneralPurpose3Lsb => 50,
            Control::GeneralPurpose4Lsb => 51,
            Control::Undefined20Lsb => 52,
            Control::Undefined21Lsb => 53,
            Control::Undefined22Lsb => 54,
            Control::Undefined23Lsb => 55,
            Control::Undefined24Lsb => 56,
            Control::Undefined25Lsb => 57,
            Control::Undefined26Lsb => 58,
            Control::Undefined27Lsb => 59,
            Control::Undefined28Lsb => 60,
            Control::Undefined29Lsb => 61,
            Control::Undefined30Lsb => 62,
            Control::Undefined31Lsb => 63,
            Control::DamperPedalSustain => 64,
            Control::PortamentoOnOff => 65,
            Control::Sostenuto => 66,
            Control::SoftPedal => 67,
            Control::LegatoFootswitch => 68,
            Control::Hold2 => 69,
            Control::SoundVariation => 70,
            Control::HarmonicIntensity => 71,
            Control::ReleaseTime => 72,
            Control::AttackTime => 73,
            Control::Brightness => 74,
            Control::SoundControllers6 => 75,
            Control::SoundControllers7 => 76,
            Control::SoundControllers8 => 77,
            Control::SoundControllers9 => 78,
            Control::SoundControllers10 => 79,
            Control::GeneralPurpose5 => 80,
            Control::GeneralPurpose6 => 81,
            Control::GeneralPurpose7 => 82,
            Control::GeneralPurpose8 => 83,
            Control::PortamentoControl => 84,
            Control::Undefined85 => 85,
            Control::Undefined86 => 86,
            Control::Undefined87 => 87,
            Control::Undefined88 => 88,
            Control::Undefined89 => 89,
            Control::Undefined90 => 90,
            Control::Effects1Depth => 91,
            Control::Effects2Depth => 92,
            Control::Effects3Depth => 93,
            Control::Effects4Depth => 94,
            Control::Effects5Depth => 95,
            Control::DataIncrement => 96,
            Control::DataDecrement => 97,
            Control::NonRegisteredParameterNumberLsb => 98,
            Control::NonRegisteredParameterNumberMsb => 99,
            Control::RegisteredParameterNumberLsb => 100,
            Control::RegisteredParameterNumberMsb => 101,
            Control::Undefined102 => 102,
            Control::Undefined103 => 103,
            Control::Undefined104 => 104,
            Control::Undefined105 => 105,
            Control::Undefined106 => 106,
            Control::Undefined107 => 107,
            Control::Undefined108 => 108,
            Control::Undefined109 => 109,
            Control::Undefined110 => 110,
            Control::Undefined111 => 111,
            Control::Undefined112 => 112,
            Control::Undefined113 => 113,
            Control::Undefined114 => 114,
            Control::Undefined115 => 115,
            Control::Undefined116 => 116,
            Control::Undefined117 => 117,
            Control::Undefined118 => 118,
            Control::Undefined119 => 119,
        }
    }

    /// The value that `value` stands for, if it stands for one.
    pub open spec fn of_code(value: u8) -> Option<Control> {
        match value {
            0 => Some(Control::BankSelect),
            1 => Some(Control::ModWheel),
            2 => Some(Control::BreathController),
            3 => Some(Control::Undefined3),
            4 => Some(Control::FootController),
            5 => Some(Control::PortamentoTime),
            6 => Some(Control::DataEntryMsb),
            7 => Some(Control::ChannelVolume),
            8 => Some(Control::Balance),
            9 => Some(Control::Undefined9),
            10 => Some(Control::Pan),
            11 => Some(Control::ExpressionController),
            12 => Some(Control::EffectControl1),
            13 => Some(Control::EffectControl2),
            14 => Some(Control::Undefined14),
            15 => Some(Control::Undefined15),
            16 => Some(Control::GeneralPurpose1),
            17 => Some(Control::GeneralPurpose2),
            18 => Some(Control::GeneralPurpose3),
            19 => Some(Control::GeneralPurpose4),
            20 => Some(Control::Undefined20),
            21 => Some(Control::Undefined21),
            22 => Some(Control::Undefined22),
            23 => Some(Control::Undefined23),
            24 => Some(Control::Undefined24),
            25 => Some(Control::Undefined25),
            26 => Some(Control::Undefined26),
            27 => Some(Control::Undefined27),
            28 => Some(Control::Undefined28),
            29 => Some(Control::Undefined29),
            30 => Some(Control::Undefined30),
            31 => Some(Control::Undefined31),
            32 => Some(Control::BankSelectLsb),
            33 => Some(Control::ModWheelLsb),
            34 => Some(Control::BreathControllerLsb),
            35 => Some(Control::Undefined3Lsb),
            36 => Some(Control::FootControllerLsb),
            37 => Some(Control::PortamentoTimeLsb),
            38 => Some(Control::DataEntryMsbLsb),
            39 => Some(Control::ChannelVolumeLsb),
            40 => Some(Control::BalanceLsb),
            41 => Some(Control::Undefined9Lsb),
            42 => Some(Control::PanLsb),
            43 => Some(Control::ExpressionControllerLsb),
            44 => Some(Control::EffectControl1Lsb),
            45 => Some(Control::EffectControl2Lsb),
            46 => Some(Control::Undefined14Lsb),
            47 => Some(Control::Undefined15Lsb),
            48 => Some(Control::GeneralPurpose1Lsb),
            49 => Some(Control::GeneralPurpose2Lsb),
            50 => Some(Control::GeneralPurpose3Lsb),
            51 => Some(Control::GeneralPurpose4Lsb),
            52 => Some(Control::Undefined20Lsb),
            53 => Some(Control::Undefined21Lsb),
            54 => Some(Control::Undefined22Lsb),
            55 => Some(Control::Undefined23Lsb),
            56 => Some(Control::Undefined24Lsb),
            57 => Some(Control::Undefined25Lsb),
            58 => Some(Control::Undefined26Lsb),
            59 => Some(Control::Undefined27Lsb),
            60 => Some(Control::Undefined28Lsb),
            61 => Some(Control::Undefined29Lsb),
            62 => Some(Control::Undefined30Lsb),
            63 => Some(Control::Undefined31Lsb),
            64 => Some(Control::DamperPedalSustain),
            65 => Some(Control::PortamentoOnOff),
            66 => Some(Control::Sostenuto),
            67 => Some(Control::SoftPedal),
            68 => Some(Control::LegatoFootswitch),
            69 => Some(Control::Hold2),
            70 => Some(Control::SoundVariation),
            71 => Some(Control::HarmonicIntensity),
            72 => Some(Control::ReleaseTime),
            73 => Some(Control::AttackTime),
            74 => Some(Control::Brightness),
            75 => Some(Control::SoundControllers6),
            76 => Some(Control::SoundControllers7),
            77 => Some(Control::SoundControllers8),
            78 => Some(Control::SoundControllers9),
            79 => Some(Control::SoundControllers10),
            80 => Some(Control::GeneralPurpose5),
            81 => Some(Control::GeneralPurpose6),
            82 => Some(Control::GeneralPurpose7),
            83 => Some(Control::GeneralPurpose8),
            84 => Some(Control::PortamentoControl),
            85 => Some(Control::Undefined85),
            86 => Some(Control::Undefined86),
            87 => Some(Control::Undefined87),
            88 => Some(Control::Undefined88),
            89 => Some(Control::Undefined89),
            90 => Some(Control::Undefined90),
            91 => Some(Control::Effects1Depth),
            92 => Some(Control::Effects2Depth),
            93 => Some(Control::Effects3Depth),
            94 => Some(Control::Effects4Depth),
            95 => Some(Control::Effects5Depth),
            96 => Some(Control::DataIncrement),
            97 => Some(Control::DataDecrement),
            98 => Some(Control::NonRegisteredParameterNumberLsb),
            99 => Some(Control::NonRegisteredParameterNumberMsb),
            100 => Some(Control::RegisteredParameterNumberLsb),
            101 => Some(Control::RegisteredParameterNumberMsb),
            102 => Some(Control::Undefined102),
            103 => Some(Control::Undefined103),
            104 => Some(Control::Undefined104),
            105 => Some(Control::Undefined105),
            106 => Some(Control::Undefined106),
            107 => Some(Control::Undefined107),
            108 => Some(Control::Undefined108),
            109 => Some(Control::Undefined109),
            110 => Some(Control::Undefined110),
            111 => Some(Control::Undefined111),
            112 => Some(Control::Undefined112),
            113 => Some(Control::Undefined113),
            114 => Some(Control::Undefined114),
            115 => Some(Control::Undefined115),
            116 => Some(Control::Undefined116),
            117 => Some(Control::Undefined117),
            118 => Some(Control::Undefined118),
            119 => Some(Control::Undefined119),
            _ => None,
        }
    }

    /// The value that `value` stands for; an invalid-file error where it
    /// stands for none.
    pub fn try_from_u8(value: u8) -> (r: Result<Self, Error>)
        ensures
            agrees(
                r,
                match Self::of_code(value) {
                    Some(v) => Ok(v),
                    None => Err(ErrorKind::InvalidFile(Defect::UnknownControl)),
                },
            ),
    {
        match value {
            0 => Ok(Control::BankSelect),
            1 => Ok(Control::ModWheel),
            2 => Ok(Control::BreathController),
            3 => Ok(Control::Undefined3),
            4 => Ok(Control::FootController),
            5 => Ok(Control::PortamentoTime),
            6 => Ok(Control::DataEntryMsb),
            7 => Ok(Control::ChannelVolume),
            8 => Ok(Control::Balance),
            9 => Ok(Control::Undefined9),
            10 => Ok(Control::Pan),
            11 => Ok(Control::ExpressionController),
            12 => Ok(Control::EffectControl1),
            13 => Ok(Control::EffectControl2),
            14 => Ok(Control::Undefined14),
            15 => Ok(Control::Undefined15),
            16 => Ok(Control::GeneralPurpose1),
            17 => Ok(Control::GeneralPurpose2),
            18 => Ok(Control::GeneralPurpose3),
            19 => Ok(Control::GeneralPurpose4),
            20 => Ok(Control::Undefined20),
            21 => Ok(Control::Undefined21),
            22 => Ok(Control::Undefined22),
            23 => Ok(Control::Undefined23),
            24 => Ok(Control::Undefined24),
            25 => Ok(Control::Undefined25),
            26 => Ok(Control::Undefined26),
            27 => Ok(Control::Undefined27),
            28 => Ok(Control::Undefined28),
            29 => Ok(Control::Undefined29),
            30 => Ok(Control::Undefined30),
            31 => Ok(Control::Undefined31),
            32 => Ok(Control::BankSelectLsb),
            33 => Ok(Control::ModWheelLsb),
            34 => Ok(Control::BreathControllerLsb),
            35 => Ok(Control::Undefined3Lsb),
            36 => Ok(Control::FootControllerLsb),
            37 => Ok(Control::PortamentoTimeLsb),
            38 => Ok(Control::DataEntryMsbLsb),
            39 => Ok(Control::ChannelVolumeLsb),
            40 => Ok(Control::BalanceLsb),
            41 => Ok(Control::Undefined9Lsb),
            42 => Ok(Control::PanLsb),
            43 => Ok(Control::ExpressionControllerLsb),
            44 => Ok(Control::EffectControl1Lsb),
            45 => Ok(Control::EffectControl2Lsb),
            46 => Ok(Control::Undefined14Lsb),
            47 => Ok(Control::Undefined15Lsb),
            48 => Ok(Control::GeneralPurpose1Lsb),
            49 => Ok(Control::GeneralPurpose2Lsb),
            50 => Ok(Control::GeneralPurpose3Lsb),
            51 => Ok(Control::GeneralPurpose4Lsb),
            52 => Ok(Control::Undefined20Lsb),
            53 => Ok(Control::Undefined21Lsb),
            54 => Ok(Control::Undefined22Lsb),
            55 => Ok(Control::Undefined23Lsb),
            56 => Ok(Control::Undefined24Lsb),
            57 => Ok(Control::Undefined25Lsb),
            58 => Ok(Control::Undefined26Lsb),
            59 => Ok(Control::Undefined27Lsb),
            60 => Ok(Control::Undefined28Lsb),
            61 => Ok(Control::Undefined29Lsb),
            62 => Ok(Control::Undefined30Lsb),
            63 => Ok(Control::Undefined31Lsb),
            64 => Ok(Control::DamperPedalSustain),
            65 => Ok(Control::PortamentoOnOff),
            66 => Ok(Control::Sostenuto),
            67 => Ok(Control::SoftPedal),
            68 => Ok(Control::LegatoFootswitch),
            69 => Ok(Control::Hold2),
            70 => Ok(Control::SoundVariation),
            71 => Ok(Control::HarmonicIntensity),
            72 => Ok(Control::ReleaseTime),
            73 => Ok(Control::AttackTime),
            74 => Ok(Control::Brightness),
            75 => Ok(Control::SoundControllers6),
            76 => Ok(Control::SoundControllers7),
            77 => Ok(Control::SoundControllers8),
            78 => Ok(Control::SoundControllers9),
            79 => Ok(Control::SoundControllers10),
            80 => Ok(Control::GeneralPurpose5),
            81 => Ok(Control::GeneralPurpose6),
            82 => Ok(Control::GeneralPurpose7),
            83 => Ok(Control::GeneralPurpose8),
            84 => Ok(Control::PortamentoControl),
            85 => Ok(Control::Undefined85),
            86 => Ok(Control::Undefined86),
            87 => Ok(Control::Undefined87),
            88 => Ok(Control::Undefined88),
            89 => Ok(Control::Undefined89),
            90 => Ok(Control::Undefined90),
            91 => Ok(Control::Effects1Depth),
            92 => Ok(Control::Effects2Depth),
            93 => Ok(Control::Effects3Depth),
            94 => Ok(Control::Effects4Depth),
            95 => Ok(Control::Effects5Depth),
            96 => Ok(Control::DataIncrement),
            97 => Ok(Control::DataDecrement),
            98 => Ok(Control::NonRegisteredParameterNumberLsb),
            99 => Ok(Control::NonRegisteredParameterNumberMsb),
            100 => Ok(Control::RegisteredParameterNumberLsb),
            101 => Ok(Control::RegisteredParameterNumberMsb),
            102 => Ok(Control::Undefined102),
            103 => Ok(Control::Undefined103),
            104 => Ok(Control::Undefined104),
            105 => Ok(Control::Undefined105),
            106 => Ok(Control::Undefined106),
            107 => Ok(Control::Undefined107),
            108 => Ok(Control::Undefined108),
            109 => Ok(Control::Undefined109),
            110 => Ok(Control::Undefined110),
            111 => Ok(Control::Undefined111),
            112 => Ok(Control::Undefined112),
            113 => Ok(Control::Undefined113),
            114 => Ok(Control::Undefined114),
            115 => Ok(Control::Undefined115),
            116 => Ok(Control::Undefined116),
            117 => Ok(Control::Undefined117),
            118 => Ok(Control::Undefined118),
            119 => Ok(Control::Undefined119),
            _ => Err(Error::new(ErrorKind::InvalidFile(Defect::UnknownControl))),
        }
    }

    /// The number that stands for the value on the wire.
    pub fn to_u8(self) -> (r: u8)
        ensures
            r == self.code(),
    {
        match self {
            Control::BankSelect => 0,
            Control::ModWheel => 1,
            Control::BreathController => 2,
            Control::Undefined3 => 3,
            Control::FootController => 4,
            Control::PortamentoTime => 5,
            Control::DataEntryMsb => 6,
            Control::ChannelVolume => 7,
            Control::Balance => 8,
            Control::Undefined9 => 9,
            Control::Pan => 10,
            Control::ExpressionController => 11,
            Control::EffectControl1 => 12,
            Control::EffectControl2 => 13,
            Control::Undefined14 => 14,
            Control::Undefined15 => 15,
            Control::GeneralPurpose1 => 16,
            Control::GeneralPurpose2 => 17,
            Control::GeneralPurpose3 => 18,
            Control::GeneralPurpose4 => 19,
            Control::Undefined20 => 20,
            Control::Undefined21 => 21,
            Control::Undefined22 => 22,
            Control::Undefined23 => 23,
            Control::Undefined24 => 24,
            Control::Undefined25 => 25,
            Control::Undefined26 => 26,
            Control::Undefined27 => 27,
            Control::Undefined28 => 28,
            Control::Undefined29 => 29,
            Control::Undefined30 => 30,
            Control::Undefined31 => 31,
            Control::BankSelectLsb => 32,
            Control::ModWheelLsb => 33,
            Control::BreathControllerLsb => 34,
            Control::Undefined3Lsb => 35,
            Control::FootControllerLsb => 36,
            Control::PortamentoTimeLsb => 37,
            Control::DataEntryMsbLsb => 38,
            Control::ChannelVolumeLsb => 39,
            Control::BalanceLsb => 40,
            Control::Undefined9Lsb => 41,
            Control::PanLsb => 42,
            Control::ExpressionControllerLsb => 43,
            Control::EffectControl1Lsb => 44,
            Control::EffectControl2Lsb => 45,
            Control::Undefined14Lsb => 46,
            Control::Undefined15Lsb => 47,
            Control::GeneralPurpose1Lsb => 48,
            Control::GeneralPurpose2Lsb => 49,
            Control::GeneralPurpose3Lsb => 50,
            Control::GeneralPurpose4Lsb => 51,
            Control::Undefined20Lsb => 52,
            Control::Undefined21Lsb => 53,
            Control::Undefined22Lsb => 54,
            Control::Undefined23Lsb => 55,
            Control::Undefined24Lsb => 56,
            Control::Undefined25Lsb => 57,
            Control::Undefined26Lsb => 58,
            Control::Undefined27Lsb => 59,
            Control::Undefined28Lsb => 60,
            Control::Undefined29Lsb => 61,
            Control::Undefined30Lsb => 62,
            Control::Undefined31Lsb => 63,
            Control::DamperPedalSustain => 64,
            Control::PortamentoOnOff => 65,
            Control::Sostenuto => 66,
            Control::SoftPedal => 67,
            Control::LegatoFootswitch => 68,
            Control::Hold2 => 69,
            Control::SoundVariation => 70,
            Control::HarmonicIntensity => 71,
            Control::ReleaseTime => 72,
            Control::AttackTime => 73,
            Control::Brightness => 74,
            Control::SoundControllers6 => 75,
            Control::SoundControllers7 => 76,
            Control::SoundControllers8 => 77,
            Control::SoundControllers9 => 78,
            Control::SoundControllers10 => 79,
            Control::GeneralPurpose5 => 80,
            Control::GeneralPurpose6 => 81,
            Control::GeneralPurpose7 => 82,
            Control::GeneralPurpose8 => 83,
            Control::PortamentoControl => 84,
            Control::Undefined85 => 85,
            Control::Undefined86 => 86,
            Control::Undefined87 => 87,
            Control::Undefined88 => 88,
            Control::Undefined89 => 89,
            Control::Undefined90 => 90,
            Control::Effects1Depth => 91,
            Control::Effects2Depth => 92,
            Control::Effects3Depth => 93,
            Control::Effects4Depth => 94,
            Control::Effects5Depth => 95,
            Control::DataIncrement => 96,
            Control::DataDecrement => 97,
            Control::NonRegisteredParameterNumberLsb => 98,
            Control::NonRegisteredParameterNumberMsb => 99,
            Control::RegisteredParameterNumberLsb => 100,
            Control::RegisteredParameterNumberMsb => 101,
            Control::Undefined102 => 102,
            Control::Undefined103 => 103,
            Control::Undefined104 => 104,
            Control::Undefined105 => 105,
            Control::Undefined106 => 106,
            Control::Undefined107 => 107,
            Control::Undefined108 => 108,
            Control::Undefined109 => 109,
            Control::Undefined110 => 110,
            Control::Undefined111 => 111,
            Control::Undefined112 => 112,
            Control::Undefined113 => 113,
            Control::Undefined114 => 114,
            Control::Undefined115 => 115,
            Control::Undefined116 => 116,
            Control::Undefined117 => 117,
            Control::Undefined118 => 118,
            Control::Undefined119 => 119,
        }
    }

    /// A value is the one that its number stands for.
    pub proof fn lemma_of_code(self)
        ensures
            Self::of_code(self.code()) == Some(self),
    {
    }

    /// A number that stands for a value is the number of that value.
    pub proof fn lemma_code_of(value: u8)
        ensures
            Self::of_code(value) matches Some(v) ==> v.code() == value,
    {
    }
}

impl Default for Control {
    fn default() -> (r: Self)
        ensures
            r == Control::BankSelect,
    {
        Control::BankSelect
    }
}

impl TryFrom<u8> for Control {
    type Error = Error;

    fn try_from(value: u8) -> (r: Result<Self, Error>)
        ensures
            agrees(
                r,
                match Self::of_code(value) {
                    Some(v) => Ok(v),
                    None => Err(ErrorKind::InvalidFile(Defect::UnknownControl)),
                },
            ),
    {
        Control::try_from_u8(value)
    }
}

impl TryFromSpecImpl<u8> for Control {
    open spec fn obeys_try_from_spec() -> bool {
        false
    }

    open spec fn try_from_spec(value: u8) -> Result<Self, Error> {
        arbitrary()
    }
}

} // verus!
