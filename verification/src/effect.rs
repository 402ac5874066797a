//! The catalog of built-in waveform effects and their register bytes.
//!
//! A sequencer slot holds one byte. Zero ends the sequence, 1 to 123 select
//! a waveform of the library, and a byte with its top bit set is a pause
//! whose low seven bits count steps of 10 ms.

use vstd::prelude::*;
use vstd::std_specs::convert::FromSpecImpl;

verus! {

/// What one slot of the waveform sequencer holds.
#[derive(Debug, Clone, Copy, PartialEq, Eq, Structural)]
pub enum Effect {
    /// Ends the sequence.
    Stop,
    /// A pause of the given number of 10 ms steps. The slot keeps the low
    /// seven bits of the count, so 127 steps is the longest pause.
    Delays(u8),
    /// Strong Click, 100%.
    StrongClick100,
    /// Strong Click, 60%.
    StrongClick60,
    /// Strong Click, 30%.
    StrongClick30,
    /// Sharp Click, 100%.
    SharpClick100,
    /// Sharp Click, 60%.
    SharpClick60,
    /// Sharp Click, 30%.
    SharpClick30,
    /// Soft Bump, 100%.
    SoftBump100,
    /// Soft Bump, 60%.
    SoftBump60,
    /// Soft Bump, 30%.
    SoftBump30,
    /// Double Click, 100%.
    DoubleClick100,
    /// Double Click, 60%.
    DoubleClick60,
    /// Triple Click, 100%.
    TripleClick100,
    /// Soft Fuzz, 60%.
    SoftFuzz60,
    /// Strong Buzz, 100%.
    StrongBuzz100,
    /// 750 ms Alert 100%.
    Alert750ms,
    /// 1000 ms Alert 100%.
    Alert1000ms,
    /// Strong Click 1, 100%.
    StrongClickOne100,
    /// Strong Click 2, 80%.
    StrongClickTwo80,
    /// Strong Click 3, 60%.
    StrongClickThree60,
    /// Strong Click 4, 30%.
    StrongClickFour30,
    /// Medium Click 1, 100%.
    MediumClickOne100,
    /// Medium Click 2, 80%.
    MediumClickTwo80,
    /// Medium Click 3, 60%.
    MediumClickThree60,
    /// Sharp Tick 1, 100%.
    SharpTickOne100,
    /// Sharp Tick 2, 80%.
    SharpTickTwo80,
    /// Sharp Tick 3, 60%.
    SharpTickThree60,
    /// Short Double Click Strong 1, 100%.
    ShortDoubleClickStrongOne100,
    /// Short Double Click Strong 2, 80%.
    ShortDoubleClickStrongTwo80,
    /// Short Double Click Strong 3, 60%.
    ShortDoubleClickStrongThree60,
    /// Short Double Click Strong 4, 30%.
    ShortDoubleClickStrongFour30,
    /// Short Double Click Medium 1, 100%.
    ShortDoubleClickMediumOne100,
    /// Short Double Click Medium 2, 80%.
    ShortDoubleClickMediumTwo80,
    /// Short Double Click Medium 3, 60%.
    ShortDoubleClickMediumThree60,
    /// Short Double Sharp Tick 1, 100%.
    ShortDoubleSharpTickOne100,
    /// Short Double Sharp Tick 2, 80%.
    ShortDoubleSharpTickTwo80,
    /// Short Double Sharp Tick 3, 60%.
    ShortDoubleSharpTickThree60,
    /// Long Double Sharp Click Strong 1, 100%.
    LongDoubleSharpClickStrongOne100,
    /// Long Double Sharp Click Strong 2, 80%.
    LongDoubleSharpClickStrongTwo80,
    /// Long Double Sharp Click Strong 3, 60%.
    LongDoubleSharpClickStrongThree60,
    /// Long Double Sharp Click Strong 4, 30%.
    LongDoubleSharpClickStrongFour30,
    /// Long Double Sharp Click Medium 1, 100%.
    LongDoubleSharpClickMediumOne100,
    /// Long Double Sharp Click Medium 2, 80%.
    LongDoubleSharpClickMediumTwo80,
    /// Long Double Sharp Click Medium 3, 60%.
    LongDoubleSharpClickMediumThree60,
    /// Long Double Sharp Tick 1, 100%.
    LongDoubleSharpTickOne100,
    /// Long Double Sharp Tick 2, 80%.
    LongDoubleSharpTickTwo80,
    /// Long Double Sharp Tick 3, 60%.
    LongDoubleSharpTickThree60,
    /// Buzz 1, 100%.
    BuzzOne100,
    /// Buzz 2, 80%.
    BuzzTwo80,
    /// Buzz 3, 60%.
    BuzzThree60,
    /// Buzz 4, 40%.
    BuzzFour40,
    /// Buzz 5, 20%.
    BuzzFive20,
    /// Pulsing Strong 1, 100%.
    PulsingStrongOne100,
    /// Pulsing Strong 2, 60%.
    PulsingStrongTwo60,
    /// Pulsing Medium 1, 100%.
    PulsingMediumOne100,
    /// Pulsing Medium 2, 60%.
    PulsingMediumTwo60,
    /// Pulsing Sharp 1, 100%.
    PulsingSharpOne100,
    /// Pulsing Sharp 2, 60%.
    PulsingSharpTwo60,
    /// Transition Click 1, 100%.
    TransitionClickOne100,
    /// Transition Click 2, 80%.
    TransitionClickTwo80,
    /// Transition Click 3, 60%.
    TransitionClickThree60,
    /// Transition Click 4, 40%.
    TransitionClickFour40,
    /// Transition Click 5, 20%.
    TransitionClickFive20,
    /// Transition Click 6, 10%.
    TransitionClickSix10,
    /// Transition Hum 1, 100%.
    TransitionHumOne100,
    /// Transition Hum 2, 80%.
    TransitionHumTwo80,
    /// Transition Hum 3, 60%.
    TransitionHumThree60,
    /// Transition Hum 4, 40%.
    TransitionHumFour40,
    /// Transition Hum 5, 20%.
    TransitionHumFive20,
    /// Transition Hum 6, 10%.
    TransitionHumSix10,
    /// Transition Ramp Down Long Smooth 1, 100 to 0%.
    TransitionRampDownLongSmoothOne100to0,
    /// Transition Ramp Down Long Smooth 2, 100 to 0%.
    TransitionRampDownLongSmoothTwo100to0,
    /// Transition Ramp Down Medium Smooth 1, 100 to 0%.
    TransitionRampDownMediumSmoothOne100to0,
    /// Transition Ramp Down Medium Smooth 2, 100 to 0%.
    TransitionRampDownMediumSmoothTwo100to0,
    /// Transition Ramp Down Short Smooth 1, 100 to 0%.
    TransitionRampDownShortSmoothOne100to0,
    /// Transition Ramp Down Short Smooth 2, 100 to 0%.
    TransitionRampDownShortSmoothTwo100to0,
    /// Transition Ramp Down Long Sharp 1, 100 to 0%.
    TransitionRampDownLongSharpOne100to0,
    /// Transition Ramp Down Long Sharp 2, 100 to 0%.
    TransitionRampDownLongSharpTwo100to0,
    /// Transition Ramp Down Medium Sharp 1, 100 to 0%.
    TransitionRampDownMediumSharpOne100to0,
    /// Transition Ramp Down Medium Sharp 2, 100 to 0%.
    TransitionRampDownMediumSharpTwo100to0,
    /// Transition Ramp Down Short Sharp 1, 100 to 0%.
    TransitionRampDownShortSharpOne100to0,
    /// Transition Ramp Down Short Sharp 2, 100 to 0%.
    TransitionRampDownShortSharpTwo100to0,
    /// Transition Ramp Up Long Smooth 1, 0 to 100%.
    TransitionRampUpLongSmoothOne0to100,
    /// Transition Ramp Up Long Smooth 2, 0 to 100%.
    TransitionRampUpLongSmoothTwo0to100,
    /// Transition Ramp Up Medium Smooth 1, 0 to 100%.
    TransitionRampUpMediumSmoothOne0to100,
    /// Transition Ramp Up Medium Smooth 2, 0 to 100%.
    TransitionRampUpMediumSmoothTwo0to100,
    /// Transition Ramp Up Short Smooth 1, 0 to 100%.
    TransitionRampUpShortSmoothOne0to100,
    /// Transition Ramp Up Short Smooth 2, 0 to 100%.
    TransitionRampUpShortSmoothTwo0to100,
    /// Transition Ramp Up Long Sharp 1, 0 to 100%.
    TransitionRampUpLongSharpOne0to100,
    /// Transition Ramp Up Long Sharp 2, 0 to 100%.
    TransitionRampUpLongSharpTwo0to100,
    /// Transition Ramp Up Medium Sharp 1, 0 to 100%.
    TransitionRampUpMediumSharpOne0to100,
    /// Transition Ramp Up Medium Sharp 2, 0 to 100%.
    TransitionRampUpMediumSharpTwo0to100,
    /// Transition Ramp Up Short Sharp 1, 0 to 100%.
    TransitionRampUpShortSharpOne0to100,
    /// Transition Ramp Up Short Sharp 2, 0 to 100%.
    TransitionRampUpShortSharpTwo0to100,
    /// Transition Ramp Down Long Smooth 1, 50 to 0%.
    TransitionRampDownLongSmoothOne50to0,
    /// Transition Ramp Down Long Smooth 2, 50 to 0%.
    TransitionRampDownLongSmoothTwo50to0,
    /// Transition Ramp Down Medium Smooth 1, 50 to 0%.
    TransitionRampDownMediumSmoothOne50to0,
    /// Transition Ramp Down Medium Smooth 2, 50 to 0%.
    TransitionRampDownMediumSmoothTwo50to0,
    /// Transition Ramp Down Short Smooth 1, 50 to 0%.
    TransitionRampDownShortSmoothOne50to0,
    /// Transition Ramp Down Short Smooth 2, 50 to 0%.
    TransitionRampDownShortSmoothTwo50to0,
    /// Transition Ramp Down Long Sharp 1, 50 to 0%.
    TransitionRampDownLongSharpOne50to0,
    /// Transition Ramp Down Long Sharp 2, 50 to 0%.
    TransitionRampDownLongSharpTwo50to0,
    /// Transition Ramp Down Medium Sharp 1, 50 to 0%.
    TransitionRampDownMediumSharpOne50to0,
    /// Transition Ramp Down Medium Sharp 2, 50 to 0%.
    TransitionRampDownMediumSharpTwo50to0,
    /// Transition Ramp Down Short Sharp 1, 50 to 0%.
    TransitionRampDownShortSharpOne50to0,
    /// Transition Ramp Down Short Sharp 2, 50 to 0%.
    TransitionRampDownShortSharpTwo50to0,
    /// Transition Ramp Up Long Smooth 1, 0 to 50%.
    TransitionRampUpLongSmoothOne0to50,
    /// Transition Ramp Up Long Smooth 2, 0 to 50%.
    TransitionRampUpLongSmoothTwo0to50,
    /// Transition Ramp Up Medium Smooth 1, 0 to 50%.
    TransitionRampUpMediumSmoothOne0to50,
    /// Transition Ramp Up Medium Smooth 2, 0 to 50%.
    TransitionRampUpMediumSmoothTwo0to50,
    /// Transition Ramp Up Short Smooth 1, 0 to 50%.
    TransitionRampUpShortSmoothOne0to50,
    /// Transition Ramp Up Short Smooth 2, 0 to 50%.
    TransitionRampUpShortSmoothTwo0to50,
    /// Transition Ramp Up Long Sharp 1, 0 to 50%.
    TransitionRampUpLongSharpOne0to50,
    /// Transition Ramp Up Long Sharp 2, 0 to 50%.
    TransitionRampUpLongSharpTwo0to50,
    /// Transition Ramp Up Medium Sharp 1, 0 to 50%.
    TransitionRampUpMediumSharpOne0to50,
    /// Transition Ramp Up Medium Sharp 2, 0 to 50%.
    TransitionRampUpMediumSharpTwo0to50,
    /// Transition Ramp Up Short Sharp 1, 0 to 50%.
    TransitionRampUpShortSharpOne0to50,
    /// Transition Ramp Up Short Sharp 2, 0 to 50%.
    TransitionRampUpShortSharpTwo0to50,
    /// Long Buzz For Programmatic Stopping, 100%.
    LongBuzzForProgrammaticStopping100,
    /// Smooth Hum 1 (No kick or brake pulse), 50%.
    SmoothHumOne50,
    /// Smooth Hum 2 (No kick or brake pulse), 40%.
    SmoothHumTwo40,
    /// Smooth Hum 3 (No kick or brake pulse), 30%.
    SmoothHumThree30,
    /// Smooth Hum 4 (No kick or brake pulse), 20%.
    SmoothHumFour20,
    /// Smooth Hum 5 (No kick or brake pulse), 10%.
    SmoothHumFive10,
}

impl Effect {
    /// The byte that stands for the effect in a sequencer slot.
    pub open spec fn code_of(self) -> u8 {
        match self {
            Effect::Delays(n) => n | 0x80,
            Effect::Stop => 0,
            Effect::StrongClick100 => 1,
            Effect::StrongClick60 => 2,
            Effect::StrongClick30 => 3,
            Effect::SharpClick100 => 4,
            Effect::SharpClick60 => 5,
            Effect::SharpClick30 => 6,
            Effect::SoftBump100 => 7,
            Effect::SoftBump60 => 8,
            Effect::SoftBump30 => 9,
            Effect::DoubleClick100 => 10,
            Effect::DoubleClick60 => 11,
            Effect::TripleClick100 => 12,
            Effect::SoftFuzz60 => 13,
            Effect::StrongBuzz100 => 14,
            Effect::Alert750ms => 15,
            Effect::Alert1000ms => 16,
            Effect::StrongClickOne100 => 17,
            Effect::StrongClickTwo80 => 18,
            Effect::StrongClickThree60 => 19,
            Effect::StrongClickFour30 => 20,
            Effect::MediumClickOne100 => 21,
            Effect::MediumClickTwo80 => 22,
            Effect::MediumClickThree60 => 23,
            Effect::SharpTickOne100 => 24,
            Effect::SharpTickTwo80 => 25,
            Effect::SharpTickThree60 => 26,
            Effect::ShortDoubleClickStrongOne100 => 27,
            Effect::ShortDoubleClickStrongTwo80 => 28,
            Effect::ShortDoubleClickStrongThree60 => 29,
            Effect::ShortDoubleClickStrongFour30 => 30,
            Effect::ShortDoubleClickMediumOne100 => 31,
            Effect::ShortDoubleClickMediumTwo80 => 32,
            Effect::ShortDoubleClickMediumThree60 => 33,
            Effect::ShortDoubleSharpTickOne100 => 34,
            Effect::ShortDoubleSharpTickTwo80 => 35,
            Effect::ShortDoubleSharpTickThree60 => 36,
            Effect::LongDoubleSharpClickStrongOne100 => 37,
            Effect::LongDoubleSharpClickStrongTwo80 => 38,
            Effect::LongDoubleSharpClickStrongThree60 => 39,
            Effect::LongDoubleSharpClickStrongFour30 => 40,
            Effect::LongDoubleSharpClickMediumOne100 => 41,
            Effect::LongDoubleSharpClickMediumTwo80 => 42,
            Effect::LongDoubleSharpClickMediumThree60 => 43,
            Effect::LongDoubleSharpTickOne100 => 44,
            Effect::LongDoubleSharpTickTwo80 => 45,
            Effect::LongDoubleSharpTickThree60 => 46,
            Effect::BuzzOne100 => 47,
            Effect::BuzzTwo80 => 48,
            Effect::BuzzThree60 => 49,
            Effect::BuzzFour40 => 50,
            Effect::BuzzFive20 => 51,
            Effect::PulsingStrongOne100 => 52,
            Effect::PulsingStrongTwo60 => 53,
            Effect::PulsingMediumOne100 => 54,
            Effect::PulsingMediumTwo60 => 55,
            Effect::PulsingSharpOne100 => 56,
            Effect::PulsingSharpTwo60 => 57,
            Effect::TransitionClickOne100 => 58,
            Effect::TransitionClickTwo80 => 59,
            Effect::TransitionClickThree60 => 60,
            Effect::TransitionClickFour40 => 61,
            Effect::TransitionClickFive20 => 62,
            Effect::TransitionClickSix10 => 63,
            Effect::TransitionHumOne100 => 64,
            Effect::TransitionHumTwo80 => 65,
            Effect::TransitionHumThree60 => 66,
            Effect::TransitionHumFour40 => 67,
            Effect::TransitionHumFive20 => 68,
            Effect::TransitionHumSix10 => 69,
            Effect::TransitionRampDownLongSmoothOne100to0 => 70,
            Effect::TransitionRampDownLongSmoothTwo100to0 => 71,
            Effect::TransitionRampDownMediumSmoothOne100to0 => 72,
            Effect::TransitionRampDownMediumSmoothTwo100to0 => 73,
            Effect::TransitionRampDownShortSmoothOne100to0 => 74,
            Effect::TransitionRampDownShortSmoothTwo100to0 => 75,
            Effect::TransitionRampDownLongSharpOne100to0 => 76,
            Effect::TransitionRampDownLongSharpTwo100to0 => 77,
            Effect::TransitionRampDownMediumSharpOne100to0 => 78,
            Effect::TransitionRampDownMediumSharpTwo100to0 => 79,
            Effect::TransitionRampDownShortSharpOne100to0 => 80,
            Effect::TransitionRampDownShortSharpTwo100to0 => 81,
            Effect::TransitionRampUpLongSmoothOne0to100 => 82,
            Effect::TransitionRampUpLongSmoothTwo0to100 => 83,
            Effect::TransitionRampUpMediumSmoothOne0to100 => 84,
            Effect::TransitionRampUpMediumSmoothTwo0to100 => 85,
            Effect::TransitionRampUpShortSmoothOne0to100 => 86,
            Effect::TransitionRampUpShortSmoothTwo0to100 => 87,
            Effect::TransitionRampUpLongSharpOne0to100 => 88,
            Effect::TransitionRampUpLongSharpTwo0to100 => 89,
            Effect::TransitionRampUpMediumSharpOne0to100 => 90,
            Effect::TransitionRampUpMediumSharpTwo0to100 => 91,
            Effect::TransitionRampUpShortSharpOne0to100 => 92,
            Effect::TransitionRampUpShortSharpTwo0to100 => 93,
            Effect::TransitionRampDownLongSmoothOne50to0 => 94,
            Effect::TransitionRampDownLongSmoothTwo50to0 => 95,
            Effect::TransitionRampDownMediumSmoothOne50to0 => 96,
            Effect::TransitionRampDownMediumSmoothTwo50to0 => 97,
            Effect::TransitionRampDownShortSmoothOne50to0 => 98,
            Effect::TransitionRampDownShortSmoothTwo50to0 => 99,
            Effect::TransitionRampDownLongSharpOne50to0 => 100,
            Effect::TransitionRampDownLongSharpTwo50to0 => 101,
            Effect::TransitionRampDownMediumSharpOne50to0 => 102,
            Effect::TransitionRampDownMediumSharpTwo50to0 => 103,
            Effect::TransitionRampDownShortSharpOne50to0 => 104,
            Effect::TransitionRampDownShortSharpTwo50to0 => 105,
            Effect::TransitionRampUpLongSmoothOne0to50 => 106,
            Effect::TransitionRampUpLongSmoothTwo0to50 => 107,
            Effect::TransitionRampUpMediumSmoothOne0to50 => 108,
            Effect::TransitionRampUpMediumSmoothTwo0to50 => 109,
            Effect::TransitionRampUpShortSmoothOne0to50 => 110,
            Effect::TransitionRampUpShortSmoothTwo0to50 => 111,
            Effect::TransitionRampUpLongSharpOne0to50 => 112,
            Effect::TransitionRampUpLongSharpTwo0to50 => 113,
            Effect::TransitionRampUpMediumSharpOne0to50 => 114,
            Effect::TransitionRampUpMediumSharpTwo0to50 => 115,
            Effect::TransitionRampUpShortSharpOne0to50 => 116,
            Effect::TransitionRampUpShortSharpTwo0to50 => 117,
            Effect::LongBuzzForProgrammaticStopping100 => 118,
            Effect::SmoothHumOne50 => 119,
            Effect::SmoothHumTwo40 => 120,
            Effect::SmoothHumThree30 => 121,
            Effect::SmoothHumFour20 => 122,
            Effect::SmoothHumFive10 => 123,
        }
    }

    /// Whether the effect is the one that `decode` gives for its byte. Only
    /// a pause of more than 127 steps is not: its byte reads as the pause of
    /// the count's low seven bits.
    pub open spec fn is_canonical(self) -> bool {
        match self {
            Effect::Delays(n) => n < 128,
            _ => true,
        }
    }

    /// The byte that stands for the effect in a sequencer slot.
    pub fn code(self) -> (r: u8)
        ensures
            r == self.code_of(),
    {
        match self {
            Effect::Delays(n) => n | 0x80,
            Effect::Stop => 0,
            Effect::StrongClick100 => 1,
            Effect::StrongClick60 => 2,
            Effect::StrongClick30 => 3,
            Effect::SharpClick100 => 4,
            Effect::SharpClick60 => 5,
            Effect::SharpClick30 => 6,
            Effect::SoftBump100 => 7,
            Effect::SoftBump60 => 8,
            Effect::SoftBump30 => 9,
            Effect::DoubleClick100 => 10,
            Effect::DoubleClick60 => 11,
            Effect::TripleClick100 => 12,
            Effect::SoftFuzz60 => 13,
            Effect::StrongBuzz100 => 14,
            Effect::Alert750ms => 15,
            Effect::Alert1000ms => 16,
            Effect::StrongClickOne100 => 17,
            Effect::StrongClickTwo80 => 18,
            Effect::StrongClickThree60 => 19,
            Effect::StrongClickFour30 => 20,
            Effect::MediumClickOne100 => 21,
            Effect::MediumClickTwo80 => 22,
            Effect::MediumClickThree60 => 23,
            Effect::SharpTickOne100 => 24,
            Effect::SharpTickTwo80 => 25,
            Effect::SharpTickThree60 => 26,
            Effect::ShortDoubleClickStrongOne100 => 27,
            Effect::ShortDoubleClickStrongTwo80 => 28,
            Effect::ShortDoubleClickStrongThree60 => 29,
            Effect::ShortDoubleClickStrongFour30 => 30,
            Effect::ShortDoubleClickMediumOne100 => 31,
            Effect::ShortDoubleClickMediumTwo80 => 32,
            Effect::ShortDoubleClickMediumThree60 => 33,
            Effect::ShortDoubleSharpTickOne100 => 34,
            Effect::ShortDoubleSharpTickTwo80 => 35,
            Effect::ShortDoubleSharpTickThree60 => 36,
            Effect::LongDoubleSharpClickStrongOne100 => 37,
            Effect::LongDoubleSharpClickStrongTwo80 => 38,
            Effect::LongDoubleSharpClickStrongThree60 => 39,
            Effect::LongDoubleSharpClickStrongFour30 => 40,
            Effect::LongDoubleSharpClickMediumOne100 => 41,
            Effect::LongDoubleSharpClickMediumTwo80 => 42,
            Effect::LongDoubleSharpClickMediumThree60 => 43,
            Effect::LongDoubleSharpTickOne100 => 44,
            Effect::LongDoubleSharpTickTwo80 => 45,
            Effect::LongDoubleSharpTickThree60 => 46,
            Effect::BuzzOne100 => 47,
            Effect::BuzzTwo80 => 48,
            Effect::BuzzThree60 => 49,
            Effect::BuzzFour40 => 50,
            Effect::BuzzFive20 => 51,
            Effect::PulsingStrongOne100 => 52,
            Effect::PulsingStrongTwo60 => 53,
            Effect::PulsingMediumOne100 => 54,
            Effect::PulsingMediumTwo60 => 55,
            Effect::PulsingSharpOne100 => 56,
            Effect::PulsingSharpTwo60 => 57,
            Effect::TransitionClickOne100 => 58,
            Effect::TransitionClickTwo80 => 59,
            Effect::TransitionClickThree60 => 60,
            Effect::TransitionClickFour40 => 61,
            Effect::TransitionClickFive20 => 62,
            Effect::TransitionClickSix10 => 63,
            Effect::TransitionHumOne100 => 64,
            Effect::TransitionHumTwo80 => 65,
            Effect::TransitionHumThree60 => 66,
            Effect::TransitionHumFour40 => 67,
            Effect::TransitionHumFive20 => 68,
            Effect::TransitionHumSix10 => 69,
            Effect::TransitionRampDownLongSmoothOne100to0 => 70,
            Effect::TransitionRampDownLongSmoothTwo100to0 => 71,
            Effect::TransitionRampDownMediumSmoothOne100to0 => 72,
            Effect::TransitionRampDownMediumSmoothTwo100to0 => 73,
            Effect::TransitionRampDownShortSmoothOne100to0 => 74,
            Effect::TransitionRampDownShortSmoothTwo100to0 => 75,
            Effect::TransitionRampDownLongSharpOne100to0 => 76,
            Effect::TransitionRampDownLongSharpTwo100to0 => 77,
            Effect::TransitionRampDownMediumSharpOne100to0 => 78,
            Effect::TransitionRampDownMediumSharpTwo100to0 => 79,
            Effect::TransitionRampDownShortSharpOne100to0 => 80,
            Effect::TransitionRampDownShortSharpTwo100to0 => 81,
            Effect::TransitionRampUpLongSmoothOne0to100 => 82,
            Effect::TransitionRampUpLongSmoothTwo0to100 => 83,
            Effect::TransitionRampUpMediumSmoothOne0to100 => 84,
            Effect::TransitionRampUpMediumSmoothTwo0to100 => 85,
            Effect::TransitionRampUpShortSmoothOne0to100 => 86,
            Effect::TransitionRampUpShortSmoothTwo0to100 => 87,
            Effect::TransitionRampUpLongSharpOne0to100 => 88,
            Effect::TransitionRampUpLongSharpTwo0to100 => 89,
            Effect::TransitionRampUpMediumSharpOne0to100 => 90,
            Effect::TransitionRampUpMediumSharpTwo0to100 => 91,
            Effect::TransitionRampUpShortSharpOne0to100 => 92,
            Effect::TransitionRampUpShortSharpTwo0to100 => 93,
            Effect::TransitionRampDownLongSmoothOne50to0 => 94,
            Effect::TransitionRampDownLongSmoothTwo50to0 => 95,
            Effect::TransitionRampDownMediumSmoothOne50to0 => 96,
            Effect::TransitionRampDownMediumSmoothTwo50to0 => 97,
            Effect::TransitionRampDownShortSmoothOne50to0 => 98,
            Effect::TransitionRampDownShortSmoothTwo50to0 => 99,
            Effect::TransitionRampDownLongSharpOne50to0 => 100,
            Effect::TransitionRampDownLongSharpTwo50to0 => 101,
            Effect::TransitionRampDownMediumSharpOne50to0 => 102,
            Effect::TransitionRampDownMediumSharpTwo50to0 => 103,
            Effect::TransitionRampDownShortSharpOne50to0 => 104,
            Effect::TransitionRampDownShortSharpTwo50to0 => 105,
            Effect::TransitionRampUpLongSmoothOne0to50 => 106,
            Effect::TransitionRampUpLongSmoothTwo0to50 => 107,
            Effect::TransitionRampUpMediumSmoothOne0to50 => 108,
            Effect::TransitionRampUpMediumSmoothTwo0to50 => 109,
            Effect::TransitionRampUpShortSmoothOne0to50 => 110,
            Effect::TransitionRampUpShortSmoothTwo0to50 => 111,
            Effect::TransitionRampUpLongSharpOne0to50 => 112,
            Effect::TransitionRampUpLongSharpTwo0to50 => 113,
            Effect::TransitionRampUpMediumSharpOne0to50 => 114,
            Effect::TransitionRampUpMediumSharpTwo0to50 => 115,
            Effect::TransitionRampUpShortSharpOne0to50 => 116,
            Effect::TransitionRampUpShortSharpTwo0to50 => 117,
            Effect::LongBuzzForProgrammaticStopping100 => 118,
            Effect::SmoothHumOne50 => 119,
            Effect::SmoothHumTwo40 => 120,
            Effect::SmoothHumThree30 => 121,
            Effect::SmoothHumFour20 => 122,
            Effect::SmoothHumFive10 => 123,
        }
    }

    /// Reads a sequencer byte back into the effect it stands for. The bytes
    /// 124 to 127 stand for nothing and give `None`.
    pub fn decode(byte: u8) -> (r: Option<Effect>)
        ensures
            r == decoded(byte),
            r is None <==> 124 <= byte <= 127,
            r matches Some(e) ==> e.code_of() == byte && e.is_canonical(),
    {
        let r = if byte >= 0x80 {
            assert((byte & 0x7F) < 128 && (byte & 0x7F) | 0x80 == byte) by (bit_vector)
                requires
                    byte >= 0x80,
            ;
            Some(Effect::Delays(byte & 0x7F))
        } else {
            match byte {
                0 => Some(Effect::Stop),
                1 => Some(Effect::StrongClick100),
                2 => Some(Effect::StrongClick60),
                3 => Some(Effect::StrongClick30),
                4 => Some(Effect::SharpClick100),
                5 => Some(Effect::SharpClick60),
                6 => Some(Effect::SharpClick30),
                7 => Some(Effect::SoftBump100),
                8 => Some(Effect::SoftBump60),
                9 => Some(Effect::SoftBump30),
                10 => Some(Effect::DoubleClick100),
                11 => Some(Effect::DoubleClick60),
                12 => Some(Effect::TripleClick100),
                13 => Some(Effect::SoftFuzz60),
                14 => Some(Effect::StrongBuzz100),
                15 => Some(Effect::Alert750ms),
                16 => Some(Effect::Alert1000ms),
                17 => Some(Effect::StrongClickOne100),
                18 => Some(Effect::StrongClickTwo80),
                19 => Some(Effect::StrongClickThree60),
                20 => Some(Effect::StrongClickFour30),
                21 => Some(Effect::MediumClickOne100),
                22 => Some(Effect::MediumClickTwo80),
                23 => Some(Effect::MediumClickThree60),
                24 => Some(Effect::SharpTickOne100),
                25 => Some(Effect::SharpTickTwo80),
                26 => Some(Effect::SharpTickThree60),
                27 => Some(Effect::ShortDoubleClickStrongOne100),
                28 => Some(Effect::ShortDoubleClickStrongTwo80),
                29 => Some(Effect::ShortDoubleClickStrongThree60),
                30 => Some(Effect::ShortDoubleClickStrongFour30),
                31 => Some(Effect::ShortDoubleClickMediumOne100),
                32 => Some(Effect::ShortDoubleClickMediumTwo80),
                33 => Some(Effect::ShortDoubleClickMediumThree60),
                34 => Some(Effect::ShortDoubleSharpTickOne100),
                35 => Some(Effect::ShortDoubleSharpTickTwo80),
                36 => Some(Effect::ShortDoubleSharpTickThree60),
                37 => Some(Effect::LongDoubleSharpClickStrongOne100),
                38 => Some(Effect::LongDoubleSharpClickStrongTwo80),
                39 => Some(Effect::LongDoubleSharpClickStrongThree60),
                40 => Some(Effect::LongDoubleSharpClickStrongFour30),
                41 => Some(Effect::LongDoubleSharpClickMediumOne100),
                42 => Some(Effect::LongDoubleSharpClickMediumTwo80),
                43 => Some(Effect::LongDoubleSharpClickMediumThree60),
                44 => Some(Effect::LongDoubleSharpTickOne100),
                45 => Some(Effect::LongDoubleSharpTickTwo80),
                46 => Some(Effect::LongDoubleSharpTickThree60),
                47 => Some(Effect::BuzzOne100),
                48 => Some(Effect::BuzzTwo80),
                49 => Some(Effect::BuzzThree60),
                50 => Some(Effect::BuzzFour40),
                51 => Some(Effect::BuzzFive20),
                52 => Some(Effect::PulsingStrongOne100),
                53 => Some(Effect::PulsingStrongTwo60),
                54 => Some(Effect::PulsingMediumOne100),
                55 => Some(Effect::PulsingMediumTwo60),
                56 => Some(Effect::PulsingSharpOne100),
                57 => Some(Effect::PulsingSharpTwo60),
                58 => Some(Effect::TransitionClickOne100),
                59 => Some(Effect::TransitionClickTwo80),
                60 => Some(Effect::TransitionClickThree60),
                61 => Some(Effect::TransitionClickFour40),
                62 => Some(Effect::TransitionClickFive20),
                63 => Some(Effect::TransitionClickSix10),
                64 => Some(Effect::TransitionHumOne100),
                65 => Some(Effect::TransitionHumTwo80),
                66 => Some(Effect::TransitionHumThree60),
                67 => Some(Effect::TransitionHumFour40),
                68 => Some(Effect::TransitionHumFive20),
                69 => Some(Effect::TransitionHumSix10),
                70 => Some(Effect::TransitionRampDownLongSmoothOne100to0),
                71 => Some(Effect::TransitionRampDownLongSmoothTwo100to0),
                72 => Some(Effect::TransitionRampDownMediumSmoothOne100to0),
                73 => Some(Effect::TransitionRampDownMediumSmoothTwo100to0),
                74 => Some(Effect::TransitionRampDownShortSmoothOne100to0),
                75 => Some(Effect::TransitionRampDownShortSmoothTwo100to0),
                76 => Some(Effect::TransitionRampDownLongSharpOne100to0),
                77 => Some(Effect::TransitionRampDownLongSharpTwo100to0),
                78 => Some(Effect::TransitionRampDownMediumSharpOne100to0),
                79 => Some(Effect::TransitionRampDownMediumSharpTwo100to0),
                80 => Some(Effect::TransitionRampDownShortSharpOne100to0),
                81 => Some(Effect::TransitionRampDownShortSharpTwo100to0),
                82 => Some(Effect::TransitionRampUpLongSmoothOne0to100),
                83 => Some(Effect::TransitionRampUpLongSmoothTwo0to100),
                84 => Some(Effect::TransitionRampUpMediumSmoothOne0to100),
                85 => Some(Effect::TransitionRampUpMediumSmoothTwo0to100),
                86 => Some(Effect::TransitionRampUpShortSmoothOne0to100),
                87 => Some(Effect::TransitionRampUpShortSmoothTwo0to100),
                88 => Some(Effect::TransitionRampUpLongSharpOne0to100),
                89 => Some(Effect::TransitionRampUpLongSharpTwo0to100),
                90 => Some(Effect::TransitionRampUpMediumSharpOne0to100),
                91 => Some(Effect::TransitionRampUpMediumSharpTwo0to100),
                92 => Some(Effect::TransitionRampUpShortSharpOne0to100),
                93 => Some(Effect::TransitionRampUpShortSharpTwo0to100),
                94 => Some(Effect::TransitionRampDownLongSmoothOne50to0),
                95 => Some(Effect::TransitionRampDownLongSmoothTwo50to0),
                96 => Some(Effect::TransitionRampDownMediumSmoothOne50to0),
                97 => Some(Effect::TransitionRampDownMediumSmoothTwo50to0),
                98 => Some(Effect::TransitionRampDownShortSmoothOne50to0),
                99 => Some(Effect::TransitionRampDownShortSmoothTwo50to0),
                100 => Some(Effect::TransitionRampDownLongSharpOne50to0),
                101 => Some(Effect::TransitionRampDownLongSharpTwo50to0),
                102 => Some(Effect::TransitionRampDownMediumSharpOne50to0),
                103 => Some(Effect::TransitionRampDownMediumSharpTwo50to0),
                104 => Some(Effect::TransitionRampDownShortSharpOne50to0),
                105 => Some(Effect::TransitionRampDownShortSharpTwo50to0),
                106 => Some(Effect::TransitionRampUpLongSmoothOne0to50),
                107 => Some(Effect::TransitionRampUpLongSmoothTwo0to50),
                108 => Some(Effect::TransitionRampUpMediumSmoothOne0to50),
                109 => Some(Effect::TransitionRampUpMediumSmoothTwo0to50),
                110 => Some(Effect::TransitionRampUpShortSmoothOne0to50),
                111 => Some(Effect::TransitionRampUpShortSmoothTwo0to50),
                112 => Some(Effect::TransitionRampUpLongSharpOne0to50),
                113 => Some(Effect::TransitionRampUpLongSharpTwo0to50),
                114 => Some(Effect::TransitionRampUpMediumSharpOne0to50),
                115 => Some(Effect::TransitionRampUpMediumSharpTwo0to50),
                116 => Some(Effect::TransitionRampUpShortSharpOne0to50),
                117 => Some(Effect::TransitionRampUpShortSharpTwo0to50),
                118 => Some(Effect::LongBuzzForProgrammaticStopping100),
                119 => Some(Effect::SmoothHumOne50),
                120 => Some(Effect::SmoothHumTwo40),
                121 => Some(Effect::SmoothHumThree30),
                122 => Some(Effect::SmoothHumFour20),
                123 => Some(Effect::SmoothHumFive10),
                _ => None,
            }
        };
        proof {
            match r {
                Some(e) => lemma_decoded_some(byte, e),
                None => lemma_decoded_none(byte),
            }
        }
        r
    }
}

impl From<Effect> for u8 {
    fn from(val: Effect) -> (r: u8) {
        val.code()
    }
}

impl FromSpecImpl<Effect> for u8 {
    open spec fn obeys_from_spec() -> bool {
        true
    }

    open spec fn from_spec(val: Effect) -> u8 {
        val.code_of()
    }
}

/// The register bytes of a sequence of effects, in order.
pub open spec fn codes_of(effects: Seq<Effect>) -> Seq<u8> {
    Seq::new(effects.len(), |i: int| effects[i].code_of())
}

/// The effect that a sequencer byte stands for: the canonical effect with
/// that byte as its code, if there is one.
pub open spec fn decoded(byte: u8) -> Option<Effect> {
    if exists|e: Effect| e.is_canonical() && #[trigger] e.code_of() == byte {
        Some(choose|e: Effect| e.is_canonical() && #[trigger] e.code_of() == byte)
    } else {
        None
    }
}

/// A pause sets the top bit and keeps its low seven bits.
pub proof fn lemma_delay_code(n: u8)
    ensures
        n | 0x80 >= 128,
        (n | 0x80) & 0x7F == n & 0x7F,
        n < 128 ==> (n | 0x80) & 0x7F == n,
        (n & 0x7F) < 128,
        (n & 0x7F) | 0x80 == n | 0x80,
{
    assert(n | 0x80 >= 128 && (n | 0x80) & 0x7F == n & 0x7F && (n < 128 ==> (n | 0x80) & 0x7F
        == n) && (n & 0x7F) < 128 && (n & 0x7F) | 0x80 == n | 0x80) by (bit_vector);
}

/// No two canonical effects share a byte.
pub proof fn lemma_code_injective(a: Effect, b: Effect)
    requires
        a.is_canonical(),
        b.is_canonical(),
        a.code_of() == b.code_of(),
    ensures
        a == b,
{
    if let Effect::Delays(n) = a {
        lemma_delay_code(n);
    }
    if let Effect::Delays(m) = b {
        lemma_delay_code(m);
    }
}

/// A canonical effect is what its own byte decodes to.
pub proof fn lemma_decoded_some(byte: u8, e: Effect)
    requires
        e.is_canonical(),
        e.code_of() == byte,
    ensures
        decoded(byte) == Some(e),
{
    let found = choose|x: Effect| x.is_canonical() && #[trigger] x.code_of() == byte;
    lemma_code_injective(found, e);
}

/// The bytes 124 to 127 are the code of no effect.
pub proof fn lemma_decoded_none(byte: u8)
    requires
        124 <= byte <= 127,
    ensures
        decoded(byte) is None,
{
    assert forall|e: Effect| #[trigger] e.code_of() != byte by {
        if let Effect::Delays(n) = e {
            lemma_delay_code(n);
        }
    }
}

/// Encoding an effect and decoding the byte gives the effect back. The one
/// exception is a pause of more than 127 steps, which comes back as the
/// pause of its low seven bits. In every case the decoded effect encodes to
/// the same byte again.
pub proof fn lemma_code_round_trip(e: Effect)
    ensures
        e.is_canonical() ==> decoded(e.code_of()) == Some(e),
        e matches Effect::Delays(n) ==> decoded(e.code_of()) == Some(Effect::Delays(n & 0x7F)),
        decoded(e.code_of()) matches Some(back) && back.code_of() == e.code_of(),
{
    match e {
        Effect::Delays(n) => {
            lemma_delay_code(n);
            lemma_decoded_some(e.code_of(), Effect::Delays(n & 0x7F));
        },
        _ => {
            lemma_decoded_some(e.code_of(), e);
        },
    }
}

/// Decoding a byte and encoding the effect gives the byte back.
pub proof fn lemma_decode_round_trip(byte: u8)
    ensures
        decoded(byte) matches Some(e) ==> e.code_of() == byte && e.is_canonical(),
{
}

} // verus!
