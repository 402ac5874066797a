//! The register map: addresses, operating modes, waveform libraries and the
//! bit fields of every control and status register.
//!
//! A register value wraps one byte. Its fields are read and written through
//! accessors only, so a field update can never disturb the bits around it.

use vstd::prelude::*;
use crate::bits::{
    bit_range, get_bit, get_field, read_bit, set_bit, set_bit_range, set_field, write_bit,
};
use crate::effect::Effect;

verus! {

/// The registers of the chip. Their addresses run from 0x00 to 0x22 in the
/// order of the variants.
#[derive(Clone, Copy, Debug, PartialEq, Eq, Structural)]
pub enum Register {
    /// Status flags and device identifier.
    Status,
    /// Reset, standby and operating mode.
    Mode,
    /// Drive level for real-time playback.
    RealTimePlaybackInput,
    /// High-impedance switch and waveform library.
    LibrarySelection,
    /// First slot of the waveform sequencer.
    WaveformSequence0,
    /// Second slot of the waveform sequencer.
    WaveformSequence1,
    /// Third slot of the waveform sequencer.
    WaveformSequence2,
    /// Fourth slot of the waveform sequencer.
    WaveformSequence3,
    /// Fifth slot of the waveform sequencer.
    WaveformSequence4,
    /// Sixth slot of the waveform sequencer.
    WaveformSequence5,
    /// Seventh slot of the waveform sequencer.
    WaveformSequence6,
    /// Eighth slot of the waveform sequencer.
    WaveformSequence7,
    /// GO bit.
    Go,
    /// Overdrive time offset.
    OverdriveTimeOffset,
    /// Positive sustain time offset.
    SustainTimeOffsetPositive,
    /// Negative sustain time offset.
    SustainTimeOffsetNegative,
    /// Brake time offset.
    BrakeTimeOffset,
    /// Audio-to-vibe control.
    AudioToVibeControl,
    /// Audio-to-vibe minimum input level.
    AudioToVibeMinimumInputLevel,
    /// Audio-to-vibe maximum input level.
    AudioToVibeMaximumInputLevel,
    /// Audio-to-vibe minimum output drive.
    AudioToVibeMinimumOutputDrive,
    /// Audio-to-vibe maximum output drive.
    AudioToVibeMaximumOutputDrive,
    /// Rated voltage of the actuator.
    RatedVoltage,
    /// Overdrive clamp voltage.
    OverdriveClampVoltage,
    /// Auto-calibration compensation result.
    AutoCalibrationCompensationResult,
    /// Auto-calibration back-EMF result.
    AutoCalibrationBackEMFResult,
    /// Feedback control.
    FeedbackControl,
    /// Control register 1.
    Control1,
    /// Control register 2.
    Control2,
    /// Control register 3.
    Control3,
    /// Control register 4.
    Control4,
    /// Control register 5.
    Control5,
    /// LRA open-loop period.
    LRAOpenLoopPeriod,
    /// Supply voltage monitor.
    VBatVoltageMonitor,
    /// Measured LRA resonance period.
    LraResonancePeriod,
}

impl Register {
    /// The bus address of the register.
    pub open spec fn addr_of(self) -> u8 {
        match self {
            Register::Status => 0x00,
            Register::Mode => 0x01,
            Register::RealTimePlaybackInput => 0x02,
            Register::LibrarySelection => 0x03,
            Register::WaveformSequence0 => 0x04,
            Register::WaveformSequence1 => 0x05,
            Register::WaveformSequence2 => 0x06,
            Register::WaveformSequence3 => 0x07,
            Register::WaveformSequence4 => 0x08,
            Register::WaveformSequence5 => 0x09,
            Register::WaveformSequence6 => 0x0a,
            Register::WaveformSequence7 => 0x0b,
            Register::Go => 0x0c,
            Register::OverdriveTimeOffset => 0x0d,
            Register::SustainTimeOffsetPositive => 0x0e,
            Register::SustainTimeOffsetNegative => 0x0f,
            Register::BrakeTimeOffset => 0x10,
            Register::AudioToVibeControl => 0x11,
            Register::AudioToVibeMinimumInputLevel => 0x12,
            Register::AudioToVibeMaximumInputLevel => 0x13,
            Register::AudioToVibeMinimumOutputDrive => 0x14,
            Register::AudioToVibeMaximumOutputDrive => 0x15,
            Register::RatedVoltage => 0x16,
            Register::OverdriveClampVoltage => 0x17,
            Register::AutoCalibrationCompensationResult => 0x18,
            Register::AutoCalibrationBackEMFResult => 0x19,
            Register::FeedbackControl => 0x1a,
            Register::Control1 => 0x1b,
            Register::Control2 => 0x1c,
            Register::Control3 => 0x1d,
            Register::Control4 => 0x1e,
            Register::Control5 => 0x1f,
            Register::LRAOpenLoopPeriod => 0x20,
            Register::VBatVoltageMonitor => 0x21,
            Register::LraResonancePeriod => 0x22,
        }
    }

    /// The bus address of the register.
    pub fn addr(self) -> (r: u8)
        ensures
            r == self.addr_of(),
    {
        match self {
            Register::Status => 0x00,
            Register::Mode => 0x01,
            Register::RealTimePlaybackInput => 0x02,
            Register::LibrarySelection => 0x03,
            Register::WaveformSequence0 => 0x04,
            Register::WaveformSequence1 => 0x05,
            Register::WaveformSequence2 => 0x06,
            Register::WaveformSequence3 => 0x07,
            Register::WaveformSequence4 => 0x08,
            Register::WaveformSequence5 => 0x09,
            Register::WaveformSequence6 => 0x0a,
            Register::WaveformSequence7 => 0x0b,
            Register::Go => 0x0c,
            Register::OverdriveTimeOffset => 0x0d,
            Register::SustainTimeOffsetPositive => 0x0e,
            Register::SustainTimeOffsetNegative => 0x0f,
            Register::BrakeTimeOffset => 0x10,
            Register::AudioToVibeControl => 0x11,
            Register::AudioToVibeMinimumInputLevel => 0x12,
            Register::AudioToVibeMaximumInputLevel => 0x13,
            Register::AudioToVibeMinimumOutputDrive => 0x14,
            Register::AudioToVibeMaximumOutputDrive => 0x15,
            Register::RatedVoltage => 0x16,
            Register::OverdriveClampVoltage => 0x17,
            Register::AutoCalibrationCompensationResult => 0x18,
            Register::AutoCalibrationBackEMFResult => 0x19,
            Register::FeedbackControl => 0x1a,
            Register::Control1 => 0x1b,
            Register::Control2 => 0x1c,
            Register::Control3 => 0x1d,
            Register::Control4 => 0x1e,
            Register::Control5 => 0x1f,
            Register::LRAOpenLoopPeriod => 0x20,
            Register::VBatVoltageMonitor => 0x21,
            Register::LraResonancePeriod => 0x22,
        }
    }
}

/// Operating modes, stored as a three-bit code in the mode register.
#[derive(Clone, Copy, Debug, PartialEq, Eq, Structural)]
pub enum Mode {
    /// Waveforms are fired by setting the GO bit.
    InternalTrigger,
    /// A rising edge on the IN/TRIG pin sets the GO bit; a second one cancels
    /// the waveform.
    ExternalTriggerRisingEdge,
    /// The GO bit follows the level of the IN/TRIG pin.
    ExternalTriggerLevel,
    /// A PWM or analog signal on the IN/TRIG pin drives the actuator.
    PwmInputAndAnalogInput,
    /// An AC-coupled audio signal on the IN/TRIG pin is turned into
    /// vibration.
    AudioToVibe,
    /// The actuator is driven with the content of the real-time playback
    /// register.
    RealTimePlayback,
    /// Runs a diagnostic test on the actuator when the GO bit is set.
    Diagnostics,
    /// Runs auto-calibration when the GO bit is set.
    AutoCalibration,
}

impl Mode {
    /// The three-bit code of the mode.
    pub open spec fn code_of(self) -> u8 {
        match self {
            Mode::InternalTrigger => 0,
            Mode::ExternalTriggerRisingEdge => 1,
            Mode::ExternalTriggerLevel => 2,
            Mode::PwmInputAndAnalogInput => 3,
            Mode::AudioToVibe => 4,
            Mode::RealTimePlayback => 5,
            Mode::Diagnostics => 6,
            Mode::AutoCalibration => 7,
        }
    }

    /// The three-bit code of the mode.
    pub fn code(self) -> (r: u8)
        ensures
            r == self.code_of(),
    {
        match self {
            Mode::InternalTrigger => 0,
            Mode::ExternalTriggerRisingEdge => 1,
            Mode::ExternalTriggerLevel => 2,
            Mode::PwmInputAndAnalogInput => 3,
            Mode::AudioToVibe => 4,
            Mode::RealTimePlayback => 5,
            Mode::Diagnostics => 6,
            Mode::AutoCalibration => 7,
        }
    }

    /// The mode with the three-bit code `val`.
    pub fn from(val: u8) -> (r: Mode)
        requires
            val <= 7,
        ensures
            r.code_of() == val,
    {
        if val == 0 {
            Mode::InternalTrigger
        } else if val == 1 {
            Mode::ExternalTriggerRisingEdge
        } else if val == 2 {
            Mode::ExternalTriggerLevel
        } else if val == 3 {
            Mode::PwmInputAndAnalogInput
        } else if val == 4 {
            Mode::AudioToVibe
        } else if val == 5 {
            Mode::RealTimePlayback
        } else if val == 6 {
            Mode::Diagnostics
        } else {
            Mode::AutoCalibration
        }
    }
}

/// Built-in waveform libraries. Each holds the same effects, tuned for a
/// different actuator, so the choice must match the motor.
#[derive(Clone, Copy, Debug, PartialEq, Eq, Structural)]
pub enum Library {
    /// No library selected.
    Empty,
    /// ERM, rated 1.3 V, overdrive 3 V, rise time 40-60 ms, brake time 20-40
    /// ms.
    A,
    /// ERM, rated 3 V, overdrive 3 V, rise time 40-60 ms, brake time 5-15 ms.
    B,
    /// ERM, rated 3 V, overdrive 3 V, rise time 60-80 ms, brake time 10-20
    /// ms.
    C,
    /// ERM, rated 3 V, overdrive 3 V, rise time 100-140 ms, brake time 15-25
    /// ms.
    D,
    /// ERM, rated 3 V, overdrive 3 V, rise time above 140 ms, brake time
    /// above 30 ms.
    E,
    /// The library for LRA actuators.
    Lra,
    /// ERM, rated 4.5 V, overdrive 5 V, rise time 35-45 ms, brake time 10-20
    /// ms.
    F,
}

impl Library {
    /// The three-bit code of the library.
    pub open spec fn code_of(self) -> u8 {
        match self {
            Library::Empty => 0,
            Library::A => 1,
            Library::B => 2,
            Library::C => 3,
            Library::D => 4,
            Library::E => 5,
            Library::Lra => 6,
            Library::F => 7,
        }
    }

    /// The three-bit code of the library.
    pub fn code(self) -> (r: u8)
        ensures
            r == self.code_of(),
    {
        match self {
            Library::Empty => 0,
            Library::A => 1,
            Library::B => 2,
            Library::C => 3,
            Library::D => 4,
            Library::E => 5,
            Library::Lra => 6,
            Library::F => 7,
        }
    }

    /// The library with the three-bit code `val`.
    pub fn from(val: u8) -> (r: Library)
        requires
            val <= 7,
        ensures
            r.code_of() == val,
    {
        if val == 0 {
            Library::Empty
        } else if val == 1 {
            Library::A
        } else if val == 2 {
            Library::B
        } else if val == 3 {
            Library::C
        } else if val == 4 {
            Library::D
        } else if val == 5 {
            Library::E
        } else if val == 6 {
            Library::Lra
        } else {
            Library::F
        }
    }
}

/// The lowest three bits of a byte, read as a field, never exceed 7.
pub proof fn lemma_three_bit_field(raw: u8)
    ensures
        get_field(raw, 2, 0) <= 7,
{
    assert(get_field(raw, 2, 0) <= 7) by (bit_vector);
}

/// Rated voltage register (0x16).
#[derive(Debug)]
pub struct RatedVoltageReg(pub u8);

impl Default for RatedVoltageReg {
    /// The value the register holds after power-up.
    fn default() -> (r: Self)
        ensures
            r.0 == 0x3E,
    {
        Self(0x3E)
    }
}

/// Overdrive clamp voltage register (0x17).
#[derive(Debug)]
pub struct OverdriveClampReg(pub u8);

impl Default for OverdriveClampReg {
    /// The value the register holds after power-up.
    fn default() -> (r: Self)
        ensures
            r.0 == 0x8C,
    {
        Self(0x8C)
    }
}

/// Auto-calibration compensation result register (0x18).
#[derive(Debug)]
pub struct AutoCalibrationCompensationReg(pub u8);

impl Default for AutoCalibrationCompensationReg {
    /// The value the register holds after power-up.
    fn default() -> (r: Self)
        ensures
            r.0 == 0x0C,
    {
        Self(0x0C)
    }
}

/// Auto-calibration back-EMF result register (0x19).
#[derive(Debug)]
pub struct AutoCalibrationCompensationBackEmfReg(pub u8);

impl Default for AutoCalibrationCompensationBackEmfReg {
    /// The value the register holds after power-up.
    fn default() -> (r: Self)
        ensures
            r.0 == 0x6C,
    {
        Self(0x6C)
    }
}

/// Overdrive time offset register (0x0D).
#[derive(Debug)]
pub struct OverdriveTimeOffsetReg(pub u8);

impl Default for OverdriveTimeOffsetReg {
    /// The value the register holds after power-up.
    fn default() -> (r: Self)
        ensures
            r.0 == 0x0,
    {
        Self(0x0)
    }
}

/// Positive sustain time offset register (0x0E).
#[derive(Debug)]
pub struct SustainTimeOffsetPositiveReg(pub u8);

impl Default for SustainTimeOffsetPositiveReg {
    /// The value the register holds after power-up.
    fn default() -> (r: Self)
        ensures
            r.0 == 0x0,
    {
        Self(0x0)
    }
}

/// Negative sustain time offset register (0x0F).
#[derive(Debug)]
pub struct SustainTimeOffsetNegativeReg(pub u8);

impl Default for SustainTimeOffsetNegativeReg {
    /// The value the register holds after power-up.
    fn default() -> (r: Self)
        ensures
            r.0 == 0x0,
    {
        Self(0x0)
    }
}

/// Brake time offset register (0x10).
#[derive(Debug)]
pub struct BrakeTimeOffsetReg(pub u8);

impl Default for BrakeTimeOffsetReg {
    /// The value the register holds after power-up.
    fn default() -> (r: Self)
        ensures
            r.0 == 0x0,
    {
        Self(0x0)
    }
}

/// Status register (0x00). The flags latch and clear when the register is
/// read. The view of a value is its raw byte.
#[derive(Clone, Copy, Debug)]
pub struct StatusReg {
    raw: u8,
}

impl View for StatusReg {
    type V = u8;

    closed spec fn view(&self) -> u8 {
        self.raw
    }
}

impl StatusReg {
    // Bit positions of the fields.
    pub const OC_DETECTED: u8 = 0;
    pub const OVER_TEMP: u8 = 1;
    pub const FEEDBACK_CONTROLLER_TIMED_OUT: u8 = 2;
    pub const DIAGNOSTIC_RESULT: u8 = 3;
    pub const DEVICE_ID_MSB: u8 = 7;
    pub const DEVICE_ID_LSB: u8 = 5;

    /// Wraps a raw register byte.
    pub fn new(raw: u8) -> (r: Self)
        ensures
            r@ == raw,
    {
        StatusReg { raw }
    }

    /// The raw register byte.
    pub fn bits(&self) -> (r: u8)
        ensures
            r == self@,
    {
        self.raw
    }

    /// Overcurrent was detected on the output.
    pub fn oc_detected(&self) -> (r: bool)
        ensures
            r == get_bit(self@, Self::OC_DETECTED),
    {
        read_bit(self.raw, Self::OC_DETECTED)
    }

    /// The chip exceeded its temperature threshold.
    pub fn over_temp(&self) -> (r: bool)
        ensures
            r == get_bit(self@, Self::OVER_TEMP),
    {
        read_bit(self.raw, Self::OVER_TEMP)
    }

    /// The feedback controller lost the back-EMF signal (ERM) or the
    /// frequency lock (LRA).
    pub fn feedback_controller_timed_out(&self) -> (r: bool)
        ensures
            r == get_bit(self@, Self::FEEDBACK_CONTROLLER_TIMED_OUT),
    {
        read_bit(self.raw, Self::FEEDBACK_CONTROLLER_TIMED_OUT)
    }

    /// Result of the last auto-calibration or diagnostic run; set when it
    /// failed. Valid only once the GO bit has cleared.
    pub fn diagnostic_result(&self) -> (r: bool)
        ensures
            r == get_bit(self@, Self::DIAGNOSTIC_RESULT),
    {
        read_bit(self.raw, Self::DIAGNOSTIC_RESULT)
    }

    /// Part identifier: 3 DRV2605, 4 DRV2604, 6 DRV2604L, 7 DRV2605L.
    pub fn device_id(&self) -> (r: u8)
        ensures
            r == get_field(self@, Self::DEVICE_ID_MSB, Self::DEVICE_ID_LSB),
    {
        bit_range(self.raw, Self::DEVICE_ID_MSB, Self::DEVICE_ID_LSB)
    }
}

/// Mode register (0x01). The view of a value is its raw byte.
#[derive(Clone, Copy, Debug)]
pub struct ModeReg {
    raw: u8,
}

impl View for ModeReg {
    type V = u8;

    closed spec fn view(&self) -> u8 {
        self.raw
    }
}

impl ModeReg {
    // Bit positions of the fields.
    pub const DEV_RESET: u8 = 7;
    pub const STANDBY: u8 = 6;
    pub const MODE_MSB: u8 = 2;
    pub const MODE_LSB: u8 = 0;

    /// The value the register holds after power-up.
    pub const RESET_VALUE: u8 = 0x40;

    /// Wraps a raw register byte.
    pub fn new(raw: u8) -> (r: Self)
        ensures
            r@ == raw,
    {
        ModeReg { raw }
    }

    /// The raw register byte.
    pub fn bits(&self) -> (r: u8)
        ensures
            r == self@,
    {
        self.raw
    }

    /// Device reset. Setting it restores every register to its default; the
    /// chip clears it when the reset is done.
    pub fn dev_reset(&self) -> (r: bool)
        ensures
            r == get_bit(self@, Self::DEV_RESET),
    {
        read_bit(self.raw, Self::DEV_RESET)
    }

    /// Sets or clears the bit that `dev_reset` reads.
    pub fn set_dev_reset(&mut self, value: bool)
        ensures
            final(self)@ == set_bit(old(self)@, Self::DEV_RESET, value),
    {
        write_bit(&mut self.raw, Self::DEV_RESET, value)
    }

    /// Software standby: set while the chip is parked in its low-power state.
    pub fn standby(&self) -> (r: bool)
        ensures
            r == get_bit(self@, Self::STANDBY),
    {
        read_bit(self.raw, Self::STANDBY)
    }

    /// Sets or clears the bit that `standby` reads.
    pub fn set_standby(&mut self, value: bool)
        ensures
            final(self)@ == set_bit(old(self)@, Self::STANDBY, value),
    {
        write_bit(&mut self.raw, Self::STANDBY, value)
    }

    /// Operating mode code.
    pub fn mode(&self) -> (r: Mode)
        ensures
            r.code_of() == get_field(self@, Self::MODE_MSB, Self::MODE_LSB),
    {
        let code: u8 = bit_range(self.raw, Self::MODE_MSB, Self::MODE_LSB);
        proof {
            lemma_three_bit_field(self.raw);
        }
        Mode::from(code)
    }

    /// Stores the low bits of `value` in the field that `mode` reads.
    pub fn set_mode(&mut self, value: u8)
        ensures
            final(self)@ == set_field(old(self)@, Self::MODE_MSB, Self::MODE_LSB, value),
    {
        set_bit_range(&mut self.raw, Self::MODE_MSB, Self::MODE_LSB, value)
    }
}

impl Default for ModeReg {
    fn default() -> (r: Self)
        ensures
            r@ == Self::RESET_VALUE,
    {
        let mut reg = ModeReg::new(0);
        reg.set_dev_reset(false);
        reg.set_standby(true);
        reg.set_mode(Mode::InternalTrigger.code());
        assert(
            set_field(
                set_bit(set_bit(0, ModeReg::DEV_RESET, false), ModeReg::STANDBY, true),
                ModeReg::MODE_MSB,
                ModeReg::MODE_LSB,
                0,
            ) == 0x40
        ) by (bit_vector);
        reg
    }
}

/// Library selection register (0x03). The view of a value is its raw byte.
#[derive(Clone, Copy, Debug)]
pub struct LibrarySelectionReg {
    raw: u8,
}

impl View for LibrarySelectionReg {
    type V = u8;

    closed spec fn view(&self) -> u8 {
        self.raw
    }
}

impl LibrarySelectionReg {
    // Bit positions of the fields.
    pub const HI_Z: u8 = 4;
    pub const LIBRARY_SELECTION_MSB: u8 = 2;
    pub const LIBRARY_SELECTION_LSB: u8 = 0;

    /// Wraps a raw register byte.
    pub fn new(raw: u8) -> (r: Self)
        ensures
            r@ == raw,
    {
        LibrarySelectionReg { raw }
    }

    /// The raw register byte.
    pub fn bits(&self) -> (r: u8)
        ensures
            r == self@,
    {
        self.raw
    }

    /// Puts the output driver into a true high-impedance state.
    pub fn hi_z(&self) -> (r: bool)
        ensures
            r == get_bit(self@, Self::HI_Z),
    {
        read_bit(self.raw, Self::HI_Z)
    }

    /// Sets or clears the bit that `hi_z` reads.
    pub fn set_hi_z(&mut self, value: bool)
        ensures
            final(self)@ == set_bit(old(self)@, Self::HI_Z, value),
    {
        write_bit(&mut self.raw, Self::HI_Z, value)
    }

    /// Waveform library the playback engine reads from.
    pub fn library_selection(&self) -> (r: Library)
        ensures
            r.code_of() == get_field(
                self@,
                Self::LIBRARY_SELECTION_MSB,
                Self::LIBRARY_SELECTION_LSB,
            ),
    {
        let code: u8 = bit_range(
            self.raw,
            Self::LIBRARY_SELECTION_MSB,
            Self::LIBRARY_SELECTION_LSB,
        );
        proof {
            lemma_three_bit_field(self.raw);
        }
        Library::from(code)
    }

    /// Stores the low bits of `value` in the field that `library_selection` reads.
    pub fn set_library_selection(&mut self, value: u8)
        ensures
            final(self)@ == set_field(
                old(self)@,
                Self::LIBRARY_SELECTION_MSB,
                Self::LIBRARY_SELECTION_LSB,
                value,
            ),
    {
        set_bit_range(
            &mut self.raw,
            Self::LIBRARY_SELECTION_MSB,
            Self::LIBRARY_SELECTION_LSB,
            value,
        )
    }
}

/// GO register (0x0C). The view of a value is its raw byte.
#[derive(Clone, Copy, Debug)]
pub struct GoReg {
    raw: u8,
}

impl View for GoReg {
    type V = u8;

    closed spec fn view(&self) -> u8 {
        self.raw
    }
}

impl GoReg {
    // Bit positions of the fields.
    pub const GO: u8 = 0;

    /// Wraps a raw register byte.
    pub fn new(raw: u8) -> (r: Self)
        ensures
            r@ == raw,
    {
        GoReg { raw }
    }

    /// The raw register byte.
    pub fn bits(&self) -> (r: u8)
        ensures
            r == self@,
    {
        self.raw
    }

    /// Starts playback, calibration or diagnostics when set; the chip clears
    /// it on completion.
    pub fn go(&self) -> (r: bool)
        ensures
            r == get_bit(self@, Self::GO),
    {
        read_bit(self.raw, Self::GO)
    }

    /// Sets or clears the bit that `go` reads.
    pub fn set_go(&mut self, value: bool)
        ensures
            final(self)@ == set_bit(old(self)@, Self::GO, value),
    {
        write_bit(&mut self.raw, Self::GO, value)
    }
}

/// Feedback control register (0x1A). The view of a value is its raw byte.
#[derive(Clone, Copy, Debug)]
pub struct FeedbackControlReg {
    raw: u8,
}

impl View for FeedbackControlReg {
    type V = u8;

    closed spec fn view(&self) -> u8 {
        self.raw
    }
}

impl FeedbackControlReg {
    // Bit positions of the fields.
    pub const N_ERM_LRA: u8 = 7;
    pub const FB_BRAKE_FACTOR_MSB: u8 = 6;
    pub const FB_BRAKE_FACTOR_LSB: u8 = 4;
    pub const LOOP_GAIN_MSB: u8 = 3;
    pub const LOOP_GAIN_LSB: u8 = 2;
    pub const BEMF_GAIN_MSB: u8 = 1;
    pub const BEMF_GAIN_LSB: u8 = 0;

    /// The value the register holds after power-up.
    pub const RESET_VALUE: u8 = 0x36;

    /// Wraps a raw register byte.
    pub fn new(raw: u8) -> (r: Self)
        ensures
            r@ == raw,
    {
        FeedbackControlReg { raw }
    }

    /// The raw register byte.
    pub fn bits(&self) -> (r: u8)
        ensures
            r == self@,
    {
        self.raw
    }

    /// Actuator type: clear for ERM, set for LRA.
    pub fn n_erm_lra(&self) -> (r: bool)
        ensures
            r == get_bit(self@, Self::N_ERM_LRA),
    {
        read_bit(self.raw, Self::N_ERM_LRA)
    }

    /// Sets or clears the bit that `n_erm_lra` reads.
    pub fn set_n_erm_lra(&mut self, value: bool)
        ensures
            final(self)@ == set_bit(old(self)@, Self::N_ERM_LRA, value),
    {
        write_bit(&mut self.raw, Self::N_ERM_LRA, value)
    }

    /// Ratio of braking gain to driving gain.
    pub fn fb_brake_factor(&self) -> (r: u8)
        ensures
            r == get_field(self@, Self::FB_BRAKE_FACTOR_MSB, Self::FB_BRAKE_FACTOR_LSB),
    {
        bit_range(self.raw, Self::FB_BRAKE_FACTOR_MSB, Self::FB_BRAKE_FACTOR_LSB)
    }

    /// Stores the low bits of `value` in the field that `fb_brake_factor` reads.
    pub fn set_fb_brake_factor(&mut self, value: u8)
        ensures
            final(self)@ == set_field(
                old(self)@,
                Self::FB_BRAKE_FACTOR_MSB,
                Self::FB_BRAKE_FACTOR_LSB,
                value,
            ),
    {
        set_bit_range(&mut self.raw, Self::FB_BRAKE_FACTOR_MSB, Self::FB_BRAKE_FACTOR_LSB, value)
    }

    /// Gain of the feedback loop.
    pub fn loop_gain(&self) -> (r: u8)
        ensures
            r == get_field(self@, Self::LOOP_GAIN_MSB, Self::LOOP_GAIN_LSB),
    {
        bit_range(self.raw, Self::LOOP_GAIN_MSB, Self::LOOP_GAIN_LSB)
    }

    /// Stores the low bits of `value` in the field that `loop_gain` reads.
    pub fn set_loop_gain(&mut self, value: u8)
        ensures
            final(self)@ == set_field(old(self)@, Self::LOOP_GAIN_MSB, Self::LOOP_GAIN_LSB, value),
    {
        set_bit_range(&mut self.raw, Self::LOOP_GAIN_MSB, Self::LOOP_GAIN_LSB, value)
    }

    /// Analog gain of the back-EMF amplifier; auto-calibration writes it.
    pub fn bemf_gain(&self) -> (r: u8)
        ensures
            r == get_field(self@, Self::BEMF_GAIN_MSB, Self::BEMF_GAIN_LSB),
    {
        bit_range(self.raw, Self::BEMF_GAIN_MSB, Self::BEMF_GAIN_LSB)
    }

    /// Stores the low bits of `value` in the field that `bemf_gain` reads.
    pub fn set_bemf_gain(&mut self, value: u8)
        ensures
            final(self)@ == set_field(old(self)@, Self::BEMF_GAIN_MSB, Self::BEMF_GAIN_LSB, value),
    {
        set_bit_range(&mut self.raw, Self::BEMF_GAIN_MSB, Self::BEMF_GAIN_LSB, value)
    }
}

impl Default for FeedbackControlReg {
    fn default() -> (r: Self)
        ensures
            r@ == Self::RESET_VALUE,
    {
        let mut reg = FeedbackControlReg::new(0);
        reg.set_n_erm_lra(false);
        reg.set_fb_brake_factor(0x3);
        reg.set_loop_gain(0x1);
        reg.set_bemf_gain(0x2);
        assert(
            set_field(
                set_field(
                    set_field(
                        set_bit(0, FeedbackControlReg::N_ERM_LRA, false),
                        FeedbackControlReg::FB_BRAKE_FACTOR_MSB,
                        FeedbackControlReg::FB_BRAKE_FACTOR_LSB,
                        0x3,
                    ),
                    FeedbackControlReg::LOOP_GAIN_MSB,
                    FeedbackControlReg::LOOP_GAIN_LSB,
                    0x1,
                ),
                FeedbackControlReg::BEMF_GAIN_MSB,
                FeedbackControlReg::BEMF_GAIN_LSB,
                0x2,
            ) == 0x36
        ) by (bit_vector);
        reg
    }
}

/// Control register 1 (0x1B). The view of a value is its raw byte.
#[derive(Clone, Copy, Debug)]
pub struct Control1Reg {
    raw: u8,
}

impl View for Control1Reg {
    type V = u8;

    closed spec fn view(&self) -> u8 {
        self.raw
    }
}

impl Control1Reg {
    // Bit positions of the fields.
    pub const STARTUP_BOOST: u8 = 7;
    pub const AC_COUPLE: u8 = 5;
    pub const DRIVE_TIME_MSB: u8 = 4;
    pub const DRIVE_TIME_LSB: u8 = 0;

    /// The value the register holds after power-up.
    pub const RESET_VALUE: u8 = 0x93;

    /// Wraps a raw register byte.
    pub fn new(raw: u8) -> (r: Self)
        ensures
            r@ == raw,
    {
        Control1Reg { raw }
    }

    /// The raw register byte.
    pub fn bits(&self) -> (r: u8)
        ensures
            r == self@,
    {
        self.raw
    }

    /// Applies a higher loop gain during overdrive.
    pub fn startup_boost(&self) -> (r: bool)
        ensures
            r == get_bit(self@, Self::STARTUP_BOOST),
    {
        read_bit(self.raw, Self::STARTUP_BOOST)
    }

    /// Sets or clears the bit that `startup_boost` reads.
    pub fn set_startup_boost(&mut self, value: bool)
        ensures
            final(self)@ == set_bit(old(self)@, Self::STARTUP_BOOST, value),
    {
        write_bit(&mut self.raw, Self::STARTUP_BOOST, value)
    }

    /// Applies a 0.9 V common-mode bias to the IN/TRIG pin for AC-coupled
    /// analog input.
    pub fn ac_couple(&self) -> (r: bool)
        ensures
            r == get_bit(self@, Self::AC_COUPLE),
    {
        read_bit(self.raw, Self::AC_COUPLE)
    }

    /// Sets or clears the bit that `ac_couple` reads.
    pub fn set_ac_couple(&mut self, value: bool)
        ensures
            final(self)@ == set_bit(old(self)@, Self::AC_COUPLE, value),
    {
        write_bit(&mut self.raw, Self::AC_COUPLE, value)
    }

    /// Initial guess of the LRA drive time, or the ERM sample rate.
    pub fn drive_time(&self) -> (r: u8)
        ensures
            r == get_field(self@, Self::DRIVE_TIME_MSB, Self::DRIVE_TIME_LSB),
    {
        bit_range(self.raw, Self::DRIVE_TIME_MSB, Self::DRIVE_TIME_LSB)
    }

    /// Stores the low bits of `value` in the field that `drive_time` reads.
    pub fn set_drive_time(&mut self, value: u8)
        ensures
            final(self)@ == set_field(
                old(self)@,
                Self::DRIVE_TIME_MSB,
                Self::DRIVE_TIME_LSB,
                value,
            ),
    {
        set_bit_range(&mut self.raw, Self::DRIVE_TIME_MSB, Self::DRIVE_TIME_LSB, value)
    }
}

impl Default for Control1Reg {
    fn default() -> (r: Self)
        ensures
            r@ == Self::RESET_VALUE,
    {
        let mut reg = Control1Reg::new(0);
        reg.set_startup_boost(true);
        reg.set_ac_couple(false);
        reg.set_drive_time(0x13);
        assert(
            set_field(
                set_bit(
                    set_bit(0, Control1Reg::STARTUP_BOOST, true),
                    Control1Reg::AC_COUPLE,
                    false,
                ),
                Control1Reg::DRIVE_TIME_MSB,
                Control1Reg::DRIVE_TIME_LSB,
                0x13,
            ) == 0x93
        ) by (bit_vector);
        reg
    }
}

/// Control register 2 (0x1C). The view of a value is its raw byte.
#[derive(Clone, Copy, Debug)]
pub struct Control2Reg {
    raw: u8,
}

impl View for Control2Reg {
    type V = u8;

    closed spec fn view(&self) -> u8 {
        self.raw
    }
}

impl Control2Reg {
    // Bit positions of the fields.
    pub const BIDIR_INPUT: u8 = 7;
    pub const BRAKE_STABILIZER: u8 = 6;
    pub const SAMPLE_TIME_MSB: u8 = 5;
    pub const SAMPLE_TIME_LSB: u8 = 4;
    pub const BLANKING_TIME_MSB: u8 = 3;
    pub const BLANKING_TIME_LSB: u8 = 2;
    pub const IDISS_TIME_MSB: u8 = 1;
    pub const IDISS_TIME_LSB: u8 = 0;

    /// The value the register holds after power-up.
    pub const RESET_VALUE: u8 = 0xF5;

    /// Wraps a raw register byte.
    pub fn new(raw: u8) -> (r: Self)
        ensures
            r@ == raw,
    {
        Control2Reg { raw }
    }

    /// The raw register byte.
    pub fn bits(&self) -> (r: u8)
        ensures
            r == self@,
    {
        self.raw
    }

    /// Selects bidirectional input interpretation in closed loop.
    pub fn bidir_input(&self) -> (r: bool)
        ensures
            r == get_bit(self@, Self::BIDIR_INPUT),
    {
        read_bit(self.raw, Self::BIDIR_INPUT)
    }

    /// Sets or clears the bit that `bidir_input` reads.
    pub fn set_bidir_input(&mut self, value: bool)
        ensures
            final(self)@ == set_bit(old(self)@, Self::BIDIR_INPUT, value),
    {
        write_bit(&mut self.raw, Self::BIDIR_INPUT, value)
    }

    /// Lowers the loop gain when braking is almost complete.
    pub fn brake_stabilizer(&self) -> (r: bool)
        ensures
            r == get_bit(self@, Self::BRAKE_STABILIZER),
    {
        read_bit(self.raw, Self::BRAKE_STABILIZER)
    }

    /// Sets or clears the bit that `brake_stabilizer` reads.
    pub fn set_brake_stabilizer(&mut self, value: bool)
        ensures
            final(self)@ == set_bit(old(self)@, Self::BRAKE_STABILIZER, value),
    {
        write_bit(&mut self.raw, Self::BRAKE_STABILIZER, value)
    }

    /// LRA auto-resonance sampling time.
    pub fn sample_time(&self) -> (r: u8)
        ensures
            r == get_field(self@, Self::SAMPLE_TIME_MSB, Self::SAMPLE_TIME_LSB),
    {
        bit_range(self.raw, Self::SAMPLE_TIME_MSB, Self::SAMPLE_TIME_LSB)
    }

    /// Stores the low bits of `value` in the field that `sample_time` reads.
    pub fn set_sample_time(&mut self, value: u8)
        ensures
            final(self)@ == set_field(
                old(self)@,
                Self::SAMPLE_TIME_MSB,
                Self::SAMPLE_TIME_LSB,
                value,
            ),
    {
        set_bit_range(&mut self.raw, Self::SAMPLE_TIME_MSB, Self::SAMPLE_TIME_LSB, value)
    }

    /// Time between the end of a drive period and the back-EMF measurement.
    pub fn blanking_time(&self) -> (r: u8)
        ensures
            r == get_field(self@, Self::BLANKING_TIME_MSB, Self::BLANKING_TIME_LSB),
    {
        bit_range(self.raw, Self::BLANKING_TIME_MSB, Self::BLANKING_TIME_LSB)
    }

    /// Stores the low bits of `value` in the field that `blanking_time` reads.
    pub fn set_blanking_time(&mut self, value: u8)
        ensures
            final(self)@ == set_field(
                old(self)@,
                Self::BLANKING_TIME_MSB,
                Self::BLANKING_TIME_LSB,
                value,
            ),
    {
        set_bit_range(&mut self.raw, Self::BLANKING_TIME_MSB, Self::BLANKING_TIME_LSB, value)
    }

    /// Time allowed for the actuator current to dissipate.
    pub fn idiss_time(&self) -> (r: u8)
        ensures
            r == get_field(self@, Self::IDISS_TIME_MSB, Self::IDISS_TIME_LSB),
    {
        bit_range(self.raw, Self::IDISS_TIME_MSB, Self::IDISS_TIME_LSB)
    }

    /// Stores the low bits of `value` in the field that `idiss_time` reads.
    pub fn set_idiss_time(&mut self, value: u8)
        ensures
            final(self)@ == set_field(
                old(self)@,
                Self::IDISS_TIME_MSB,
                Self::IDISS_TIME_LSB,
                value,
            ),
    {
        set_bit_range(&mut self.raw, Self::IDISS_TIME_MSB, Self::IDISS_TIME_LSB, value)
    }
}

impl Default for Control2Reg {
    fn default() -> (r: Self)
        ensures
            r@ == Self::RESET_VALUE,
    {
        let mut reg = Control2Reg::new(0);
        reg.set_bidir_input(true);
        reg.set_brake_stabilizer(true);
        reg.set_sample_time(0x3);
        reg.set_blanking_time(0x1);
        reg.set_idiss_time(0x1);
        assert(
            set_field(
                set_field(
                    set_field(
                        set_bit(
                            set_bit(0, Control2Reg::BIDIR_INPUT, true),
                            Control2Reg::BRAKE_STABILIZER,
                            true,
                        ),
                        Control2Reg::SAMPLE_TIME_MSB,
                        Control2Reg::SAMPLE_TIME_LSB,
                        0x3,
                    ),
                    Control2Reg::BLANKING_TIME_MSB,
                    Control2Reg::BLANKING_TIME_LSB,
                    0x1,
                ),
                Control2Reg::IDISS_TIME_MSB,
                Control2Reg::IDISS_TIME_LSB,
                0x1,
            ) == 0xF5
        ) by (bit_vector);
        reg
    }
}

/// Control register 3 (0x1D). The view of a value is its raw byte.
#[derive(Clone, Copy, Debug)]
pub struct Control3Reg {
    raw: u8,
}

impl View for Control3Reg {
    type V = u8;

    closed spec fn view(&self) -> u8 {
        self.raw
    }
}

impl Control3Reg {
    // Bit positions of the fields.
    pub const NG_THRESH_MSB: u8 = 7;
    pub const NG_THRESH_LSB: u8 = 6;
    pub const ERM_OPEN_LOOP: u8 = 5;
    pub const SUPPLY_COMP_DIS: u8 = 4;
    pub const DATA_FORMAT_RTP: u8 = 3;
    pub const LRA_DRIVE_MODE: u8 = 2;
    pub const N_PWM_ANALOG: u8 = 1;
    pub const LRA_OPEN_LOOP: u8 = 0;

    /// The value the register holds after power-up.
    pub const RESET_VALUE: u8 = 0xA0;

    /// Wraps a raw register byte.
    pub fn new(raw: u8) -> (r: Self)
        ensures
            r@ == raw,
    {
        Control3Reg { raw }
    }

    /// The raw register byte.
    pub fn bits(&self) -> (r: u8)
        ensures
            r == self@,
    {
        self.raw
    }

    /// Noise-gate threshold for the PWM and analog inputs.
    pub fn ng_thresh(&self) -> (r: u8)
        ensures
            r == get_field(self@, Self::NG_THRESH_MSB, Self::NG_THRESH_LSB),
    {
        bit_range(self.raw, Self::NG_THRESH_MSB, Self::NG_THRESH_LSB)
    }

    /// Stores the low bits of `value` in the field that `ng_thresh` reads.
    pub fn set_ng_thresh(&mut self, value: u8)
        ensures
            final(self)@ == set_field(old(self)@, Self::NG_THRESH_MSB, Self::NG_THRESH_LSB, value),
    {
        set_bit_range(&mut self.raw, Self::NG_THRESH_MSB, Self::NG_THRESH_LSB, value)
    }

    /// Drives an ERM actuator open loop when set, closed loop when clear.
    pub fn erm_open_loop(&self) -> (r: bool)
        ensures
            r == get_bit(self@, Self::ERM_OPEN_LOOP),
    {
        read_bit(self.raw, Self::ERM_OPEN_LOOP)
    }

    /// Sets or clears the bit that `erm_open_loop` reads.
    pub fn set_erm_open_loop(&mut self, value: bool)
        ensures
            final(self)@ == set_bit(old(self)@, Self::ERM_OPEN_LOOP, value),
    {
        write_bit(&mut self.raw, Self::ERM_OPEN_LOOP, value)
    }

    /// Disables supply compensation.
    pub fn supply_comp_dis(&self) -> (r: bool)
        ensures
            r == get_bit(self@, Self::SUPPLY_COMP_DIS),
    {
        read_bit(self.raw, Self::SUPPLY_COMP_DIS)
    }

    /// Sets or clears the bit that `supply_comp_dis` reads.
    pub fn set_supply_comp_dis(&mut self, value: bool)
        ensures
            final(self)@ == set_bit(old(self)@, Self::SUPPLY_COMP_DIS, value),
    {
        write_bit(&mut self.raw, Self::SUPPLY_COMP_DIS, value)
    }

    /// Real-time playback data format: clear for signed, set for unsigned.
    pub fn data_format_rtp(&self) -> (r: bool)
        ensures
            r == get_bit(self@, Self::DATA_FORMAT_RTP),
    {
        read_bit(self.raw, Self::DATA_FORMAT_RTP)
    }

    /// Sets or clears the bit that `data_format_rtp` reads.
    pub fn set_data_format_rtp(&mut self, value: bool)
        ensures
            final(self)@ == set_bit(old(self)@, Self::DATA_FORMAT_RTP, value),
    {
        write_bit(&mut self.raw, Self::DATA_FORMAT_RTP, value)
    }

    /// LRA drive mode: clear for once per cycle, set for twice per cycle.
    pub fn lra_drive_mode(&self) -> (r: bool)
        ensures
            r == get_bit(self@, Self::LRA_DRIVE_MODE),
    {
        read_bit(self.raw, Self::LRA_DRIVE_MODE)
    }

    /// Sets or clears the bit that `lra_drive_mode` reads.
    pub fn set_lra_drive_mode(&mut self, value: bool)
        ensures
            final(self)@ == set_bit(old(self)@, Self::LRA_DRIVE_MODE, value),
    {
        write_bit(&mut self.raw, Self::LRA_DRIVE_MODE, value)
    }

    /// Input mode of the IN/TRIG pin: clear for PWM, set for analog.
    pub fn n_pwm_analog(&self) -> (r: bool)
        ensures
            r == get_bit(self@, Self::N_PWM_ANALOG),
    {
        read_bit(self.raw, Self::N_PWM_ANALOG)
    }

    /// Sets or clears the bit that `n_pwm_analog` reads.
    pub fn set_n_pwm_analog(&mut self, value: bool)
        ensures
            final(self)@ == set_bit(old(self)@, Self::N_PWM_ANALOG, value),
    {
        write_bit(&mut self.raw, Self::N_PWM_ANALOG, value)
    }

    /// Drives an LRA actuator open loop when set, with auto-resonance when
    /// clear.
    pub fn lra_open_loop(&self) -> (r: bool)
        ensures
            r == get_bit(self@, Self::LRA_OPEN_LOOP),
    {
        read_bit(self.raw, Self::LRA_OPEN_LOOP)
    }

    /// Sets or clears the bit that `lra_open_loop` reads.
    pub fn set_lra_open_loop(&mut self, value: bool)
        ensures
            final(self)@ == set_bit(old(self)@, Self::LRA_OPEN_LOOP, value),
    {
        write_bit(&mut self.raw, Self::LRA_OPEN_LOOP, value)
    }
}

impl Default for Control3Reg {
    fn default() -> (r: Self)
        ensures
            r@ == Self::RESET_VALUE,
    {
        let mut reg = Control3Reg::new(0);
        reg.set_ng_thresh(0x2);
        reg.set_erm_open_loop(true);
        reg.set_supply_comp_dis(false);
        reg.set_data_format_rtp(false);
        reg.set_lra_drive_mode(false);
        reg.set_n_pwm_analog(false);
        reg.set_lra_open_loop(false);
        assert(
            set_bit(
                set_bit(
                    set_bit(
                        set_bit(
                            set_bit(
                                set_bit(
                                    set_field(
                                        0,
                                        Control3Reg::NG_THRESH_MSB,
                                        Control3Reg::NG_THRESH_LSB,
                                        0x2,
                                    ),
                                    Control3Reg::ERM_OPEN_LOOP,
                                    true,
                                ),
                                Control3Reg::SUPPLY_COMP_DIS,
                                false,
                            ),
                            Control3Reg::DATA_FORMAT_RTP,
                            false,
                        ),
                        Control3Reg::LRA_DRIVE_MODE,
                        false,
                    ),
                    Control3Reg::N_PWM_ANALOG,
                    false,
                ),
                Control3Reg::LRA_OPEN_LOOP,
                false,
            ) == 0xA0
        ) by (bit_vector);
        reg
    }
}

/// Control register 4 (0x1E). The view of a value is its raw byte.
#[derive(Clone, Copy, Debug)]
pub struct Control4Reg {
    raw: u8,
}

impl View for Control4Reg {
    type V = u8;

    closed spec fn view(&self) -> u8 {
        self.raw
    }
}

impl Control4Reg {
    // Bit positions of the fields.
    pub const ZC_DET_TIME_MSB: u8 = 7;
    pub const ZC_DET_TIME_LSB: u8 = 6;
    pub const AUTO_CAL_TIME_MSB: u8 = 5;
    pub const AUTO_CAL_TIME_LSB: u8 = 4;
    pub const OTP_STATUS: u8 = 2;
    pub const OTP_PROGRAM: u8 = 1;

    /// The value the register holds after power-up.
    pub const RESET_VALUE: u8 = 0x20;

    /// Wraps a raw register byte.
    pub fn new(raw: u8) -> (r: Self)
        ensures
            r@ == raw,
    {
        Control4Reg { raw }
    }

    /// The raw register byte.
    pub fn bits(&self) -> (r: u8)
        ensures
            r == self@,
    {
        self.raw
    }

    /// Minimum time for detecting a zero crossing.
    pub fn zc_det_time(&self) -> (r: u8)
        ensures
            r == get_field(self@, Self::ZC_DET_TIME_MSB, Self::ZC_DET_TIME_LSB),
    {
        bit_range(self.raw, Self::ZC_DET_TIME_MSB, Self::ZC_DET_TIME_LSB)
    }

    /// Stores the low bits of `value` in the field that `zc_det_time` reads.
    pub fn set_zc_det_time(&mut self, value: u8)
        ensures
            final(self)@ == set_field(
                old(self)@,
                Self::ZC_DET_TIME_MSB,
                Self::ZC_DET_TIME_LSB,
                value,
            ),
    {
        set_bit_range(&mut self.raw, Self::ZC_DET_TIME_MSB, Self::ZC_DET_TIME_LSB, value)
    }

    /// Length of the auto-calibration run.
    pub fn auto_cal_time(&self) -> (r: u8)
        ensures
            r == get_field(self@, Self::AUTO_CAL_TIME_MSB, Self::AUTO_CAL_TIME_LSB),
    {
        bit_range(self.raw, Self::AUTO_CAL_TIME_MSB, Self::AUTO_CAL_TIME_LSB)
    }

    /// Stores the low bits of `value` in the field that `auto_cal_time` reads.
    pub fn set_auto_cal_time(&mut self, value: u8)
        ensures
            final(self)@ == set_field(
                old(self)@,
                Self::AUTO_CAL_TIME_MSB,
                Self::AUTO_CAL_TIME_LSB,
                value,
            ),
    {
        set_bit_range(&mut self.raw, Self::AUTO_CAL_TIME_MSB, Self::AUTO_CAL_TIME_LSB, value)
    }

    /// Set once the one-time-programmable memory has been written.
    pub fn otp_status(&self) -> (r: bool)
        ensures
            r == get_bit(self@, Self::OTP_STATUS),
    {
        read_bit(self.raw, Self::OTP_STATUS)
    }

    /// Sets or clears the bit that `otp_status` reads.
    pub fn set_otp_status(&mut self, value: bool)
        ensures
            final(self)@ == set_bit(old(self)@, Self::OTP_STATUS, value),
    {
        write_bit(&mut self.raw, Self::OTP_STATUS, value)
    }

    /// Starts programming of the one-time-programmable memory.
    pub fn otp_program(&self) -> (r: bool)
        ensures
            r == get_bit(self@, Self::OTP_PROGRAM),
    {
        read_bit(self.raw, Self::OTP_PROGRAM)
    }

    /// Sets or clears the bit that `otp_program` reads.
    pub fn set_otp_program(&mut self, value: bool)
        ensures
            final(self)@ == set_bit(old(self)@, Self::OTP_PROGRAM, value),
    {
        write_bit(&mut self.raw, Self::OTP_PROGRAM, value)
    }
}

impl Default for Control4Reg {
    fn default() -> (r: Self)
        ensures
            r@ == Self::RESET_VALUE,
    {
        let mut reg = Control4Reg::new(0);
        reg.set_auto_cal_time(0x2);
        reg.set_otp_program(false);
        assert(
            set_bit(
                set_field(0, Control4Reg::AUTO_CAL_TIME_MSB, Control4Reg::AUTO_CAL_TIME_LSB, 0x2),
                Control4Reg::OTP_PROGRAM,
                false,
            ) == 0x20
        ) by (bit_vector);
        reg
    }
}

/// Control register 5 (0x1F). The view of a value is its raw byte.
#[derive(Clone, Copy, Debug)]
pub struct Control5Reg {
    raw: u8,
}

impl View for Control5Reg {
    type V = u8;

    closed spec fn view(&self) -> u8 {
        self.raw
    }
}

impl Control5Reg {
    // Bit positions of the fields.
    pub const AUTO_OL_CNT_MSB: u8 = 7;
    pub const AUTO_OL_CNT_LSB: u8 = 6;
    pub const LRA_AUTO_OPEN_LOOP: u8 = 5;
    pub const PLAYBACK_INTERVAL: u8 = 4;
    pub const BLANKING_TIME_MSB_MSB: u8 = 3;
    pub const BLANKING_TIME_MSB_LSB: u8 = 2;
    pub const IDISS_TIME_MSB: u8 = 1;

    /// The value the register holds after power-up.
    pub const RESET_VALUE: u8 = 0x80;

    /// Wraps a raw register byte.
    pub fn new(raw: u8) -> (r: Self)
        ensures
            r@ == raw,
    {
        Control5Reg { raw }
    }

    /// The raw register byte.
    pub fn bits(&self) -> (r: u8)
        ensures
            r == self@,
    {
        self.raw
    }

    /// Number of synchronisation attempts before an LRA falls back to open
    /// loop.
    pub fn auto_ol_cnt(&self) -> (r: u8)
        ensures
            r == get_field(self@, Self::AUTO_OL_CNT_MSB, Self::AUTO_OL_CNT_LSB),
    {
        bit_range(self.raw, Self::AUTO_OL_CNT_MSB, Self::AUTO_OL_CNT_LSB)
    }

    /// Stores the low bits of `value` in the field that `auto_ol_cnt` reads.
    pub fn set_auto_ol_cnt(&mut self, value: u8)
        ensures
            final(self)@ == set_field(
                old(self)@,
                Self::AUTO_OL_CNT_MSB,
                Self::AUTO_OL_CNT_LSB,
                value,
            ),
    {
        set_bit_range(&mut self.raw, Self::AUTO_OL_CNT_MSB, Self::AUTO_OL_CNT_LSB, value)
    }

    /// Lets an LRA fall back to open loop automatically.
    pub fn lra_auto_open_loop(&self) -> (r: bool)
        ensures
            r == get_bit(self@, Self::LRA_AUTO_OPEN_LOOP),
    {
        read_bit(self.raw, Self::LRA_AUTO_OPEN_LOOP)
    }

    /// Sets or clears the bit that `lra_auto_open_loop` reads.
    pub fn set_lra_auto_open_loop(&mut self, value: bool)
        ensures
            final(self)@ == set_bit(old(self)@, Self::LRA_AUTO_OPEN_LOOP, value),
    {
        write_bit(&mut self.raw, Self::LRA_AUTO_OPEN_LOOP, value)
    }

    /// Playback time step: clear for 5 ms, set for 1 ms.
    pub fn playback_interval(&self) -> (r: bool)
        ensures
            r == get_bit(self@, Self::PLAYBACK_INTERVAL),
    {
        read_bit(self.raw, Self::PLAYBACK_INTERVAL)
    }

    /// Sets or clears the bit that `playback_interval` reads.
    pub fn set_playback_interval(&mut self, value: bool)
        ensures
            final(self)@ == set_bit(old(self)@, Self::PLAYBACK_INTERVAL, value),
    {
        write_bit(&mut self.raw, Self::PLAYBACK_INTERVAL, value)
    }

    /// Upper bits of the blanking time.
    pub fn blanking_time_msb(&self) -> (r: u8)
        ensures
            r == get_field(self@, Self::BLANKING_TIME_MSB_MSB, Self::BLANKING_TIME_MSB_LSB),
    {
        bit_range(self.raw, Self::BLANKING_TIME_MSB_MSB, Self::BLANKING_TIME_MSB_LSB)
    }

    /// Stores the low bits of `value` in the field that `blanking_time_msb` reads.
    pub fn set_blanking_time_mss(&mut self, value: u8)
        ensures
            final(self)@ == set_field(
                old(self)@,
                Self::BLANKING_TIME_MSB_MSB,
                Self::BLANKING_TIME_MSB_LSB,
                value,
            ),
    {
        set_bit_range(
            &mut self.raw,
            Self::BLANKING_TIME_MSB_MSB,
            Self::BLANKING_TIME_MSB_LSB,
            value,
        )
    }

    /// Upper bit of the current-dissipation time.
    pub fn idiss_time_msb(&self) -> (r: bool)
        ensures
            r == get_bit(self@, Self::IDISS_TIME_MSB),
    {
        read_bit(self.raw, Self::IDISS_TIME_MSB)
    }

    /// Sets or clears the bit that `idiss_time_msb` reads.
    pub fn set_idiss_time_msb(&mut self, value: bool)
        ensures
            final(self)@ == set_bit(old(self)@, Self::IDISS_TIME_MSB, value),
    {
        write_bit(&mut self.raw, Self::IDISS_TIME_MSB, value)
    }
}

impl Default for Control5Reg {
    fn default() -> (r: Self)
        ensures
            r@ == Self::RESET_VALUE,
    {
        let mut reg = Control5Reg::new(0);
        reg.set_auto_ol_cnt(0x2);
        assert(
            set_field(0, Control5Reg::AUTO_OL_CNT_MSB, Control5Reg::AUTO_OL_CNT_LSB, 0x2) == 0x80
        ) by (bit_vector);
        reg
    }
}

/// One slot of the waveform sequencer (0x04 to 0x0B). The view of a value is
/// its raw byte.
#[derive(Clone, Copy, Debug)]
pub struct WaveformReg {
    raw: u8,
}

impl View for WaveformReg {
    type V = u8;

    closed spec fn view(&self) -> u8 {
        self.raw
    }
}

impl WaveformReg {
    // Bit positions of the fields.
    pub const WAIT: u8 = 7;
    pub const WAVEFORM_SEQ_MSB: u8 = 6;
    pub const WAVEFORM_SEQ_LSB: u8 = 0;

    /// Wraps a raw register byte.
    pub fn new(raw: u8) -> (r: Self)
        ensures
            r@ == raw,
    {
        WaveformReg { raw }
    }

    /// The slot that plays `effect`.
    pub fn new_effect(effect: Effect) -> (r: Self)
        ensures
            r@ == effect.code_of(),
    {
        WaveformReg { raw: effect.code() }
    }

    /// The slot that ends the sequence.
    pub fn new_stop() -> (r: Self)
        ensures
            r@ == 0,
    {
        WaveformReg { raw: 0 }
    }

    /// The raw register byte.
    pub fn bits(&self) -> (r: u8)
        ensures
            r == self@,
    {
        self.raw
    }

    /// Set when the slot holds a delay instead of a waveform.
    pub fn wait(&self) -> (r: bool)
        ensures
            r == get_bit(self@, Self::WAIT),
    {
        read_bit(self.raw, Self::WAIT)
    }

    /// Sets or clears the bit that `wait` reads.
    pub fn set_wait(&mut self, value: bool)
        ensures
            final(self)@ == set_bit(old(self)@, Self::WAIT, value),
    {
        write_bit(&mut self.raw, Self::WAIT, value)
    }

    /// The waveform identifier, or the delay in steps of 10 ms when `wait`
    /// is set.
    pub fn waveform_seq(&self) -> (r: u8)
        ensures
            r == get_field(self@, Self::WAVEFORM_SEQ_MSB, Self::WAVEFORM_SEQ_LSB),
    {
        bit_range(self.raw, Self::WAVEFORM_SEQ_MSB, Self::WAVEFORM_SEQ_LSB)
    }

    /// Stores the low bits of `value` in the field that `waveform_seq` reads.
    pub fn set_waveform_seq(&mut self, value: u8)
        ensures
            final(self)@ == set_field(
                old(self)@,
                Self::WAVEFORM_SEQ_MSB,
                Self::WAVEFORM_SEQ_LSB,
                value,
            ),
    {
        set_bit_range(&mut self.raw, Self::WAVEFORM_SEQ_MSB, Self::WAVEFORM_SEQ_LSB, value)
    }
}

} // verus!
