//! Calibration strategies and the register bytes that seed an automatic
//! calibration run.

use vstd::prelude::*;
use crate::bits::{set_bit, set_field};
use crate::registers::{Control1Reg, Control2Reg, Control4Reg, FeedbackControlReg};

verus! {

/// How the chip gets its calibration when a handle is brought up.
#[derive(Debug, Clone, Copy, PartialEq, Eq, Structural)]
pub enum Calibration {
    /// Run the auto-calibration routine of the chip with these inputs. The
    /// motor must be fixed to a mass: it cannot calibrate while it moves
    /// around on a desk.
    Auto(CalibrationParams),
    /// Load the results of an earlier calibration run.
    Load(LoadParams),
    /// Rely on the values in the one-time-programmable memory of the chip.
    Otp,
}

/// The results of a calibration run. They can be read back after an
/// automatic run, kept by the caller and loaded again later.
#[derive(Debug, Clone, Copy, PartialEq, Eq, Structural)]
pub struct LoadParams {
    /// Compensation for resistive losses.
    pub comp: u8,
    /// Back-EMF level.
    pub bemf: u8,
    /// Gain of the back-EMF amplifier; only the low two bits are used.
    pub gain: u8,
}

/// The inputs of an automatic calibration run, for ERM and LRA motors. The
/// voltages and the drive time should be computed from the datasheets of
/// chip and motor, for LRA motors above all.
#[derive(Debug, Clone, Copy, PartialEq, Eq, Structural)]
#[non_exhaustive]
pub struct CalibrationParams {
    /// Rated voltage of the actuator.
    pub rated: u8,
    /// Overdrive clamp voltage.
    pub clamp: u8,
    /// Drive time; the low five bits are used.
    pub drive_time: u8,
    /// Brake factor; the low three bits are used.
    pub brake_factor: u8,
    /// Loop gain; the low two bits are used.
    pub loop_gain: u8,
    /// Length of the calibration run; the low two bits are used.
    pub auto_cal_time: u8,
    /// LRA auto-resonance sampling time; the low two bits are used.
    pub lra_sample_time: u8,
    /// LRA blanking time; the low two bits are used.
    pub lra_blanking_time: u8,
    /// LRA current dissipation time; the low two bits are used.
    pub lra_idiss_time: u8,
    /// LRA zero-crossing detection time; the low two bits are used.
    pub lra_zc_det_time: u8,
    /// How often the GO bit may be polled before the run is given up.
    pub max_polls: u32,
}

impl Default for CalibrationParams {
    /// The advised inputs for an ERM motor, with room for 10000 polls.
    fn default() -> (r: Self)
        ensures
            r == (CalibrationParams {
                brake_factor: 2,
                loop_gain: 2,
                lra_sample_time: 3,
                lra_blanking_time: 1,
                lra_idiss_time: 1,
                auto_cal_time: 3,
                lra_zc_det_time: 0,
                rated: 0x3E,
                clamp: 0x8C,
                drive_time: 0x13,
                max_polls: 10000,
            }),
    {
        CalibrationParams {
            brake_factor: 2,
            loop_gain: 2,
            lra_sample_time: 3,
            lra_blanking_time: 1,
            lra_idiss_time: 1,
            auto_cal_time: 3,
            lra_zc_det_time: 0,
            rated: 0x3E,
            clamp: 0x8C,
            drive_time: 0x13,
            max_polls: 10000,
        }
    }
}

impl CalibrationParams {
    /// The feedback control byte that seeds a run: the power-up value with
    /// brake factor, loop gain and actuator type filled in.
    pub open spec fn feedback_seed_of(self, lra: bool) -> u8 {
        set_bit(
            set_field(
                set_field(
                    FeedbackControlReg::RESET_VALUE,
                    FeedbackControlReg::FB_BRAKE_FACTOR_MSB,
                    FeedbackControlReg::FB_BRAKE_FACTOR_LSB,
                    self.brake_factor,
                ),
                FeedbackControlReg::LOOP_GAIN_MSB,
                FeedbackControlReg::LOOP_GAIN_LSB,
                self.loop_gain,
            ),
            FeedbackControlReg::N_ERM_LRA,
            lra,
        )
    }

    /// The control 1 byte that seeds a run: the power-up value with the
    /// drive time filled in.
    pub open spec fn control1_seed_of(self) -> u8 {
        set_field(
            Control1Reg::RESET_VALUE,
            Control1Reg::DRIVE_TIME_MSB,
            Control1Reg::DRIVE_TIME_LSB,
            self.drive_time,
        )
    }

    /// The control 2 byte that seeds a run: the power-up value with the
    /// three LRA timings filled in.
    pub open spec fn control2_seed_of(self) -> u8 {
        set_field(
            set_field(
                set_field(
                    Control2Reg::RESET_VALUE,
                    Control2Reg::SAMPLE_TIME_MSB,
                    Control2Reg::SAMPLE_TIME_LSB,
                    self.lra_sample_time,
                ),
                Control2Reg::BLANKING_TIME_MSB,
                Control2Reg::BLANKING_TIME_LSB,
                self.lra_blanking_time,
            ),
            Control2Reg::IDISS_TIME_MSB,
            Control2Reg::IDISS_TIME_LSB,
            self.lra_idiss_time,
        )
    }

    /// The control 4 byte that seeds a run: the power-up value with the
    /// calibration time and the zero-crossing detection time filled in.
    pub open spec fn control4_seed_of(self) -> u8 {
        set_field(
            set_field(
                Control4Reg::RESET_VALUE,
                Control4Reg::AUTO_CAL_TIME_MSB,
                Control4Reg::AUTO_CAL_TIME_LSB,
                self.auto_cal_time,
            ),
            Control4Reg::ZC_DET_TIME_MSB,
            Control4Reg::ZC_DET_TIME_LSB,
            self.lra_zc_det_time,
        )
    }

    /// The feedback control register as written before a run.
    pub fn feedback_seed(&self, lra: bool) -> (r: FeedbackControlReg)
        ensures
            r@ == self.feedback_seed_of(lra),
    {
        let mut feedback = FeedbackControlReg::default();
        feedback.set_fb_brake_factor(self.brake_factor);
        feedback.set_loop_gain(self.loop_gain);
        feedback.set_n_erm_lra(lra);
        feedback
    }

    /// The control 1 register as written before a run.
    pub fn control1_seed(&self) -> (r: Control1Reg)
        ensures
            r@ == self.control1_seed_of(),
    {
        let mut ctrl1 = Control1Reg::default();
        ctrl1.set_drive_time(self.drive_time);
        ctrl1
    }

    /// The control 2 register as written before a run.
    pub fn control2_seed(&self) -> (r: Control2Reg)
        ensures
            r@ == self.control2_seed_of(),
    {
        let mut ctrl2 = Control2Reg::default();
        ctrl2.set_sample_time(self.lra_sample_time);
        ctrl2.set_blanking_time(self.lra_blanking_time);
        ctrl2.set_idiss_time(self.lra_idiss_time);
        ctrl2
    }

    /// The control 4 register as written before a run.
    pub fn control4_seed(&self) -> (r: Control4Reg)
        ensures
            r@ == self.control4_seed_of(),
    {
        let mut ctrl4 = Control4Reg::default();
        ctrl4.set_auto_cal_time(self.auto_cal_time);
        ctrl4.set_zc_det_time(self.lra_zc_det_time);
        ctrl4
    }
}

} // verus!
