use drv2605::calibration::CalibrationParams;
use drv2605::protocol::{control3_for_mode, set_open_loop, DriveMode};
use drv2605::registers::{
    Control1Reg, Control2Reg, Control3Reg, Control4Reg, Control5Reg, FeedbackControlReg, GoReg,
    LibrarySelectionReg, ModeReg, StatusReg, WaveformReg,
};
use drv2605::{
    AutoCalibrationCompensationBackEmfReg, AutoCalibrationCompensationReg, BrakeTimeOffsetReg,
    Effect, Library, Mode, OverdriveClampReg, OverdriveTimeOffsetReg, RatedVoltageReg, Register,
    SustainTimeOffsetNegativeReg, SustainTimeOffsetPositiveReg,
};

#[test]
fn register_addresses() {
    assert_eq!(Register::Status.addr(), 0x00);
    assert_eq!(Register::Mode.addr(), 0x01);
    assert_eq!(Register::RealTimePlaybackInput.addr(), 0x02);
    assert_eq!(Register::LibrarySelection.addr(), 0x03);
    assert_eq!(Register::WaveformSequence0.addr(), 0x04);
    assert_eq!(Register::WaveformSequence7.addr(), 0x0b);
    assert_eq!(Register::Go.addr(), 0x0c);
    assert_eq!(Register::OverdriveTimeOffset.addr(), 0x0d);
    assert_eq!(Register::BrakeTimeOffset.addr(), 0x10);
    assert_eq!(Register::RatedVoltage.addr(), 0x16);
    assert_eq!(Register::OverdriveClampVoltage.addr(), 0x17);
    assert_eq!(Register::AutoCalibrationCompensationResult.addr(), 0x18);
    assert_eq!(Register::AutoCalibrationBackEMFResult.addr(), 0x19);
    assert_eq!(Register::FeedbackControl.addr(), 0x1a);
    assert_eq!(Register::Control1.addr(), 0x1b);
    assert_eq!(Register::Control5.addr(), 0x1f);
    assert_eq!(Register::LraResonancePeriod.addr(), 0x22);
}

#[test]
fn mode_codes_round_trip() {
    for code in 0u8..8 {
        assert_eq!(Mode::from(code).code(), code);
    }
    assert_eq!(Mode::from(0), Mode::InternalTrigger);
    assert_eq!(Mode::from(3), Mode::PwmInputAndAnalogInput);
    assert_eq!(Mode::from(5), Mode::RealTimePlayback);
    assert_eq!(Mode::from(6), Mode::Diagnostics);
    assert_eq!(Mode::from(7), Mode::AutoCalibration);
}

#[test]
fn library_codes_round_trip() {
    for code in 0u8..8 {
        assert_eq!(Library::from(code).code(), code);
    }
    assert_eq!(Library::from(0), Library::Empty);
    assert_eq!(Library::from(2), Library::B);
    assert_eq!(Library::from(6), Library::Lra);
    assert_eq!(Library::from(7), Library::F);
}

#[test]
fn power_up_values() {
    assert_eq!(ModeReg::default().bits(), 0x40);
    assert_eq!(FeedbackControlReg::default().bits(), 0x36);
    assert_eq!(Control1Reg::default().bits(), 0x93);
    assert_eq!(Control2Reg::default().bits(), 0xF5);
    assert_eq!(Control3Reg::default().bits(), 0xA0);
    assert_eq!(Control4Reg::default().bits(), 0x20);
    assert_eq!(Control5Reg::default().bits(), 0x80);
    assert_eq!(RatedVoltageReg::default().0, 0x3E);
    assert_eq!(OverdriveClampReg::default().0, 0x8C);
    assert_eq!(AutoCalibrationCompensationReg::default().0, 0x0C);
    assert_eq!(AutoCalibrationCompensationBackEmfReg::default().0, 0x6C);
    assert_eq!(OverdriveTimeOffsetReg::default().0, 0);
    assert_eq!(SustainTimeOffsetPositiveReg::default().0, 0);
    assert_eq!(SustainTimeOffsetNegativeReg::default().0, 0);
    assert_eq!(BrakeTimeOffsetReg::default().0, 0);
}

#[test]
fn power_up_mode_is_standby_with_internal_trigger() {
    let mode = ModeReg::default();
    assert!(mode.standby());
    assert!(!mode.dev_reset());
    assert_eq!(mode.mode(), Mode::InternalTrigger);
}

#[test]
fn status_fields() {
    let status = StatusReg::new(0xE8);
    assert_eq!(status.device_id(), 7);
    assert!(status.diagnostic_result());
    assert!(!status.oc_detected());
    assert!(!status.over_temp());
    assert!(!status.feedback_controller_timed_out());
    let status = StatusReg::new(0x67);
    assert_eq!(status.device_id(), 3);
    assert!(!status.diagnostic_result());
    assert!(status.oc_detected());
    assert!(status.over_temp());
    assert!(status.feedback_controller_timed_out());
    assert_eq!(status.bits(), 0x67);
}

#[test]
fn bit_setter_changes_one_bit() {
    let mut mode = ModeReg::new(0x05);
    mode.set_standby(true);
    assert_eq!(mode.bits(), 0x45);
    mode.set_dev_reset(true);
    assert_eq!(mode.bits(), 0xC5);
    mode.set_standby(false);
    assert_eq!(mode.bits(), 0x85);
    assert_eq!(mode.mode(), Mode::RealTimePlayback);
}

#[test]
fn field_setter_keeps_the_bits_around_it() {
    let mut feedback = FeedbackControlReg::new(0xFF);
    feedback.set_loop_gain(0);
    assert_eq!(feedback.bits(), 0xF3);
    feedback.set_fb_brake_factor(2);
    assert_eq!(feedback.bits(), 0xA3);
    assert_eq!(feedback.fb_brake_factor(), 2);
    assert_eq!(feedback.loop_gain(), 0);
    assert_eq!(feedback.bemf_gain(), 3);
    assert!(feedback.n_erm_lra());
}

#[test]
fn field_setter_drops_bits_that_do_not_fit() {
    let mut feedback = FeedbackControlReg::new(0);
    feedback.set_bemf_gain(7);
    assert_eq!(feedback.bits(), 0x03);
    let mut mode = ModeReg::new(0);
    mode.set_mode(0xFF);
    assert_eq!(mode.bits(), 0x07);
    let mut ctrl1 = Control1Reg::new(0);
    ctrl1.set_drive_time(0xFF);
    assert_eq!(ctrl1.bits(), 0x1F);
}

#[test]
fn library_selection_fields() {
    let mut reg = LibrarySelectionReg::new(0);
    reg.set_library_selection(Library::Lra.code());
    assert_eq!(reg.bits(), 0x06);
    assert_eq!(reg.library_selection(), Library::Lra);
    reg.set_hi_z(true);
    assert_eq!(reg.bits(), 0x16);
    assert!(reg.hi_z());
}

#[test]
fn go_bit() {
    let mut go = GoReg::new(0xFE);
    assert!(!go.go());
    go.set_go(true);
    assert_eq!(go.bits(), 0xFF);
    assert!(go.go());
}

#[test]
fn control_register_fields() {
    let ctrl2 = Control2Reg::new(0xF5);
    assert!(ctrl2.bidir_input());
    assert!(ctrl2.brake_stabilizer());
    assert_eq!(ctrl2.sample_time(), 3);
    assert_eq!(ctrl2.blanking_time(), 1);
    assert_eq!(ctrl2.idiss_time(), 1);
    let ctrl3 = Control3Reg::new(0xA0);
    assert_eq!(ctrl3.ng_thresh(), 2);
    assert!(ctrl3.erm_open_loop());
    assert!(!ctrl3.supply_comp_dis());
    assert!(!ctrl3.data_format_rtp());
    assert!(!ctrl3.lra_drive_mode());
    assert!(!ctrl3.n_pwm_analog());
    assert!(!ctrl3.lra_open_loop());
    let ctrl4 = Control4Reg::new(0xE4);
    assert_eq!(ctrl4.zc_det_time(), 3);
    assert_eq!(ctrl4.auto_cal_time(), 2);
    assert!(ctrl4.otp_status());
    assert!(!ctrl4.otp_program());
    let mut ctrl5 = Control5Reg::new(0);
    ctrl5.set_blanking_time_mss(3);
    ctrl5.set_idiss_time_msb(true);
    ctrl5.set_playback_interval(true);
    assert_eq!(ctrl5.bits(), 0x1E);
    assert_eq!(ctrl5.blanking_time_msb(), 3);
    assert!(ctrl5.idiss_time_msb());
    assert!(!ctrl5.lra_auto_open_loop());
    assert_eq!(ctrl5.auto_ol_cnt(), 0);
}

#[test]
fn waveform_slots() {
    assert_eq!(WaveformReg::new_effect(Effect::StrongClick100).bits(), 1);
    assert_eq!(WaveformReg::new_stop().bits(), 0);
    let slot = WaveformReg::new_effect(Effect::Delays(20));
    assert!(slot.wait());
    assert_eq!(slot.waveform_seq(), 20);
    let mut slot = WaveformReg::new(0);
    slot.set_waveform_seq(0xFF);
    assert_eq!(slot.bits(), 0x7F);
    slot.set_wait(true);
    assert_eq!(slot.bits(), 0xFF);
}

#[test]
fn default_calibration_inputs() {
    let params = CalibrationParams::default();
    assert_eq!(params.brake_factor, 2);
    assert_eq!(params.loop_gain, 2);
    assert_eq!(params.lra_sample_time, 3);
    assert_eq!(params.lra_blanking_time, 1);
    assert_eq!(params.lra_idiss_time, 1);
    assert_eq!(params.auto_cal_time, 3);
    assert_eq!(params.lra_zc_det_time, 0);
    assert_eq!(params.rated, 0x3E);
    assert_eq!(params.clamp, 0x8C);
    assert_eq!(params.drive_time, 0x13);
    assert_eq!(params.max_polls, 10000);
}

#[test]
fn calibration_seed_bytes() {
    let params = CalibrationParams::default();
    assert_eq!(params.feedback_seed(false).bits(), 0x2A);
    assert_eq!(params.feedback_seed(true).bits(), 0xAA);
    assert_eq!(params.control1_seed().bits(), 0x93);
    assert_eq!(params.control2_seed().bits(), 0xF5);
    assert_eq!(params.control4_seed().bits(), 0x30);
    let mut params = CalibrationParams::default();
    params.brake_factor = 7;
    params.loop_gain = 0;
    params.drive_time = 0x0A;
    params.lra_sample_time = 0;
    params.lra_blanking_time = 2;
    params.lra_idiss_time = 3;
    params.auto_cal_time = 1;
    params.lra_zc_det_time = 2;
    assert_eq!(params.feedback_seed(false).bits(), 0x72);
    assert_eq!(params.control1_seed().bits(), 0x8A);
    assert_eq!(params.control2_seed().bits(), 0xCB);
    assert_eq!(params.control4_seed().bits(), 0x90);
}

#[test]
fn open_loop_bit_follows_the_motor_type() {
    let mut reg = Control3Reg::new(0);
    set_open_loop(&mut reg, false, true);
    assert_eq!(reg.bits(), 0x20);
    let mut reg = Control3Reg::new(0);
    set_open_loop(&mut reg, true, true);
    assert_eq!(reg.bits(), 0x01);
    let mut reg = Control3Reg::new(0xFF);
    set_open_loop(&mut reg, true, false);
    assert_eq!(reg.bits(), 0xFE);
}

#[test]
fn control3_for_each_mode() {
    let rom = DriveMode::Rom(Library::B);
    assert_eq!(control3_for_mode(false, rom, Control3Reg::new(0x00)).bits(), 0x20);
    assert_eq!(control3_for_mode(true, DriveMode::Rom(Library::Lra), Control3Reg::new(0x21)).bits(), 0x20);
    assert_eq!(control3_for_mode(false, DriveMode::Analog, Control3Reg::new(0xA0)).bits(), 0x82);
    assert_eq!(control3_for_mode(false, DriveMode::Pwm, Control3Reg::new(0xA2)).bits(), 0x80);
    assert_eq!(control3_for_mode(true, DriveMode::Rtp, Control3Reg::new(0x01)).bits(), 0x08);
    assert_eq!(control3_for_mode(false, DriveMode::Rtp, Control3Reg::new(0x21)).bits(), 0x09);
}

#[test]
fn no_mode_touches_the_other_open_loop_bit() {
    let targets = [DriveMode::Rom(Library::A), DriveMode::Pwm, DriveMode::Analog, DriveMode::Rtp];
    for current in 0u8..=255 {
        for target in targets {
            let erm = control3_for_mode(false, target, Control3Reg::new(current)).bits();
            assert_eq!(erm & 0x01, current & 0x01);
            let lra = control3_for_mode(true, target, Control3Reg::new(current)).bits();
            assert_eq!(lra & 0x20, current & 0x20);
        }
    }
}

#[test]
fn drive_modes_map_to_operating_modes() {
    assert_eq!(DriveMode::Rom(Library::C).mode(), Mode::InternalTrigger);
    assert_eq!(DriveMode::Pwm.mode(), Mode::PwmInputAndAnalogInput);
    assert_eq!(DriveMode::Analog.mode(), Mode::PwmInputAndAnalogInput);
    assert_eq!(DriveMode::Rtp.mode(), Mode::RealTimePlayback);
}
