use drv2605::{
    Calibration, CalibrationParams, DriveMode, Drv2605l, DrvError, Effect, Library, LoadParams,
    Transport, ADDRESS,
};

const STATUS: u8 = 0x00;
const MODE: u8 = 0x01;
const RTP: u8 = 0x02;
const LIBRARY: u8 = 0x03;
const SEQUENCE: u8 = 0x04;
const GO: u8 = 0x0c;
const RATED: u8 = 0x16;
const CLAMP: u8 = 0x17;
const COMP: u8 = 0x18;
const BEMF: u8 = 0x19;
const FEEDBACK: u8 = 0x1a;
const CONTROL1: u8 = 0x1b;
const CONTROL2: u8 = 0x1c;
const CONTROL3: u8 = 0x1d;
const CONTROL4: u8 = 0x1e;

#[derive(Debug, Clone, PartialEq, Eq)]
enum Txn {
    Write(u8, Vec<u8>),
    Read(u8, u8),
}

/// A chip that keeps what is written to it. The GO bit and the reset bit
/// read as set for a given number of reads after they were written.
struct FakeChip {
    regs: [u8; 0x23],
    log: Vec<Txn>,
    fail_at: Option<usize>,
    busy_reads: usize,
    busy_left: usize,
}

impl FakeChip {
    fn new() -> FakeChip {
        let mut regs = [0u8; 0x23];
        regs[STATUS as usize] = 0xE0;
        regs[MODE as usize] = 0x40;
        regs[FEEDBACK as usize] = 0x36;
        regs[CONTROL3 as usize] = 0xA0;
        FakeChip { regs, log: Vec::new(), fail_at: None, busy_reads: 0, busy_left: 0 }
    }

    fn with(register: u8, value: u8) -> FakeChip {
        let mut chip = FakeChip::new();
        chip.regs[register as usize] = value;
        chip
    }

    fn writes(&self) -> Vec<Txn> {
        self.log.iter().filter(|t| matches!(t, Txn::Write(..))).cloned().collect()
    }

    fn reads_of(&self, register: u8) -> usize {
        self.log.iter().filter(|t| **t == Txn::Read(ADDRESS, register)).count()
    }
}

impl Transport for FakeChip {
    type Error = ();

    fn write(&mut self, address: u8, bytes: &[u8]) -> Result<(), ()> {
        let index = self.log.len();
        self.log.push(Txn::Write(address, bytes.to_vec()));
        if self.fail_at == Some(index) {
            return Err(());
        }
        let first = bytes[0] as usize;
        for (offset, value) in bytes[1..].iter().enumerate() {
            self.regs[first + offset] = *value;
        }
        if (bytes[0] == GO && bytes[1] & 0x01 != 0) || (bytes[0] == MODE && bytes[1] & 0x80 != 0) {
            self.busy_left = self.busy_reads;
        }
        Ok(())
    }

    fn read(&mut self, address: u8, register: u8) -> Result<u8, ()> {
        let index = self.log.len();
        self.log.push(Txn::Read(address, register));
        if self.fail_at == Some(index) {
            return Err(());
        }
        if register == GO || register == MODE {
            let flag = if register == GO { 0x01 } else { 0x80 };
            if self.regs[register as usize] & flag != 0 {
                if self.busy_left > 0 {
                    self.busy_left -= 1;
                } else {
                    self.regs[register as usize] &= !flag;
                }
            }
        }
        Ok(self.regs[register as usize])
    }
}

fn erm(chip: FakeChip) -> Drv2605l<FakeChip> {
    Drv2605l::attach(chip, false)
}

fn lra(chip: FakeChip) -> Drv2605l<FakeChip> {
    Drv2605l::attach(chip, true)
}

fn failed(result: Result<Drv2605l<FakeChip>, DrvError>) -> DrvError {
    match result {
        Ok(_) => panic!("bring-up was expected to fail"),
        Err(e) => e,
    }
}

#[test]
fn attach_says_nothing_on_the_bus() {
    let chip = erm(FakeChip::new()).release();
    assert!(chip.log.is_empty());
}

#[test]
fn load_calibration_ends_in_standby() {
    let load = LoadParams { comp: 15, bemf: 134, gain: 2 };
    let mut chip = FakeChip::with(MODE, 0x00);
    chip.regs[FEEDBACK as usize] = 0xF5;
    let haptic = match Drv2605l::new(chip, Calibration::Load(load), false) {
        Ok(haptic) => haptic,
        Err(e) => panic!("bring-up failed: {:?}", e),
    };
    let chip = haptic.release();
    assert_eq!(chip.regs[COMP as usize], 15);
    assert_eq!(chip.regs[BEMF as usize], 134);
    assert_eq!(chip.regs[FEEDBACK as usize], 0xF6);
    assert_eq!(chip.regs[MODE as usize], 0x40);
    assert_eq!(
        chip.log,
        vec![
            Txn::Read(ADDRESS, STATUS),
            Txn::Read(ADDRESS, FEEDBACK),
            Txn::Write(ADDRESS, vec![FEEDBACK, 0xF6]),
            Txn::Write(ADDRESS, vec![COMP, 15]),
            Txn::Write(ADDRESS, vec![BEMF, 134]),
            Txn::Read(ADDRESS, MODE),
            Txn::Write(ADDRESS, vec![MODE, 0x40]),
        ]
    );
}

#[test]
fn loaded_calibration_reads_back() {
    let load = LoadParams { comp: 15, bemf: 134, gain: 2 };
    let mut haptic = match Drv2605l::new(FakeChip::new(), Calibration::Load(load), false) {
        Ok(haptic) => haptic,
        Err(e) => panic!("bring-up failed: {:?}", e),
    };
    assert_eq!(haptic.calibration(), Ok(load));
    assert_eq!(haptic.status().map(|s| s.bits()), Ok(0xE0));
}

#[test]
fn otp_not_programmed_writes_nothing() {
    let mut haptic = erm(FakeChip::with(CONTROL4, 0x20));
    assert_eq!(haptic.init(Calibration::Otp), Err(DrvError::OTPNotProgrammed));
    let chip = haptic.release();
    assert_eq!(chip.writes(), vec![]);
    assert_eq!(chip.log, vec![Txn::Read(ADDRESS, STATUS), Txn::Read(ADDRESS, CONTROL4)]);
    assert_eq!(
        failed(Drv2605l::new(FakeChip::with(CONTROL4, 0x20), Calibration::Otp, false)),
        DrvError::OTPNotProgrammed
    );
}

#[test]
fn otp_programmed_ends_in_standby() {
    let mut chip = FakeChip::with(CONTROL4, 0x24);
    chip.regs[MODE as usize] = 0x03;
    let mut haptic = erm(chip);
    assert_eq!(haptic.init(Calibration::Otp), Ok(()));
    let chip = haptic.release();
    assert_eq!(chip.writes(), vec![Txn::Write(ADDRESS, vec![MODE, 0x43])]);
}

#[test]
fn wrong_device_id_stops_the_bring_up() {
    let mut haptic = erm(FakeChip::with(STATUS, 0x60));
    let load = LoadParams { comp: 1, bemf: 2, gain: 3 };
    assert_eq!(haptic.init(Calibration::Load(load)), Err(DrvError::WrongDeviceId));
    assert_eq!(haptic.release().log, vec![Txn::Read(ADDRESS, STATUS)]);
}

#[test]
fn check_id_compares_the_top_three_bits() {
    let mut haptic = erm(FakeChip::with(STATUS, 0x7F));
    assert_eq!(haptic.check_id(3), Ok(()));
    assert_eq!(haptic.check_id(7), Err(DrvError::WrongDeviceId));
}

#[test]
fn failed_calibration_reads_nothing_back() {
    let mut chip = FakeChip::with(STATUS, 0xE8);
    chip.busy_reads = 2;
    let mut haptic = erm(chip);
    assert_eq!(
        haptic.init(Calibration::Auto(CalibrationParams::default())),
        Err(DrvError::CalibrationFailed)
    );
    let chip = haptic.release();
    assert_eq!(chip.reads_of(COMP), 0);
    assert_eq!(chip.reads_of(BEMF), 0);
    assert_eq!(chip.reads_of(FEEDBACK), 0);
    assert_eq!(chip.reads_of(GO), 4);
    assert_eq!(chip.log.last(), Some(&Txn::Read(ADDRESS, STATUS)));
    assert_eq!(chip.regs[MODE as usize] & 0x40, 0);
}

#[test]
fn automatic_calibration_talks_in_order() {
    let mut chip = FakeChip::new();
    chip.busy_reads = 2;
    chip.regs[COMP as usize] = 0x0D;
    chip.regs[BEMF as usize] = 0x6D;
    let mut haptic = lra(chip);
    assert_eq!(haptic.init(Calibration::Auto(CalibrationParams::default())), Ok(()));
    let chip = haptic.release();
    assert_eq!(
        chip.log,
        vec![
            Txn::Read(ADDRESS, STATUS),
            Txn::Write(ADDRESS, vec![FEEDBACK, 0xAA]),
            Txn::Write(ADDRESS, vec![CONTROL2, 0xF5]),
            Txn::Write(ADDRESS, vec![CONTROL4, 0x30]),
            Txn::Write(ADDRESS, vec![RATED, 0x3E]),
            Txn::Write(ADDRESS, vec![CLAMP, 0x8C]),
            Txn::Write(ADDRESS, vec![CONTROL1, 0x93]),
            Txn::Read(ADDRESS, MODE),
            Txn::Write(ADDRESS, vec![MODE, 0x07]),
            Txn::Read(ADDRESS, GO),
            Txn::Write(ADDRESS, vec![GO, 0x01]),
            Txn::Read(ADDRESS, GO),
            Txn::Read(ADDRESS, GO),
            Txn::Read(ADDRESS, GO),
            Txn::Read(ADDRESS, STATUS),
            Txn::Read(ADDRESS, FEEDBACK),
            Txn::Read(ADDRESS, COMP),
            Txn::Read(ADDRESS, BEMF),
            Txn::Read(ADDRESS, MODE),
            Txn::Write(ADDRESS, vec![MODE, 0x47]),
        ]
    );
}

#[test]
fn calibrate_returns_what_the_chip_found() {
    let mut chip = FakeChip::new();
    chip.regs[COMP as usize] = 0x0D;
    chip.regs[BEMF as usize] = 0x6D;
    chip.regs[FEEDBACK as usize] = 0xB7;
    let mut haptic = erm(chip);
    assert_eq!(haptic.calibrate(10), Ok(LoadParams { comp: 0x0D, bemf: 0x6D, gain: 3 }));
}

#[test]
fn calibration_times_out_when_the_budget_is_spent() {
    let mut chip = FakeChip::new();
    chip.busy_reads = 100;
    let mut params = CalibrationParams::default();
    params.max_polls = 2;
    let mut haptic = erm(chip);
    assert_eq!(haptic.init(Calibration::Auto(params)), Err(DrvError::Timeout));
    let chip = haptic.release();
    assert_eq!(chip.reads_of(GO), 3);
    assert_eq!(chip.log.last(), Some(&Txn::Read(ADDRESS, GO)));
}

#[test]
fn no_budget_means_no_poll() {
    let mut haptic = erm(FakeChip::new());
    assert_eq!(haptic.calibrate(0), Err(DrvError::Timeout));
    assert_eq!(haptic.release().reads_of(GO), 1);
}

#[test]
fn a_budget_that_is_just_enough() {
    let mut chip = FakeChip::new();
    chip.busy_reads = 2;
    let mut haptic = erm(chip);
    assert_eq!(haptic.diagnostics(3), Ok(()));
    let mut chip = FakeChip::new();
    chip.busy_reads = 3;
    let mut haptic = erm(chip);
    assert_eq!(haptic.diagnostics(3), Err(DrvError::Timeout));
}

#[test]
fn diagnostics_report_a_bad_actuator() {
    let mut haptic = erm(FakeChip::with(STATUS, 0xE8));
    assert_eq!(haptic.diagnostics(5), Err(DrvError::DeviceDiagnosticFailed));
    let chip = haptic.release();
    assert_eq!(
        chip.log,
        vec![
            Txn::Read(ADDRESS, MODE),
            Txn::Write(ADDRESS, vec![MODE, 0x06]),
            Txn::Read(ADDRESS, GO),
            Txn::Write(ADDRESS, vec![GO, 0x01]),
            Txn::Read(ADDRESS, GO),
            Txn::Read(ADDRESS, STATUS),
        ]
    );
}

#[test]
fn reset_waits_for_the_chip() {
    let mut chip = FakeChip::new();
    chip.busy_reads = 1;
    let mut haptic = erm(chip);
    assert_eq!(haptic.reset(5), Ok(()));
    let chip = haptic.release();
    assert_eq!(
        chip.log,
        vec![
            Txn::Write(ADDRESS, vec![MODE, 0xC0]),
            Txn::Read(ADDRESS, MODE),
            Txn::Read(ADDRESS, MODE),
        ]
    );
}

#[test]
fn a_bus_failure_is_a_connection_error() {
    for at in 0..7 {
        let mut chip = FakeChip::new();
        chip.fail_at = Some(at);
        let mut haptic = erm(chip);
        let load = LoadParams { comp: 15, bemf: 134, gain: 2 };
        assert_eq!(haptic.init(Calibration::Load(load)), Err(DrvError::ConnectionError));
        assert_eq!(haptic.release().log.len(), at + 1);
    }
}

#[test]
fn a_bus_failure_while_polling_ends_the_run() {
    let mut chip = FakeChip::new();
    chip.busy_reads = 10;
    chip.fail_at = Some(6);
    let mut haptic = erm(chip);
    assert_eq!(haptic.calibrate(50), Err(DrvError::ConnectionError));
    assert_eq!(haptic.release().log.len(), 7);
}

#[test]
fn single_effect_then_trigger() {
    let mut haptic = erm(FakeChip::with(GO, 0x00));
    assert_eq!(haptic.set_rom_single(Effect::StrongClick100), Ok(()));
    assert_eq!(haptic.set_go(), Ok(()));
    assert_eq!(
        haptic.release().log,
        vec![
            Txn::Write(ADDRESS, vec![SEQUENCE, 1, 0]),
            Txn::Read(ADDRESS, GO),
            Txn::Write(ADDRESS, vec![GO, 0x01]),
        ]
    );
}

#[test]
fn trigger_keeps_the_other_bits_of_the_go_register() {
    let mut haptic = erm(FakeChip::with(GO, 0xA0));
    assert_eq!(haptic.set_go(), Ok(()));
    assert_eq!(haptic.release().writes(), vec![Txn::Write(ADDRESS, vec![GO, 0xA1])]);
}

#[test]
fn sequence_goes_out_as_one_write_of_nine_bytes() {
    let roms = [
        Effect::StrongClick100,
        Effect::BuzzOne100,
        Effect::Delays(10),
        Effect::SmoothHumFive10,
        Effect::TransitionRampDownLongSmoothOne100to0,
        Effect::Alert1000ms,
        Effect::Delays(127),
        Effect::Stop,
    ];
    let mut haptic = erm(FakeChip::new());
    assert_eq!(haptic.set_rom(&roms), Ok(()));
    let chip = haptic.release();
    assert_eq!(chip.log, vec![Txn::Write(ADDRESS, vec![SEQUENCE, 1, 47, 0x8A, 123, 70, 16, 0xFF, 0])]);
    assert_eq!(&chip.regs[0x04..0x0c], &[1, 47, 0x8A, 123, 70, 16, 0xFF, 0]);
}

#[test]
fn standby_round_trip_keeps_the_mode_register() {
    for before in [0x00u8, 0x05, 0x47, 0x03, 0x3F] {
        let mut haptic = erm(FakeChip::with(MODE, before));
        assert_eq!(haptic.set_standby(true), Ok(()));
        assert_eq!(haptic.set_standby(false), Ok(()));
        let chip = haptic.release();
        assert_eq!(chip.regs[MODE as usize] & 0x07, before & 0x07);
        assert_eq!(chip.regs[MODE as usize], before & !0x40);
        assert_eq!(
            chip.writes(),
            vec![
                Txn::Write(ADDRESS, vec![MODE, before | 0x40]),
                Txn::Write(ADDRESS, vec![MODE, before & !0x40]),
            ]
        );
    }
}

#[test]
fn rom_mode_on_an_erm_motor() {
    let mut chip = FakeChip::with(CONTROL3, 0x81);
    chip.regs[MODE as usize] = 0x45;
    chip.regs[LIBRARY as usize] = 0x10;
    let mut haptic = erm(chip);
    assert_eq!(haptic.set_mode_rom(Library::B), Ok(()));
    assert_eq!(
        haptic.release().log,
        vec![
            Txn::Read(ADDRESS, CONTROL3),
            Txn::Read(ADDRESS, MODE),
            Txn::Read(ADDRESS, LIBRARY),
            Txn::Write(ADDRESS, vec![LIBRARY, 0x12]),
            Txn::Write(ADDRESS, vec![CONTROL3, 0xA1]),
            Txn::Write(ADDRESS, vec![MODE, 0x40]),
        ]
    );
}

#[test]
fn rom_mode_on_an_lra_motor() {
    let mut haptic = lra(FakeChip::with(CONTROL3, 0xA1));
    assert_eq!(haptic.set_mode_rom(Library::Lra), Ok(()));
    let chip = haptic.release();
    assert_eq!(chip.regs[CONTROL3 as usize], 0xA0);
    assert_eq!(chip.regs[LIBRARY as usize], 0x06);
    assert_eq!(chip.regs[MODE as usize], 0x40);
}

#[test]
fn lra_library_is_refused_on_an_erm_motor() {
    let mut haptic = erm(FakeChip::new());
    assert_eq!(haptic.set_mode_rom(Library::Lra), Err(DrvError::WrongMotorType));
    assert_eq!(haptic.set_mode(DriveMode::Rom(Library::Lra)), Err(DrvError::WrongMotorType));
    assert!(haptic.release().log.is_empty());
}

#[test]
fn analog_pwm_and_rtp_modes() {
    let mut haptic = erm(FakeChip::new());
    assert_eq!(haptic.set_mode_analog(), Ok(()));
    let chip = haptic.release();
    assert_eq!(chip.regs[CONTROL3 as usize], 0x82);
    assert_eq!(chip.regs[MODE as usize], 0x43);
    let mut haptic = erm(chip);
    assert_eq!(haptic.set_mode_pwm(), Ok(()));
    let chip = haptic.release();
    assert_eq!(chip.regs[CONTROL3 as usize], 0x80);
    assert_eq!(chip.regs[MODE as usize], 0x43);
    let mut haptic = erm(chip);
    assert_eq!(haptic.set_mode_rtp(), Ok(()));
    let chip = haptic.release();
    assert_eq!(chip.regs[CONTROL3 as usize], 0x88);
    assert_eq!(chip.regs[MODE as usize], 0x45);
    assert_eq!(
        &chip.log[8..],
        &[
            Txn::Read(ADDRESS, CONTROL3),
            Txn::Read(ADDRESS, MODE),
            Txn::Write(ADDRESS, vec![CONTROL3, 0x88]),
            Txn::Write(ADDRESS, vec![MODE, 0x45]),
        ]
    );
}

#[test]
fn mode_changes_never_write_the_other_open_loop_bit() {
    let targets = [DriveMode::Rom(Library::A), DriveMode::Pwm, DriveMode::Analog, DriveMode::Rtp];
    for before in [0x00u8, 0x01, 0x20, 0x21, 0xFF] {
        for target in targets {
            let mut haptic = erm(FakeChip::with(CONTROL3, before));
            assert_eq!(haptic.set_mode(target), Ok(()));
            assert_eq!(haptic.release().regs[CONTROL3 as usize] & 0x01, before & 0x01);
            let mut haptic = lra(FakeChip::with(CONTROL3, before));
            assert_eq!(haptic.set_mode(target), Ok(()));
            assert_eq!(haptic.release().regs[CONTROL3 as usize] & 0x20, before & 0x20);
        }
    }
}

#[test]
fn rtp_level_round_trip() {
    let mut haptic = erm(FakeChip::new());
    assert_eq!(haptic.set_rtp(0x7F), Ok(()));
    assert_eq!(haptic.rtp(), Ok(0x7F));
    assert_eq!(
        haptic.release().log,
        vec![Txn::Write(ADDRESS, vec![RTP, 0x7F]), Txn::Read(ADDRESS, RTP)]
    );
}

#[test]
fn go_reads_the_go_bit() {
    let mut haptic = erm(FakeChip::new());
    assert_eq!(haptic.go(), Ok(false));
    let mut chip = FakeChip::new();
    chip.busy_reads = 1;
    let mut haptic = erm(chip);
    assert_eq!(haptic.set_go(), Ok(()));
    assert_eq!(haptic.go(), Ok(true));
    assert_eq!(haptic.go(), Ok(false));
}

#[test]
fn otp_flag_is_bit_two_of_control_four() {
    let mut haptic = erm(FakeChip::with(CONTROL4, 0x04));
    assert_eq!(haptic.is_otp(), Ok(true));
    let mut haptic = erm(FakeChip::with(CONTROL4, 0xFB));
    assert_eq!(haptic.is_otp(), Ok(false));
}

#[test]
fn high_impedance_keeps_the_library() {
    let mut haptic = erm(FakeChip::with(LIBRARY, 0x02));
    assert_eq!(haptic.set_high_impedance_state(true), Ok(()));
    assert_eq!(haptic.release().regs[LIBRARY as usize], 0x12);
}

#[test]
fn time_offsets_are_written_in_twos_complement() {
    let mut haptic = erm(FakeChip::new());
    assert_eq!(haptic.set_overdrive_time_offset(-1), Ok(()));
    assert_eq!(haptic.set_sustain_time_offset_positive(5), Ok(()));
    assert_eq!(haptic.set_sustain_time_offset_negative(-128), Ok(()));
    assert_eq!(haptic.set_brake_time_offset(127), Ok(()));
    assert_eq!(
        haptic.release().log,
        vec![
            Txn::Write(ADDRESS, vec![0x0d, 0xFF]),
            Txn::Write(ADDRESS, vec![0x0e, 0x05]),
            Txn::Write(ADDRESS, vec![0x0f, 0x80]),
            Txn::Write(ADDRESS, vec![0x10, 0x7F]),
        ]
    );
}

#[test]
fn every_transaction_goes_to_the_shared_address() {
    assert_eq!(ADDRESS, 0x5a);
    let mut haptic = erm(FakeChip::new());
    assert_eq!(haptic.init(Calibration::Auto(CalibrationParams::default())), Ok(()));
    for txn in haptic.release().log {
        match txn {
            Txn::Write(address, _) => assert_eq!(address, 0x5a),
            Txn::Read(address, _) => assert_eq!(address, 0x5a),
        }
    }
}
