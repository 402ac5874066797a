//! The device handle and its operations.

use vstd::prelude::*;
use crate::bits::read_bit;
use crate::calibration::{Calibration, CalibrationParams, LoadParams};
use crate::effect::{codes_of, Effect};
use crate::error::DrvError;
use crate::protocol::{
    brought_up, busy_plan, calibrate_plan, control3_for_mode, diagnostics_plan, faithful,
    fetch_plan, forget, go_plan, high_impedance_plan, identity_plan, init_plan,
    lemma_faithful_extends, lemma_faithful_then, lemma_poll_count_skips, lemma_poll_plan_stable,
    lemma_routine_plan_stable, lemma_strategy_plan_stable, load_plan, mode_plan, otp_plan,
    poll_plan, readback_plan, reset_byte, reset_plan, routine_plan, seed_plan, sequence_plan,
    settle_plan, standby_plan, start_plan, still_set, store_plan, strategy_plan, then,
    verdict_plan, DriveMode, Plan, DEVICE_ID,
};
use crate::registers::{
    Control3Reg, Control4Reg, FeedbackControlReg, GoReg, Library, LibrarySelectionReg, Mode,
    ModeReg, Register, StatusReg, WaveformReg,
};
use crate::transport::{read_of, Exchange, Reply, Request, Transport, ADDRESS};

verus! {

/// A time offset as the register holds it, in two's complement.
pub open spec fn offset_byte(value: i8) -> u8 {
    value as u8
}

/// A time offset that is not negative is held as it is; a negative one is
/// held as 256 more.
pub proof fn lemma_offset_byte(value: i8)
    ensures
        value >= 0 ==> offset_byte(value) == value,
        value < 0 ==> offset_byte(value) == 256 + value,
{
    assert((value >= 0 ==> value as u8 == value) && (value < 0 ==> value as u8 == 256 + value))
        by (bit_vector);
}

/// A handle on one chip. It owns the bus it was given, remembers the motor
/// type it was made for, and records every transaction it issues.
pub struct Drv2605l<I2C: Transport> {
    i2c: I2C,
    lra: bool,
    log: Ghost<Seq<Exchange>>,
}

impl<I2C: Transport> Drv2605l<I2C> {
    /// Every transaction the handle has issued, with its answer, oldest
    /// first.
    pub closed spec fn trace(&self) -> Seq<Exchange> {
        self.log@
    }

    /// Whether the handle drives an LRA motor; otherwise an ERM motor.
    pub closed spec fn is_lra(&self) -> bool {
        self.lra
    }

    /// The bus the handle owns.
    pub closed spec fn bus(&self) -> I2C {
        self.i2c
    }

    /// The position in the trace where the next transaction will go.
    pub open spec fn mark(&self) -> int {
        self.trace().len() as int
    }

    /// Whether `self` is the handle `before` some transactions later: the
    /// motor type is the same and the trace has only grown.
    pub open spec fn continues(&self, before: &Self) -> bool {
        &&& self.is_lra() == before.is_lra()
        &&& before.trace().is_prefix_of(self.trace())
    }

    /// Whether the transactions issued since `before` carry out `plan` and
    /// give `result`.
    pub open spec fn ran<R>(
        &self,
        before: &Self,
        plan: Plan<R>,
        result: Result<R, DrvError>,
    ) -> bool {
        &&& self.continues(before)
        &&& faithful(self.trace(), before.mark(), self.mark(), plan, result)
    }

    /// Binds a bus and a motor type into a handle. Nothing is said on the
    /// bus.
    pub fn attach(i2c: I2C, lra: bool) -> (r: Self)
        ensures
            r.is_lra() == lra,
            r.bus() == i2c,
            r.trace() == Seq::<Exchange>::empty(),
    {
        Drv2605l { i2c, lra, log: Ghost(Seq::empty()) }
    }

    /// Gives the bus back.
    pub fn release(self) -> (r: I2C)
        ensures
            r == self.bus(),
    {
        self.i2c
    }

    /// Sends `bytes` to the chip in one transaction and records it. Together
    /// with `read` this is the only place that touches the bus or the trace.
    fn send(&mut self, bytes: &[u8]) -> (r: Result<(), DrvError>)
        ensures
            final(self).is_lra() == old(self).is_lra(),
            final(self).trace() == old(self).trace().push(
                Exchange {
                    request: Request::Write { address: ADDRESS, bytes: bytes@ },
                    reply: if r is Ok {
                        Reply::Written
                    } else {
                        Reply::Failed
                    },
                },
            ),
            r == Ok::<(), DrvError>(()) || r == Err::<(), DrvError>(DrvError::ConnectionError),
    {
        let answer = self.i2c.write(ADDRESS, bytes);
        let ghost reply = if answer is Ok {
            Reply::Written
        } else {
            Reply::Failed
        };
        self.log = Ghost(
            self.log@.push(
                Exchange { request: Request::Write { address: ADDRESS, bytes: bytes@ }, reply },
            ),
        );
        match answer {
            Ok(()) => Ok(()),
            Err(_) => Err(DrvError::ConnectionError),
        }
    }

    /// Writes `value` into `register`.
    fn write(&mut self, register: Register, value: u8) -> (r: Result<(), DrvError>)
        ensures
            final(self).ran(old(self), store_plan(register, value), r),
            final(self).mark() == old(self).mark() + 1,
            r is Ok <==> final(self).trace().last().ok(),
    {
        let buf: [u8; 2] = [register.addr(), value];
        let bytes = buf.as_slice();
        assert(bytes@ =~= seq![register.addr_of(), value]);
        self.send(bytes)
    }

    /// Reads the byte that `register` holds, in one transaction, and
    /// records it.
    fn read(&mut self, register: Register) -> (r: Result<u8, DrvError>)
        ensures
            final(self).ran(
                old(self),
                fetch_plan(register, final(self).trace(), old(self).mark()),
                r,
            ),
            final(self).mark() == old(self).mark() + 1,
            r is Ok <==> final(self).trace().last().ok(),
    {
        let answer = self.i2c.read(ADDRESS, register.addr());
        let ghost reply = match answer {
            Ok(byte) => Reply::Byte(byte),
            Err(_) => Reply::Failed,
        };
        self.log = Ghost(self.log@.push(Exchange { request: read_of(register), reply }));
        match answer {
            Ok(byte) => Ok(byte),
            Err(_) => Err(DrvError::ConnectionError),
        }
    }

    /// Checks that the chip on the bus identifies itself as `id`, and fails
    /// with `WrongDeviceId` if it does not.
    pub fn check_id(&mut self, id: u8) -> (r: Result<(), DrvError>)
        ensures
            final(self).ran(old(self), identity_plan(id, final(self).trace(), old(self).mark()), r),
    {
        let reg = StatusReg::new(self.read(Register::Status)?);
        if reg.device_id() != id {
            return Err(DrvError::WrongDeviceId);
        }
        Ok(())
    }

    /// Enters or leaves standby, the low-power state that keeps all
    /// configuration. The other bits of the mode register are written back
    /// as they were read.
    pub fn set_standby(&mut self, enable: bool) -> (r: Result<(), DrvError>)
        ensures
            final(self).ran(
                old(self),
                standby_plan(enable, final(self).trace(), old(self).mark()),
                r,
            ),
    {
        let mut mode = ModeReg::new(self.read(Register::Mode)?);
        mode.set_standby(enable);
        self.write(Register::Mode, mode.bits())
    }

    /// Reads the status register. The chip clears its flags on every read,
    /// so nothing is cached.
    pub fn status(&mut self) -> (r: Result<StatusReg, DrvError>)
        ensures
            final(self).ran(
                old(self),
                fetch_plan(Register::Status, final(self).trace(), old(self).mark()),
                match r {
                    Ok(reg) => Ok(reg@),
                    Err(e) => Err(e),
                },
            ),
    {
        match self.read(Register::Status) {
            Ok(byte) => Ok(StatusReg::new(byte)),
            Err(e) => Err(e),
        }
    }

    /// Reads the mode register.
    pub fn mode(&mut self) -> (r: Result<ModeReg, DrvError>)
        ensures
            final(self).ran(
                old(self),
                fetch_plan(Register::Mode, final(self).trace(), old(self).mark()),
                match r {
                    Ok(reg) => Ok(reg@),
                    Err(e) => Err(e),
                },
            ),
    {
        match self.read(Register::Mode) {
            Ok(byte) => Ok(ModeReg::new(byte)),
            Err(e) => Err(e),
        }
    }

    /// Sets the GO bit, which starts whatever the current mode plays.
    pub fn set_go(&mut self) -> (r: Result<(), DrvError>)
        ensures
            final(self).ran(old(self), go_plan(final(self).trace(), old(self).mark()), r),
    {
        let mut register = GoReg::new(self.read(Register::Go)?);
        register.set_go(true);
        self.write(Register::Go, register.bits())
    }

    /// Reads the GO bit. The chip clears it when playback, calibration or
    /// diagnostics are done.
    pub fn go(&mut self) -> (r: Result<bool, DrvError>)
        ensures
            final(self).ran(old(self), busy_plan(final(self).trace(), old(self).mark()), r),
    {
        Ok(GoReg::new(self.read(Register::Go)?).go())
    }

    /// Sets the drive level for real-time playback.
    pub fn set_rtp(&mut self, duty: u8) -> (r: Result<(), DrvError>)
        ensures
            final(self).ran(old(self), store_plan(Register::RealTimePlaybackInput, duty), r),
    {
        self.write(Register::RealTimePlaybackInput, duty)
    }

    /// Reads the drive level for real-time playback.
    pub fn rtp(&mut self) -> (r: Result<u8, DrvError>)
        ensures
            final(self).ran(
                old(self),
                fetch_plan(Register::RealTimePlaybackInput, final(self).trace(), old(self).mark()),
                r,
            ),
    {
        self.read(Register::RealTimePlaybackInput)
    }

    /// Loads eight effects into the sequencer, in one transaction. Playback
    /// runs through them in order and ends early at the first `Stop`.
    pub fn set_rom(&mut self, roms: &[Effect; 8]) -> (r: Result<(), DrvError>)
        ensures
            final(self).ran(old(self), sequence_plan(codes_of(roms@)), r),
    {
        let buf: [u8; 9] = [
            Register::WaveformSequence0.addr(),
            roms[0].code(),
            roms[1].code(),
            roms[2].code(),
            roms[3].code(),
            roms[4].code(),
            roms[5].code(),
            roms[6].code(),
            roms[7].code(),
        ];
        let bytes = buf.as_slice();
        assert(bytes@ =~= seq![Register::WaveformSequence0.addr_of()] + codes_of(roms@));
        self.send(bytes)
    }

    /// Loads a single effect into the sequencer, followed by `Stop`.
    pub fn set_rom_single(&mut self, effect: Effect) -> (r: Result<(), DrvError>)
        ensures
            final(self).ran(
                old(self),
                sequence_plan(seq![effect.code_of(), Effect::Stop.code_of()]),
                r,
            ),
    {
        let buf: [u8; 3] = [
            Register::WaveformSequence0.addr(),
            WaveformReg::new_effect(effect).bits(),
            WaveformReg::new_stop().bits(),
        ];
        let bytes = buf.as_slice();
        assert(bytes@ =~= seq![Register::WaveformSequence0.addr_of()] + seq![
            effect.code_of(),
            Effect::Stop.code_of(),
        ]);
        self.send(bytes)
    }

    /// Reads the calibration results the chip holds, whether they were
    /// loaded or found by a calibration run.
    pub fn calibration(&mut self) -> (r: Result<LoadParams, DrvError>)
        ensures
            final(self).ran(old(self), readback_plan(final(self).trace(), old(self).mark()), r),
    {
        let feedback = FeedbackControlReg::new(self.read(Register::FeedbackControl)?);
        let comp = self.read(Register::AutoCalibrationCompensationResult)?;
        let bemf = self.read(Register::AutoCalibrationBackEMFResult)?;
        Ok(LoadParams { gain: feedback.bemf_gain(), comp, bemf })
    }

    /// Loads calibration results into the chip.
    pub fn set_calibration(&mut self, load: LoadParams) -> (r: Result<(), DrvError>)
        ensures
            final(self).ran(old(self), load_plan(load, final(self).trace(), old(self).mark()), r),
    {
        let mut fbcr = FeedbackControlReg::new(self.read(Register::FeedbackControl)?);
        fbcr.set_bemf_gain(load.gain);
        self.write(Register::FeedbackControl, fbcr.bits())?;
        self.write(Register::AutoCalibrationCompensationResult, load.comp)?;
        self.write(Register::AutoCalibrationBackEMFResult, load.bemf)
    }

    /// Reports whether the one-time-programmable memory of the chip has
    /// been written.
    pub fn is_otp(&mut self) -> (r: Result<bool, DrvError>)
        ensures
            final(self).ran(old(self), otp_plan(final(self).trace(), old(self).mark()), r),
    {
        let reg4 = Control4Reg::new(self.read(Register::Control4)?);
        Ok(reg4.otp_status())
    }

    /// Puts the output driver into its high-impedance state, or takes it
    /// out of it.
    pub fn set_high_impedance_state(&mut self, value: bool) -> (r: Result<(), DrvError>)
        ensures
            final(self).ran(
                old(self),
                high_impedance_plan(value, final(self).trace(), old(self).mark()),
                r,
            ),
    {
        let mut register = LibrarySelectionReg::new(self.read(Register::LibrarySelection)?);
        register.set_hi_z(value);
        self.write(Register::LibrarySelection, register.bits())
    }

    /// Adds `value` playback intervals to the overdrive part of the library
    /// waveforms. Only open-loop operation uses it.
    pub fn set_overdrive_time_offset(&mut self, value: i8) -> (r: Result<(), DrvError>)
        ensures
            final(self).ran(
                old(self),
                store_plan(Register::OverdriveTimeOffset, offset_byte(value)),
                r,
            ),
    {
        self.write(Register::OverdriveTimeOffset, #[verifier::truncate] (value as u8))
    }

    /// Adds `value` playback intervals to the positive sustain part of the
    /// library waveforms.
    pub fn set_sustain_time_offset_positive(&mut self, value: i8) -> (r: Result<(), DrvError>)
        ensures
            final(self).ran(
                old(self),
                store_plan(Register::SustainTimeOffsetPositive, offset_byte(value)),
                r,
            ),
    {
        self.write(Register::SustainTimeOffsetPositive, #[verifier::truncate] (value as u8))
    }

    /// Adds `value` playback intervals to the negative sustain part of the
    /// library waveforms.
    pub fn set_sustain_time_offset_negative(&mut self, value: i8) -> (r: Result<(), DrvError>)
        ensures
            final(self).ran(
                old(self),
                store_plan(Register::SustainTimeOffsetNegative, offset_byte(value)),
                r,
            ),
    {
        self.write(Register::SustainTimeOffsetNegative, #[verifier::truncate] (value as u8))
    }

    /// Adds `value` playback intervals to the braking part of the library
    /// waveforms. Only open-loop operation uses it.
    pub fn set_brake_time_offset(&mut self, value: i8) -> (r: Result<(), DrvError>)
        ensures
            final(self).ran(
                old(self),
                store_plan(Register::BrakeTimeOffset, offset_byte(value)),
                r,
            ),
    {
        self.write(Register::BrakeTimeOffset, #[verifier::truncate] (value as u8))
    }

    /// Selects a drive mode. A mode that does not fit the motor type fails
    /// with `WrongMotorType` before anything is said on the bus.
    pub fn set_mode(&mut self, target: DriveMode) -> (r: Result<(), DrvError>)
        ensures
            final(self).ran(
                old(self),
                mode_plan(old(self).is_lra(), target, final(self).trace(), old(self).mark()),
                r,
            ),
    {
        if let DriveMode::Rom(library) = target {
            if library == Library::Lra && !self.lra {
                return Err(DrvError::WrongMotorType);
            }
        }
        let current = Control3Reg::new(self.read(Register::Control3)?);
        let mut mode = ModeReg::new(self.read(Register::Mode)?);
        if let DriveMode::Rom(library) = target {
            let mut selection = LibrarySelectionReg::new(self.read(Register::LibrarySelection)?);
            selection.set_library_selection(library.code());
            self.write(Register::LibrarySelection, selection.bits())?;
        }
        let ctrl3 = control3_for_mode(self.lra, target, current);
        self.write(Register::Control3, ctrl3.bits())?;
        mode.set_mode(target.mode().code());
        self.write(Register::Mode, mode.bits())
    }

    /// Selects playback from the given waveform library, which must match
    /// the motor. An ERM motor is driven open loop, as its libraries are
    /// tuned for that. Load effects with `set_rom` or `set_rom_single` and
    /// fire them with `set_go`.
    pub fn set_mode_rom(&mut self, library: Library) -> (r: Result<(), DrvError>)
        ensures
            final(self).ran(
                old(self),
                mode_plan(
                    old(self).is_lra(),
                    DriveMode::Rom(library),
                    final(self).trace(),
                    old(self).mark(),
                ),
                r,
            ),
    {
        self.set_mode(DriveMode::Rom(library))
    }

    /// Selects analog input: the voltage on the IN/TRIG pin sets the drive
    /// level until the mode changes or the chip enters standby.
    pub fn set_mode_analog(&mut self) -> (r: Result<(), DrvError>)
        ensures
            final(self).ran(
                old(self),
                mode_plan(
                    old(self).is_lra(),
                    DriveMode::Analog,
                    final(self).trace(),
                    old(self).mark(),
                ),
                r,
            ),
    {
        self.set_mode(DriveMode::Analog)
    }

    /// Selects PWM input: the duty cycle on the IN/TRIG pin sets the drive
    /// level, from full braking at 0% to the rated voltage at 100%.
    pub fn set_mode_pwm(&mut self) -> (r: Result<(), DrvError>)
        ensures
            final(self).ran(
                old(self),
                mode_plan(
                    old(self).is_lra(),
                    DriveMode::Pwm,
                    final(self).trace(),
                    old(self).mark(),
                ),
                r,
            ),
    {
        self.set_mode(DriveMode::Pwm)
    }

    /// Selects real-time playback: the level given to `set_rtp` drives the
    /// motor until the next call, a mode change or standby.
    pub fn set_mode_rtp(&mut self) -> (r: Result<(), DrvError>)
        ensures
            final(self).ran(
                old(self),
                mode_plan(
                    old(self).is_lra(),
                    DriveMode::Rtp,
                    final(self).trace(),
                    old(self).mark(),
                ),
                r,
            ),
    {
        self.set_mode(DriveMode::Rtp)
    }

    /// Leaves standby, enters the mode of a routine and sets the GO bit.
    fn start_routine(&mut self, routine: Mode) -> (r: Result<(), DrvError>)
        ensures
            final(self).ran(
                old(self),
                start_plan(routine, final(self).trace(), old(self).mark()),
                r,
            ),
    {
        let mut mode = ModeReg::new(self.read(Register::Mode)?);
        mode.set_standby(false);
        mode.set_mode(routine.code());
        self.write(Register::Mode, mode.bits())?;
        let mut register = GoReg::new(self.read(Register::Go)?);
        register.set_go(true);
        self.write(Register::Go, register.bits())
    }

    /// Polls `register` until its bit `pos` reads clear, and gives up with
    /// `Timeout` after `max_polls` polls that found it set.
    fn await_clear(&mut self, register: Register, pos: u8, max_polls: u32) -> (r: Result<
        (),
        DrvError,
    >)
        requires
            pos <= 7,
        ensures
            final(self).ran(
                old(self),
                poll_plan(register, pos, max_polls as nat, final(self).trace(), old(self).mark()),
                r,
            ),
    {
        let ghost start = self.mark();
        let mut polls: u32 = 0;
        while polls < max_polls
            invariant
                pos <= 7,
                polls <= max_polls,
                self.is_lra() == old(self).is_lra(),
                old(self).trace().is_prefix_of(self.trace()),
                start == old(self).mark(),
                self.mark() == start + polls,
                forall|j: int|
                    start <= j < self.mark() ==> (#[trigger] self.trace()[j]).request == read_of(
                        register,
                    ) && self.trace()[j].well_formed() && still_set(self.trace(), j, pos),
            decreases max_polls - polls,
        {
            let ghost earlier = self.trace();
            let answer = self.read(register);
            proof {
                assert forall|j: int| start <= j < start + polls implies (
                #[trigger] self.trace()[j]).request == read_of(register)
                    && self.trace()[j].well_formed() && still_set(self.trace(), j, pos) by {
                    assert(earlier[j] == self.trace()[j]);
                }
                let last = self.trace()[start + polls];
                assert(last.request == read_of(register) && last.well_formed());
                assert(answer matches Ok(byte) ==> last.reply == Reply::Byte(byte));
                lemma_poll_count_skips(self.trace(), start, pos, max_polls as nat, polls as nat);
            }
            match answer {
                Err(e) => {
                    return Err(e);
                },
                Ok(byte) => {
                    if !read_bit(byte, pos) {
                        return Ok(());
                    }
                },
            }
            polls = polls + 1;
        }
        proof {
            lemma_poll_count_skips(self.trace(), start, pos, max_polls as nat, polls as nat);
        }
        Err(DrvError::Timeout)
    }

    /// Reads the verdict of a routine out of the status register.
    fn verdict(&mut self, failure: DrvError) -> (r: Result<(), DrvError>)
        ensures
            final(self).ran(
                old(self),
                verdict_plan(failure, final(self).trace(), old(self).mark()),
                r,
            ),
    {
        let reg = StatusReg::new(self.read(Register::Status)?);
        if reg.diagnostic_result() {
            return Err(failure);
        }
        Ok(())
    }

    /// Waits for a routine to finish and reads its verdict.
    fn settle(&mut self, failure: DrvError, max_polls: u32) -> (r: Result<(), DrvError>)
        ensures
            final(self).ran(
                old(self),
                settle_plan(failure, max_polls as nat, final(self).trace(), old(self).mark()),
                r,
            ),
    {
        let ghost from = self.mark();
        let waited = self.await_clear(Register::Go, GoReg::GO, max_polls);
        let ghost mid = self.mark();
        let ghost short = self.trace();
        let ghost poll = poll_plan(Register::Go, GoReg::GO, max_polls as nat, short, from);
        if let Err(e) = waited {
            proof {
                lemma_faithful_then(
                    short,
                    from,
                    mid,
                    mid,
                    poll,
                    waited,
                    verdict_plan(failure, short, from + poll.steps.len()),
                    Err::<(), DrvError>(e),
                );
            }
            return Err(e);
        }
        let r = self.verdict(failure);
        proof {
            lemma_poll_plan_stable(
                Register::Go,
                GoReg::GO,
                max_polls as nat,
                short,
                self.trace(),
                from,
            );
            lemma_faithful_extends(short, self.trace(), from, mid, poll, waited);
            lemma_faithful_then(
                self.trace(),
                from,
                mid,
                self.mark(),
                poll,
                waited,
                verdict_plan(failure, self.trace(), mid),
                r,
            );
        }
        r
    }

    /// Runs a routine of the chip from start to verdict.
    fn run_routine(&mut self, routine: Mode, failure: DrvError, max_polls: u32) -> (r: Result<
        (),
        DrvError,
    >)
        ensures
            final(self).ran(
                old(self),
                routine_plan(
                    routine,
                    failure,
                    max_polls as nat,
                    final(self).trace(),
                    old(self).mark(),
                ),
                r,
            ),
    {
        let ghost from = self.mark();
        let started = self.start_routine(routine);
        let ghost mid = self.mark();
        let ghost short = self.trace();
        let ghost start = start_plan(routine, short, from);
        if let Err(e) = started {
            proof {
                lemma_faithful_then(
                    short,
                    from,
                    mid,
                    mid,
                    start,
                    started,
                    settle_plan(failure, max_polls as nat, short, from + 4),
                    Err::<(), DrvError>(e),
                );
            }
            return Err(e);
        }
        let r = self.settle(failure, max_polls);
        proof {
            assert(short[from] == self.trace()[from]);
            assert(short[from + 2] == self.trace()[from + 2]);
            lemma_faithful_extends(short, self.trace(), from, mid, start, started);
            lemma_faithful_then(
                self.trace(),
                from,
                mid,
                self.mark(),
                start,
                started,
                settle_plan(failure, max_polls as nat, self.trace(), mid),
                r,
            );
        }
        r
    }

    /// Runs the diagnostic routine of the chip, polling the GO bit at most
    /// `max_polls` times. Fails with `DeviceDiagnosticFailed` where the
    /// actuator is missing, shorted or out of range.
    pub fn diagnostics(&mut self, max_polls: u32) -> (r: Result<(), DrvError>)
        ensures
            final(self).ran(
                old(self),
                diagnostics_plan(max_polls as nat, final(self).trace(), old(self).mark()),
                r,
            ),
    {
        self.run_routine(Mode::Diagnostics, DrvError::DeviceDiagnosticFailed, max_polls)
    }

    /// Runs auto-calibration, polling the GO bit at most `max_polls` times,
    /// and reads the results back. Fails with `CalibrationFailed` where the
    /// run did not converge; nothing is read back then.
    pub fn calibrate(&mut self, max_polls: u32) -> (r: Result<LoadParams, DrvError>)
        ensures
            final(self).ran(
                old(self),
                calibrate_plan(max_polls as nat, final(self).trace(), old(self).mark()),
                r,
            ),
    {
        let ghost from = self.mark();
        let ran = self.run_routine(Mode::AutoCalibration, DrvError::CalibrationFailed, max_polls);
        let ghost mid = self.mark();
        let ghost short = self.trace();
        let ghost run = routine_plan(
            Mode::AutoCalibration,
            DrvError::CalibrationFailed,
            max_polls as nat,
            short,
            from,
        );
        if let Err(e) = ran {
            proof {
                lemma_faithful_then(
                    short,
                    from,
                    mid,
                    mid,
                    run,
                    ran,
                    readback_plan(short, from + run.steps.len()),
                    Err::<LoadParams, DrvError>(e),
                );
            }
            return Err(e);
        }
        let r = self.calibration();
        proof {
            lemma_routine_plan_stable(
                Mode::AutoCalibration,
                DrvError::CalibrationFailed,
                max_polls as nat,
                short,
                self.trace(),
                from,
            );
            lemma_faithful_extends(short, self.trace(), from, mid, run, ran);
            lemma_faithful_then(
                self.trace(),
                from,
                mid,
                self.mark(),
                run,
                ran,
                readback_plan(self.trace(), mid),
                r,
            );
        }
        r
    }

    /// Resets the chip, as a power cycle would, and polls the reset bit at
    /// most `max_polls` times until the chip has cleared it.
    pub fn reset(&mut self, max_polls: u32) -> (r: Result<(), DrvError>)
        ensures
            final(self).ran(
                old(self),
                reset_plan(max_polls as nat, final(self).trace(), old(self).mark()),
                r,
            ),
    {
        let ghost from = self.mark();
        let mut mode = ModeReg::default();
        mode.set_dev_reset(true);
        let stored = self.write(Register::Mode, mode.bits());
        let ghost mid = self.mark();
        let ghost short = self.trace();
        let ghost store = store_plan(Register::Mode, reset_byte());
        if let Err(e) = stored {
            proof {
                lemma_faithful_then(
                    short,
                    from,
                    mid,
                    mid,
                    store,
                    stored,
                    poll_plan(
                        Register::Mode,
                        ModeReg::DEV_RESET,
                        max_polls as nat,
                        short,
                        from + 1,
                    ),
                    Err::<(), DrvError>(e),
                );
            }
            return Err(e);
        }
        let r = self.await_clear(Register::Mode, ModeReg::DEV_RESET, max_polls);
        proof {
            lemma_faithful_extends(short, self.trace(), from, mid, store, stored);
            lemma_faithful_then(
                self.trace(),
                from,
                mid,
                self.mark(),
                store,
                stored,
                poll_plan(Register::Mode, ModeReg::DEV_RESET, max_polls as nat, self.trace(), mid),
                r,
            );
        }
        r
    }

    /// Writes the inputs of an automatic calibration run.
    fn seed(&mut self, params: &CalibrationParams) -> (r: Result<(), DrvError>)
        ensures
            final(self).ran(old(self), seed_plan(*params, old(self).is_lra()), r),
    {
        let feedback = params.feedback_seed(self.lra);
        let ctrl2 = params.control2_seed();
        let ctrl4 = params.control4_seed();
        let ctrl1 = params.control1_seed();
        self.write(Register::FeedbackControl, feedback.bits())?;
        self.write(Register::Control2, ctrl2.bits())?;
        self.write(Register::Control4, ctrl4.bits())?;
        self.write(Register::RatedVoltage, params.rated)?;
        self.write(Register::OverdriveClampVoltage, params.clamp)?;
        self.write(Register::Control1, ctrl1.bits())
    }

    /// Carries out a calibration strategy: checks the factory calibration,
    /// loads earlier results, or seeds and runs auto-calibration.
    pub fn apply_calibration(&mut self, calibration: Calibration) -> (r: Result<(), DrvError>)
        ensures
            final(self).ran(
                old(self),
                strategy_plan(
                    calibration,
                    old(self).is_lra(),
                    final(self).trace(),
                    old(self).mark(),
                ),
                r,
            ),
    {
        match calibration {
            Calibration::Otp => {
                if !self.is_otp()? {
                    return Err(DrvError::OTPNotProgrammed);
                }
                Ok(())
            },
            Calibration::Load(load) => self.set_calibration(load),
            Calibration::Auto(params) => {
                let ghost from = self.mark();
                let ghost budget = params.max_polls as nat;
                let seeded = self.seed(&params);
                let ghost mid = self.mark();
                let ghost short = self.trace();
                let ghost seed = seed_plan(params, self.is_lra());
                if let Err(e) = seeded {
                    proof {
                        let run = calibrate_plan(budget, short, from + 6);
                        lemma_faithful_then(
                            short,
                            from,
                            mid,
                            mid,
                            seed,
                            seeded,
                            Plan { steps: run.steps, result: forget(run.result) },
                            Err::<(), DrvError>(e),
                        );
                    }
                    return Err(e);
                }
                let calibrated = self.calibrate(params.max_polls);
                let r = match calibrated {
                    Ok(_) => Ok(()),
                    Err(e) => Err(e),
                };
                proof {
                    let run = calibrate_plan(budget, self.trace(), mid);
                    lemma_faithful_extends(short, self.trace(), from, mid, seed, seeded);
                    lemma_faithful_then(
                        self.trace(),
                        from,
                        mid,
                        self.mark(),
                        seed,
                        seeded,
                        Plan { steps: run.steps, result: forget(run.result) },
                        r,
                    );
                }
                r
            },
        }
    }

    /// Brings the chip up: checks that it is a DRV2605L, carries out the
    /// calibration strategy and parks the chip in standby. The first step
    /// that fails ends the bring-up; the chip is then left as far as it was
    /// configured.
    pub fn init(&mut self, calibration: Calibration) -> (r: Result<(), DrvError>)
        ensures
            final(self).ran(
                old(self),
                init_plan(calibration, old(self).is_lra(), final(self).trace(), old(self).mark()),
                r,
            ),
    {
        let ghost from = self.mark();
        let ghost lra = self.is_lra();
        let checked = self.check_id(DEVICE_ID);
        let ghost mid = self.mark();
        let ghost first = self.trace();
        let ghost identity = identity_plan(DEVICE_ID, first, from);
        if let Err(e) = checked {
            proof {
                let strategy = strategy_plan(calibration, lra, first, from + 1);
                lemma_faithful_then(
                    first,
                    from,
                    mid,
                    mid,
                    identity,
                    checked,
                    then(strategy, standby_plan(true, first, from + 1 + strategy.steps.len())),
                    Err::<(), DrvError>(e),
                );
            }
            return Err(e);
        }
        let applied = self.apply_calibration(calibration);
        let ghost end = self.mark();
        let ghost second = self.trace();
        let ghost strategy = strategy_plan(calibration, lra, second, mid);
        if let Err(e) = applied {
            proof {
                let rest = then(strategy, standby_plan(true, second, mid + strategy.steps.len()));
                lemma_faithful_then(
                    second,
                    mid,
                    end,
                    end,
                    strategy,
                    applied,
                    standby_plan(true, second, mid + strategy.steps.len()),
                    Err::<(), DrvError>(e),
                );
                assert(first[from] == second[from]);
                lemma_faithful_extends(first, second, from, mid, identity, checked);
                lemma_faithful_then(
                    second,
                    from,
                    mid,
                    end,
                    identity,
                    checked,
                    rest,
                    Err::<(), DrvError>(e),
                );
            }
            return Err(e);
        }
        let r = self.set_standby(true);
        proof {
            let parked = standby_plan(true, self.trace(), end);
            lemma_strategy_plan_stable(calibration, lra, second, self.trace(), mid);
            lemma_faithful_extends(second, self.trace(), mid, end, strategy, applied);
            lemma_faithful_then(self.trace(), mid, end, self.mark(), strategy, applied, parked, r);
            assert(first[from] == self.trace()[from]);
            lemma_faithful_extends(first, self.trace(), from, mid, identity, checked);
            lemma_faithful_then(
                self.trace(),
                from,
                mid,
                self.mark(),
                identity,
                checked,
                then(strategy, parked),
                r,
            );
        }
        r
    }

    /// Returns a calibrated handle, parked in standby to save power. The
    /// bus is taken over; where the bring-up fails it is dropped together
    /// with the handle. The error is then one that a bring-up of this
    /// strategy and motor type can end in.
    ///
    /// Select a mode and call `set_go` to make the motor move.
    pub fn new(i2c: I2C, calibration: Calibration, lra: bool) -> (r: Result<Self, DrvError>)
        ensures
            match r {
                Ok(haptic) => haptic.is_lra() == lra && brought_up(
                    calibration,
                    lra,
                    haptic.trace(),
                    Ok(()),
                ),
                Err(e) => exists|trace: Seq<Exchange>| #[trigger]
                    brought_up(calibration, lra, trace, Err(e)),
            },
    {
        let mut haptic = Self::attach(i2c, lra);
        match haptic.init(calibration) {
            Ok(()) => Ok(haptic),
            Err(e) => {
                assert(brought_up(calibration, lra, haptic.trace(), Err(e)));
                Err(e)
            },
        }
    }
}

} // verus!
