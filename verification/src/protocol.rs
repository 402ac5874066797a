//! What each operation of the driver says on the bus.
//!
//! An operation is described by its plan: the requests it issues, in order,
//! if every transaction goes through, and the result it then returns. The
//! bytes it reads steer both, so a plan is a function of the trace it is
//! held against. A run is faithful to a plan when it issues the planned
//! requests one by one and stops at the first transaction that fails.

use vstd::prelude::*;
use crate::bits::{
    get_bit, get_field, lemma_set_bit, lemma_set_bit_keeps_field, set_bit, set_field,
};
use crate::calibration::{Calibration, CalibrationParams, LoadParams};
use crate::effect::{codes_of, Effect};
use crate::error::DrvError;
use crate::registers::{
    Control3Reg, Control4Reg, FeedbackControlReg, GoReg, Library, LibrarySelectionReg, Mode,
    ModeReg, Register, StatusReg,
};
use crate::transport::{byte_at, read_of, write_block, write_to, Exchange, Request, ADDRESS};

verus! {

/// The device identifier of the DRV2605L.
pub const DEVICE_ID: u8 = 7;

/// The requests of an operation, and what it returns once all of them went
/// through.
pub struct Plan<R> {
    pub steps: Seq<Request>,
    pub result: Result<R, DrvError>,
}

/// `first`, and after it `second` unless `first` already ends in an error.
pub open spec fn then<A, B>(first: Plan<A>, second: Plan<B>) -> Plan<B> {
    match first.result {
        Ok(_) => Plan { steps: first.steps + second.steps, result: second.result },
        Err(e) => Plan { steps: first.steps, result: Err(e) },
    }
}

/// Whether the transactions `from .. to` of `trace` carry out `plan` and
/// `result` is what comes of it: each transaction is the planned request
/// with a fitting reply, only the last may have failed, a failure gives
/// `ConnectionError`, and without one the plan is complete and gives its
/// own result.
pub open spec fn faithful<R>(
    trace: Seq<Exchange>,
    from: int,
    to: int,
    plan: Plan<R>,
    result: Result<R, DrvError>,
) -> bool {
    &&& 0 <= from <= to <= trace.len()
    &&& to - from <= plan.steps.len()
    &&& forall|j: int|
        from <= j < to ==> (#[trigger] trace[j]).request == plan.steps[j - from]
            && trace[j].well_formed()
    &&& forall|j: int| from <= j < to - 1 ==> (#[trigger] trace[j]).ok()
    &&& if to > from && !trace[to - 1].ok() {
        result == Err::<R, DrvError>(DrvError::ConnectionError)
    } else {
        to - from == plan.steps.len() && result == plan.result
    }
}

/// A faithful run stays faithful when the trace grows behind it.
pub proof fn lemma_faithful_extends<R>(
    old_trace: Seq<Exchange>,
    trace: Seq<Exchange>,
    from: int,
    to: int,
    plan: Plan<R>,
    result: Result<R, DrvError>,
)
    requires
        faithful(old_trace, from, to, plan, result),
        old_trace.is_prefix_of(trace),
    ensures
        faithful(trace, from, to, plan, result),
{
    assert forall|j: int| from <= j < to implies (#[trigger] trace[j]) == old_trace[j] by {}
}

/// Two faithful runs in a row are a faithful run of the two plans in a row.
/// Where the first run ends in an error, it is the whole run.
pub proof fn lemma_faithful_then<A, B>(
    trace: Seq<Exchange>,
    from: int,
    mid: int,
    to: int,
    first: Plan<A>,
    first_result: Result<A, DrvError>,
    second: Plan<B>,
    result: Result<B, DrvError>,
)
    requires
        faithful(trace, from, mid, first, first_result),
        first_result is Ok ==> faithful(trace, mid, to, second, result),
        first_result matches Err(e) ==> to == mid && result == Err::<B, DrvError>(e),
    ensures
        faithful(trace, from, to, then(first, second), result),
{
    let both = then(first, second);
    if first_result is Ok {
        assert(mid - from == first.steps.len());
        assert forall|j: int| from <= j < to implies (#[trigger] trace[j]).request
            == both.steps[j - from] && trace[j].well_formed() by {
            if j >= mid {
                assert(both.steps[j - from] == second.steps[j - mid]);
            }
        }
        assert forall|j: int| from <= j < to - 1 implies (#[trigger] trace[j]).ok() by {
            if j == mid - 1 {
                assert(trace[mid - 1].ok());
            }
        }
    } else {
        assert forall|j: int| from <= j < to implies (#[trigger] trace[j]).request
            == both.steps[j - from] && trace[j].well_formed() by {
            assert(both.steps[j - from] == first.steps[j - from]);
        }
    }
}

/// Read `register` and return the byte.
pub open spec fn fetch_plan(register: Register, trace: Seq<Exchange>, from: int) -> Plan<u8> {
    Plan { steps: seq![read_of(register)], result: Ok(byte_at(trace, from)) }
}

/// Write `value` into `register`.
pub open spec fn store_plan(register: Register, value: u8) -> Plan<()> {
    Plan { steps: seq![write_to(register, value)], result: Ok(()) }
}

/// Read `register`, then write `value` into it. Held against a trace,
/// `value` is computed from the byte that was read.
pub open spec fn update_plan(register: Register, value: u8) -> Plan<()> {
    Plan { steps: seq![read_of(register), write_to(register, value)], result: Ok(()) }
}

/// Read the status register and compare its device identifier with `id`.
pub open spec fn identity_plan(id: u8, trace: Seq<Exchange>, from: int) -> Plan<()> {
    Plan {
        steps: seq![read_of(Register::Status)],
        result: if get_field(
            byte_at(trace, from),
            StatusReg::DEVICE_ID_MSB,
            StatusReg::DEVICE_ID_LSB,
        ) == id {
            Ok(())
        } else {
            Err(DrvError::WrongDeviceId)
        },
    }
}

/// Set or clear the standby bit and keep the rest of the mode register.
pub open spec fn standby_plan(enable: bool, trace: Seq<Exchange>, from: int) -> Plan<()> {
    update_plan(Register::Mode, set_bit(byte_at(trace, from), ModeReg::STANDBY, enable))
}

/// Set the GO bit and keep the rest of the GO register.
pub open spec fn go_plan(trace: Seq<Exchange>, from: int) -> Plan<()> {
    update_plan(Register::Go, set_bit(byte_at(trace, from), GoReg::GO, true))
}

/// Read the GO register and report its GO bit.
pub open spec fn busy_plan(trace: Seq<Exchange>, from: int) -> Plan<bool> {
    Plan {
        steps: seq![read_of(Register::Go)],
        result: Ok(get_bit(byte_at(trace, from), GoReg::GO)),
    }
}

/// Read control register 4 and report whether the one-time-programmable
/// memory has been written.
pub open spec fn otp_plan(trace: Seq<Exchange>, from: int) -> Plan<bool> {
    Plan {
        steps: seq![read_of(Register::Control4)],
        result: Ok(get_bit(byte_at(trace, from), Control4Reg::OTP_STATUS)),
    }
}

/// Set or clear the high-impedance bit and keep the rest of its register.
pub open spec fn high_impedance_plan(value: bool, trace: Seq<Exchange>, from: int) -> Plan<()> {
    update_plan(
        Register::LibrarySelection,
        set_bit(byte_at(trace, from), LibrarySelectionReg::HI_Z, value),
    )
}

/// Write the eight sequencer slots in one transaction.
pub open spec fn sequence_plan(codes: Seq<u8>) -> Plan<()> {
    Plan { steps: seq![write_block(Register::WaveformSequence0, codes)], result: Ok(()) }
}

/// Read the calibration results: the gain out of the feedback control
/// register, then compensation and back-EMF.
pub open spec fn readback_plan(trace: Seq<Exchange>, from: int) -> Plan<LoadParams> {
    Plan {
        steps: seq![
            read_of(Register::FeedbackControl),
            read_of(Register::AutoCalibrationCompensationResult),
            read_of(Register::AutoCalibrationBackEMFResult),
        ],
        result: Ok(
            LoadParams {
                gain: get_field(
                    byte_at(trace, from),
                    FeedbackControlReg::BEMF_GAIN_MSB,
                    FeedbackControlReg::BEMF_GAIN_LSB,
                ),
                comp: byte_at(trace, from + 1),
                bemf: byte_at(trace, from + 2),
            },
        ),
    }
}

/// Load calibration results: put the gain into the feedback control
/// register, keeping its other fields, then write compensation and
/// back-EMF.
pub open spec fn load_plan(load: LoadParams, trace: Seq<Exchange>, from: int) -> Plan<()> {
    Plan {
        steps: seq![
            read_of(Register::FeedbackControl),
            write_to(
                Register::FeedbackControl,
                set_field(
                    byte_at(trace, from),
                    FeedbackControlReg::BEMF_GAIN_MSB,
                    FeedbackControlReg::BEMF_GAIN_LSB,
                    load.gain,
                ),
            ),
            write_to(Register::AutoCalibrationCompensationResult, load.comp),
            write_to(Register::AutoCalibrationBackEMFResult, load.bemf),
        ],
        result: Ok(()),
    }
}

/// The drive modes a caller can select.
#[derive(Debug, Clone, Copy, PartialEq, Eq, Structural)]
pub enum DriveMode {
    /// Play effects of the given library when the GO bit is set.
    Rom(Library),
    /// Follow the duty cycle of a PWM signal on the IN/TRIG pin.
    Pwm,
    /// Follow an analog voltage on the IN/TRIG pin.
    Analog,
    /// Follow the real-time playback register.
    Rtp,
}

impl DriveMode {
    /// The operating mode the chip is put into.
    pub open spec fn mode_of(self) -> Mode {
        match self {
            DriveMode::Rom(_) => Mode::InternalTrigger,
            DriveMode::Pwm => Mode::PwmInputAndAnalogInput,
            DriveMode::Analog => Mode::PwmInputAndAnalogInput,
            DriveMode::Rtp => Mode::RealTimePlayback,
        }
    }

    /// Whether a handle of the given motor type may select the mode. The
    /// LRA library is of no use to an ERM motor; everything else is open to
    /// both.
    pub open spec fn fits(self, lra: bool) -> bool {
        !(self == DriveMode::Rom(Library::Lra) && !lra)
    }

    /// The operating mode the chip is put into.
    pub fn mode(self) -> (r: Mode)
        ensures
            r == self.mode_of(),
    {
        match self {
            DriveMode::Rom(_) => Mode::InternalTrigger,
            DriveMode::Pwm => Mode::PwmInputAndAnalogInput,
            DriveMode::Analog => Mode::PwmInputAndAnalogInput,
            DriveMode::Rtp => Mode::RealTimePlayback,
        }
    }
}

/// The position of the open-loop bit that belongs to the motor type.
pub open spec fn open_loop_bit(lra: bool) -> u8 {
    if lra {
        Control3Reg::LRA_OPEN_LOOP
    } else {
        Control3Reg::ERM_OPEN_LOOP
    }
}

/// The control 3 byte for a drive mode, given the byte the register holds.
/// Library playback runs an ERM motor open loop, since the ERM libraries
/// are tuned for that, and an LRA motor closed loop. All other modes run
/// closed loop. PWM and analog set the input selector, real-time playback
/// selects the unsigned data format. Only the open-loop bit of the motor
/// type at hand is touched.
pub open spec fn control3_for(lra: bool, target: DriveMode, current: u8) -> u8 {
    match target {
        DriveMode::Rom(_) => set_bit(current, open_loop_bit(lra), !lra),
        DriveMode::Pwm => set_bit(
            set_bit(current, open_loop_bit(lra), false),
            Control3Reg::N_PWM_ANALOG,
            false,
        ),
        DriveMode::Analog => set_bit(
            set_bit(current, open_loop_bit(lra), false),
            Control3Reg::N_PWM_ANALOG,
            true,
        ),
        DriveMode::Rtp => set_bit(
            set_bit(current, open_loop_bit(lra), false),
            Control3Reg::DATA_FORMAT_RTP,
            true,
        ),
    }
}

/// The mode byte for a drive mode: the byte the register holds with its
/// mode code replaced.
pub open spec fn mode_for(target: DriveMode, current: u8) -> u8 {
    set_field(current, ModeReg::MODE_MSB, ModeReg::MODE_LSB, target.mode_of().code_of())
}

/// Select a drive mode. A mode that does not fit the motor type is refused
/// before anything is said on the bus. Otherwise control register 3 and the
/// mode register are read, for library playback the library is entered into
/// its register, and then control register 3 and the mode register are
/// written, in that order.
pub open spec fn mode_plan(lra: bool, target: DriveMode, trace: Seq<Exchange>, from: int) -> Plan<
    (),
> {
    if !target.fits(lra) {
        Plan { steps: Seq::empty(), result: Err(DrvError::WrongMotorType) }
    } else {
        let control3 = write_to(
            Register::Control3,
            control3_for(lra, target, byte_at(trace, from)),
        );
        let mode = write_to(Register::Mode, mode_for(target, byte_at(trace, from + 1)));
        match target {
            DriveMode::Rom(library) => Plan {
                steps: seq![
                    read_of(Register::Control3),
                    read_of(Register::Mode),
                    read_of(Register::LibrarySelection),
                    write_to(
                        Register::LibrarySelection,
                        set_field(
                            byte_at(trace, from + 2),
                            LibrarySelectionReg::LIBRARY_SELECTION_MSB,
                            LibrarySelectionReg::LIBRARY_SELECTION_LSB,
                            library.code_of(),
                        ),
                    ),
                    control3,
                    mode,
                ],
                result: Ok(()),
            },
            _ => Plan {
                steps: seq![
                    read_of(Register::Control3),
                    read_of(Register::Mode),
                    control3,
                    mode,
                ],
                result: Ok(()),
            },
        }
    }
}

/// Sets the open-loop bit of the motor type at hand and leaves the one of
/// the other motor type alone.
pub fn set_open_loop(reg: &mut Control3Reg, lra: bool, enable: bool)
    ensures
        final(reg)@ == set_bit(old(reg)@, open_loop_bit(lra), enable),
{
    if lra {
        reg.set_lra_open_loop(enable);
    } else {
        reg.set_erm_open_loop(enable);
    }
}

/// The control 3 register for a drive mode, given the value it holds.
pub fn control3_for_mode(lra: bool, target: DriveMode, current: Control3Reg) -> (r: Control3Reg)
    ensures
        r@ == control3_for(lra, target, current@),
{
    let mut reg = current;
    match target {
        DriveMode::Rom(_) => {
            set_open_loop(&mut reg, lra, !lra);
        },
        DriveMode::Pwm => {
            set_open_loop(&mut reg, lra, false);
            reg.set_n_pwm_analog(false);
        },
        DriveMode::Analog => {
            set_open_loop(&mut reg, lra, false);
            reg.set_n_pwm_analog(true);
        },
        DriveMode::Rtp => {
            set_open_loop(&mut reg, lra, false);
            reg.set_data_format_rtp(true);
        },
    }
    reg
}

/// The mode byte that starts a routine of the chip: the byte the register
/// holds, taken out of standby and with the mode code of the routine.
pub open spec fn routine_mode_for(routine: Mode, current: u8) -> u8 {
    set_field(
        set_bit(current, ModeReg::STANDBY, false),
        ModeReg::MODE_MSB,
        ModeReg::MODE_LSB,
        routine.code_of(),
    )
}

/// Start a routine: leave standby and enter the mode of the routine, then
/// set the GO bit.
pub open spec fn start_plan(routine: Mode, trace: Seq<Exchange>, from: int) -> Plan<()> {
    Plan {
        steps: seq![
            read_of(Register::Mode),
            write_to(Register::Mode, routine_mode_for(routine, byte_at(trace, from))),
            read_of(Register::Go),
            write_to(Register::Go, set_bit(byte_at(trace, from + 2), GoReg::GO, true)),
        ],
        result: Ok(()),
    }
}

/// Whether transaction `at` read a byte in which bit `pos` is set, so that
/// a poll for that bit to clear has to go on.
pub open spec fn still_set(trace: Seq<Exchange>, at: int, pos: u8) -> bool {
    &&& 0 <= at < trace.len()
    &&& trace[at].reply is Byte
    &&& get_bit(trace[at].byte(), pos)
}

/// How many polls from transaction `at` on it takes until the bit reads
/// clear, a poll fails or `budget` polls are spent.
pub open spec fn poll_count(trace: Seq<Exchange>, at: int, pos: u8, budget: nat) -> nat
    decreases budget,
{
    if budget == 0 {
        0
    } else if still_set(trace, at, pos) {
        1 + poll_count(trace, at + 1, pos, (budget - 1) as nat)
    } else {
        1
    }
}

/// Poll `register` until its bit `pos` reads clear, at most `budget` times.
/// Where the last allowed poll still finds the bit set, or none is allowed,
/// the result is `Timeout`.
pub open spec fn poll_plan(
    register: Register,
    pos: u8,
    budget: nat,
    trace: Seq<Exchange>,
    from: int,
) -> Plan<()> {
    let polls = poll_count(trace, from, pos, budget);
    Plan {
        steps: Seq::new(polls, |i: int| read_of(register)),
        result: if budget == 0 || still_set(trace, from + polls - 1, pos) {
            Err(DrvError::Timeout)
        } else {
            Ok(())
        },
    }
}

/// Read the status register once the routine is done; its diagnostic flag
/// set means the routine failed, with `failure`.
pub open spec fn verdict_plan(failure: DrvError, trace: Seq<Exchange>, from: int) -> Plan<()> {
    Plan {
        steps: seq![read_of(Register::Status)],
        result: if get_bit(byte_at(trace, from), StatusReg::DIAGNOSTIC_RESULT) {
            Err(failure)
        } else {
            Ok(())
        },
    }
}

/// Wait for the GO bit to clear, then read the verdict.
pub open spec fn settle_plan(
    failure: DrvError,
    budget: nat,
    trace: Seq<Exchange>,
    from: int,
) -> Plan<
    (),
> {
    let poll = poll_plan(Register::Go, GoReg::GO, budget, trace, from);
    then(poll, verdict_plan(failure, trace, from + poll.steps.len()))
}

/// Run a routine of the chip from start to verdict.
pub open spec fn routine_plan(
    routine: Mode,
    failure: DrvError,
    budget: nat,
    trace: Seq<Exchange>,
    from: int,
) -> Plan<()> {
    let start = start_plan(routine, trace, from);
    then(start, settle_plan(failure, budget, trace, from + start.steps.len()))
}

/// Run the diagnostic routine.
pub open spec fn diagnostics_plan(budget: nat, trace: Seq<Exchange>, from: int) -> Plan<()> {
    routine_plan(Mode::Diagnostics, DrvError::DeviceDiagnosticFailed, budget, trace, from)
}

/// Run auto-calibration and read the results back. Nothing is read back
/// after a run that failed or timed out.
pub open spec fn calibrate_plan(budget: nat, trace: Seq<Exchange>, from: int) -> Plan<LoadParams> {
    let run = routine_plan(Mode::AutoCalibration, DrvError::CalibrationFailed, budget, trace, from);
    then(run, readback_plan(trace, from + run.steps.len()))
}

/// The mode byte that resets the chip: the power-up value with the reset
/// bit set.
pub open spec fn reset_byte() -> u8 {
    set_bit(ModeReg::RESET_VALUE, ModeReg::DEV_RESET, true)
}

/// Reset the chip and wait for it to clear the reset bit.
pub open spec fn reset_plan(budget: nat, trace: Seq<Exchange>, from: int) -> Plan<()> {
    then(
        store_plan(Register::Mode, reset_byte()),
        poll_plan(Register::Mode, ModeReg::DEV_RESET, budget, trace, from + 1),
    )
}

/// Write the inputs of an automatic calibration run into their registers.
pub open spec fn seed_plan(params: CalibrationParams, lra: bool) -> Plan<()> {
    Plan {
        steps: seq![
            write_to(Register::FeedbackControl, params.feedback_seed_of(lra)),
            write_to(Register::Control2, params.control2_seed_of()),
            write_to(Register::Control4, params.control4_seed_of()),
            write_to(Register::RatedVoltage, params.rated),
            write_to(Register::OverdriveClampVoltage, params.clamp),
            write_to(Register::Control1, params.control1_seed_of()),
        ],
        result: Ok(()),
    }
}

/// Rely on factory calibration: read the flag of the one-time-programmable
/// memory and fail with `OTPNotProgrammed` where it is clear. Nothing is
/// written.
pub open spec fn factory_plan(trace: Seq<Exchange>, from: int) -> Plan<()> {
    Plan {
        steps: seq![read_of(Register::Control4)],
        result: if get_bit(byte_at(trace, from), Control4Reg::OTP_STATUS) {
            Ok(())
        } else {
            Err(DrvError::OTPNotProgrammed)
        },
    }
}

/// Carry out a calibration strategy.
pub open spec fn strategy_plan(
    calibration: Calibration,
    lra: bool,
    trace: Seq<Exchange>,
    from: int,
) -> Plan<()> {
    match calibration {
        Calibration::Otp => factory_plan(trace, from),
        Calibration::Load(load) => load_plan(load, trace, from),
        Calibration::Auto(params) => {
            let seed = seed_plan(params, lra);
            let run = calibrate_plan(params.max_polls as nat, trace, from + seed.steps.len());
            then(seed, Plan { steps: run.steps, result: forget(run.result) })
        },
    }
}

/// A result without its value.
pub open spec fn forget<R>(result: Result<R, DrvError>) -> Result<(), DrvError> {
    match result {
        Ok(_) => Ok(()),
        Err(e) => Err(e),
    }
}

/// Bring the chip up: check that it is the expected part, carry out the
/// calibration strategy, and park the chip in standby.
pub open spec fn init_plan(
    calibration: Calibration,
    lra: bool,
    trace: Seq<Exchange>,
    from: int,
) -> Plan<()> {
    let identity = identity_plan(DEVICE_ID, trace, from);
    let strategy = strategy_plan(calibration, lra, trace, from + identity.steps.len());
    then(
        identity,
        then(
            strategy,
            standby_plan(true, trace, from + identity.steps.len() + strategy.steps.len()),
        ),
    )
}

/// Whether `trace` is a whole bring-up, from the first transaction of a
/// fresh handle on, that ends in `result`.
pub open spec fn brought_up(
    calibration: Calibration,
    lra: bool,
    trace: Seq<Exchange>,
    result: Result<(), DrvError>,
) -> bool {
    faithful(trace, 0, trace.len() as int, init_plan(calibration, lra, trace, 0), result)
}

/// Polls that all found the bit set are counted one by one.
pub proof fn lemma_poll_count_skips(
    trace: Seq<Exchange>,
    at: int,
    pos: u8,
    budget: nat,
    done: nat,
)
    requires
        done <= budget,
        forall|j: int| at <= j < at + done ==> still_set(trace, j, pos),
    ensures
        poll_count(trace, at, pos, budget) == done + poll_count(
            trace,
            at + done,
            pos,
            (budget - done) as nat,
        ),
    decreases done,
{
    if done > 0 {
        assert(still_set(trace, at, pos));
        lemma_poll_count_skips(trace, at + 1, pos, (budget - 1) as nat, (done - 1) as nat);
    }
}

/// A poll that ran its course inside a trace counts the same when the trace
/// grows.
pub proof fn lemma_poll_count_stable(
    short: Seq<Exchange>,
    long: Seq<Exchange>,
    at: int,
    pos: u8,
    budget: nat,
)
    requires
        short.is_prefix_of(long),
        0 <= at,
        at + poll_count(short, at, pos, budget) <= short.len(),
    ensures
        poll_count(long, at, pos, budget) == poll_count(short, at, pos, budget),
    decreases budget,
{
    if budget > 0 {
        assert(short[at] == long[at]);
        if still_set(short, at, pos) {
            lemma_poll_count_stable(short, long, at + 1, pos, (budget - 1) as nat);
        }
    }
}

/// A poll that ran its course inside a trace has the same plan when the
/// trace grows.
pub proof fn lemma_poll_plan_stable(
    register: Register,
    pos: u8,
    budget: nat,
    short: Seq<Exchange>,
    long: Seq<Exchange>,
    from: int,
)
    requires
        short.is_prefix_of(long),
        0 <= from,
        from + poll_plan(register, pos, budget, short, from).steps.len() <= short.len(),
    ensures
        poll_plan(register, pos, budget, long, from) == poll_plan(
            register,
            pos,
            budget,
            short,
            from,
        ),
{
    lemma_poll_count_stable(short, long, from, pos, budget);
    let polls = poll_count(short, from, pos, budget);
    if polls > 0 {
        assert(short[from + polls - 1] == long[from + polls - 1]);
    }
}

/// A routine that ran its course inside a trace has the same plan when the
/// trace grows.
pub proof fn lemma_routine_plan_stable(
    routine: Mode,
    failure: DrvError,
    budget: nat,
    short: Seq<Exchange>,
    long: Seq<Exchange>,
    from: int,
)
    requires
        short.is_prefix_of(long),
        0 <= from,
        from + routine_plan(routine, failure, budget, short, from).steps.len() <= short.len(),
    ensures
        routine_plan(routine, failure, budget, long, from) == routine_plan(
            routine,
            failure,
            budget,
            short,
            from,
        ),
{
    assert(short[from] == long[from]);
    assert(short[from + 2] == long[from + 2]);
    lemma_poll_plan_stable(Register::Go, GoReg::GO, budget, short, long, from + 4);
    let poll = poll_plan(Register::Go, GoReg::GO, budget, short, from + 4);
    if poll.result is Ok {
        assert(short[from + 4 + poll.steps.len()] == long[from + 4 + poll.steps.len()]);
    }
}

/// A calibration run that ran its course inside a trace has the same plan
/// when the trace grows.
pub proof fn lemma_calibrate_plan_stable(
    budget: nat,
    short: Seq<Exchange>,
    long: Seq<Exchange>,
    from: int,
)
    requires
        short.is_prefix_of(long),
        0 <= from,
        from + calibrate_plan(budget, short, from).steps.len() <= short.len(),
    ensures
        calibrate_plan(budget, long, from) == calibrate_plan(budget, short, from),
{
    lemma_routine_plan_stable(
        Mode::AutoCalibration,
        DrvError::CalibrationFailed,
        budget,
        short,
        long,
        from,
    );
    let run = routine_plan(
        Mode::AutoCalibration,
        DrvError::CalibrationFailed,
        budget,
        short,
        from,
    );
    if run.result is Ok {
        let at = from + run.steps.len();
        assert(short[at] == long[at]);
        assert(short[at + 1] == long[at + 1]);
        assert(short[at + 2] == long[at + 2]);
    }
}

/// A calibration strategy that ran its course inside a trace has the same
/// plan when the trace grows.
pub proof fn lemma_strategy_plan_stable(
    calibration: Calibration,
    lra: bool,
    short: Seq<Exchange>,
    long: Seq<Exchange>,
    from: int,
)
    requires
        short.is_prefix_of(long),
        0 <= from,
        from + strategy_plan(calibration, lra, short, from).steps.len() <= short.len(),
    ensures
        strategy_plan(calibration, lra, long, from) == strategy_plan(calibration, lra, short, from),
{
    match calibration {
        Calibration::Otp => {
            assert(short[from] == long[from]);
        },
        Calibration::Load(_) => {
            assert(short[from] == long[from]);
        },
        Calibration::Auto(params) => {
            lemma_calibrate_plan_stable(params.max_polls as nat, short, long, from + 6);
        },
    }
}

/// Eight effects go out as one write of nine bytes: the address of the
/// first sequencer slot, then the byte of each effect in order.
pub proof fn lemma_sequence_is_one_write(effects: Seq<Effect>)
    requires
        effects.len() == 8,
    ensures
        sequence_plan(codes_of(effects)).result == Ok::<(), DrvError>(()),
        sequence_plan(codes_of(effects)).steps.len() == 1,
        sequence_plan(codes_of(effects)).steps[0] matches Request::Write { address, bytes }
            && address == ADDRESS && bytes.len() == 9 && bytes[0] == 0x04 && forall|i: int|
            0 <= i < 8 ==> bytes[i + 1] == (#[trigger] effects[i]).code_of(),
{
}

/// No drive mode touches the open-loop bit of the other motor type: in the
/// control 3 byte chosen for a handle, the bit that belongs to the other
/// motor type is the one the register held.
pub proof fn lemma_control3_keeps_other_motor(lra: bool, target: DriveMode, current: u8)
    ensures
        get_bit(control3_for(lra, target, current), open_loop_bit(!lra)) == get_bit(
            current,
            open_loop_bit(!lra),
        ),
{
    let own = open_loop_bit(lra);
    let other = open_loop_bit(!lra);
    let closed = set_bit(current, own, false);
    lemma_set_bit(current, own, false, other);
    lemma_set_bit(current, own, !lra, other);
    lemma_set_bit(closed, Control3Reg::N_PWM_ANALOG, false, other);
    lemma_set_bit(closed, Control3Reg::N_PWM_ANALOG, true, other);
    lemma_set_bit(closed, Control3Reg::DATA_FORMAT_RTP, true, other);
}

/// Whatever a mode transition writes into control register 3 carries the
/// open-loop bit of the other motor type as it was read at the start of the
/// transition.
pub proof fn lemma_mode_plan_keeps_other_motor(
    lra: bool,
    target: DriveMode,
    trace: Seq<Exchange>,
    from: int,
    i: int,
)
    requires
        0 <= i < mode_plan(lra, target, trace, from).steps.len(),
        mode_plan(lra, target, trace, from).steps[i] matches Request::Write { bytes, .. }
            && bytes[0] == Register::Control3.addr_of(),
    ensures
        mode_plan(lra, target, trace, from).steps[i] matches Request::Write { bytes, .. }
            && bytes.len() == 2 && get_bit(bytes[1], open_loop_bit(!lra)) == get_bit(
            byte_at(trace, from),
            open_loop_bit(!lra),
        ),
{
    lemma_control3_keeps_other_motor(lra, target, byte_at(trace, from));
}

/// Entering standby and leaving it again changes nothing but the standby
/// bit: the mode code and every other bit of the mode byte come out as
/// they went in.
pub proof fn lemma_standby_round_trip(before: u8)
    ensures
        ({
            let parked = set_bit(before, ModeReg::STANDBY, true);
            let woken = set_bit(parked, ModeReg::STANDBY, false);
            &&& get_field(parked, ModeReg::MODE_MSB, ModeReg::MODE_LSB) == get_field(
                before,
                ModeReg::MODE_MSB,
                ModeReg::MODE_LSB,
            )
            &&& get_field(woken, ModeReg::MODE_MSB, ModeReg::MODE_LSB) == get_field(
                before,
                ModeReg::MODE_MSB,
                ModeReg::MODE_LSB,
            )
            &&& get_bit(parked, ModeReg::STANDBY)
            &&& !get_bit(woken, ModeReg::STANDBY)
            &&& forall|pos: u8|
                pos <= 7 && pos != ModeReg::STANDBY ==> #[trigger] get_bit(woken, pos) == get_bit(
                    before,
                    pos,
                )
        }),
{
    let parked = set_bit(before, ModeReg::STANDBY, true);
    let woken = set_bit(parked, ModeReg::STANDBY, false);
    lemma_set_bit_keeps_field(before, ModeReg::STANDBY, true, ModeReg::MODE_MSB, ModeReg::MODE_LSB);
    lemma_set_bit_keeps_field(
        parked,
        ModeReg::STANDBY,
        false,
        ModeReg::MODE_MSB,
        ModeReg::MODE_LSB,
    );
    lemma_set_bit(before, ModeReg::STANDBY, true, ModeReg::STANDBY);
    lemma_set_bit(parked, ModeReg::STANDBY, false, ModeReg::STANDBY);
    assert forall|pos: u8| pos <= 7 && pos != ModeReg::STANDBY implies #[trigger] get_bit(
        woken,
        pos,
    ) == get_bit(before, pos) by {
        lemma_set_bit(before, ModeReg::STANDBY, true, pos);
        lemma_set_bit(parked, ModeReg::STANDBY, false, pos);
    }
}

/// Two calls in a row, one to enter standby and one to leave it, against a
/// chip that reads back the mode byte it was sent: the second call writes
/// the mode code that the first call read.
pub proof fn lemma_standby_twice_keeps_mode(trace: Seq<Exchange>, from: int)
    requires
        faithful(trace, from, from + 2, standby_plan(true, trace, from), Ok::<(), DrvError>(())),
        faithful(
            trace,
            from + 2,
            from + 4,
            standby_plan(false, trace, from + 2),
            Ok::<(), DrvError>(()),
        ),
        byte_at(trace, from + 2) == trace[from + 1].written(),
    ensures
        get_field(trace[from + 3].written(), ModeReg::MODE_MSB, ModeReg::MODE_LSB) == get_field(
            byte_at(trace, from),
            ModeReg::MODE_MSB,
            ModeReg::MODE_LSB,
        ),
        !get_bit(trace[from + 3].written(), ModeReg::STANDBY),
{
    lemma_standby_round_trip(byte_at(trace, from));
    assert(trace[from + 1].request == standby_plan(true, trace, from).steps[1]);
    assert(trace[from + 3].request == standby_plan(false, trace, from + 2).steps[1]);
}

/// A bring-up that relies on factory calibration, on a chip that was never
/// programmed, reads the status register and control register 4, writes
/// nothing and fails with `OTPNotProgrammed`.
pub proof fn lemma_unprogrammed_chip_is_left_alone(lra: bool, trace: Seq<Exchange>, from: int)
    requires
        get_field(byte_at(trace, from), StatusReg::DEVICE_ID_MSB, StatusReg::DEVICE_ID_LSB)
            == DEVICE_ID,
        !get_bit(byte_at(trace, from + 1), Control4Reg::OTP_STATUS),
    ensures
        init_plan(Calibration::Otp, lra, trace, from).result == Err::<(), DrvError>(
            DrvError::OTPNotProgrammed,
        ),
        init_plan(Calibration::Otp, lra, trace, from).steps =~= seq![
            read_of(Register::Status),
            read_of(Register::Control4),
        ],
{
}

/// A calibration run that the chip reports as failed ends with the read of
/// the status register. It gives `CalibrationFailed`, and the calibration
/// results are not read.
pub proof fn lemma_failed_calibration_reads_nothing_back(
    budget: nat,
    trace: Seq<Exchange>,
    from: int,
)
    requires
        poll_plan(Register::Go, GoReg::GO, budget, trace, from + 4).result is Ok,
        get_bit(
            byte_at(trace, from + 4 + poll_count(trace, from + 4, GoReg::GO, budget)),
            StatusReg::DIAGNOSTIC_RESULT,
        ),
    ensures
        calibrate_plan(budget, trace, from).result == Err::<LoadParams, DrvError>(
            DrvError::CalibrationFailed,
        ),
        calibrate_plan(budget, trace, from).steps.len() == 5 + poll_count(
            trace,
            from + 4,
            GoReg::GO,
            budget,
        ),
        calibrate_plan(budget, trace, from).steps.last() == read_of(Register::Status),
        forall|i: int|
            0 <= i < calibrate_plan(budget, trace, from).steps.len() ==> #[trigger] calibrate_plan(
                budget,
                trace,
                from,
            ).steps[i] != read_of(Register::AutoCalibrationCompensationResult),
{
}

} // verus!
