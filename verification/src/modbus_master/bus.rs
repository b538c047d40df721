//! Bus transactions of the Modbus master.
//!
//! The master never talks to the serial line itself. It hands out one
//! [`Request`] at a time, the caller performs it on the line and hands back
//! a [`Reply`]. A [`Job`] is one such conversation: a batch of register reads
//! or one protected write. What a job asks for, and in which order, is its
//! script; what it makes of the replies is specified by [`JobView`].

use crate::modbus_master::context::{fixed_settings, ModbusRtuContext, SerialConfig};
use crate::modbus_master::context_error::ContextError;
use crate::modbus_master::error::ModbusMasterError;
use crate::registers::{Rreg, Rwreg};
use vstd::prelude::*;
use vstd::string::*;

verus! {

/// Time the hardware needs between the unlock write and the next
/// transaction, in milliseconds.
pub const LOCK_TIMEOUT: u64 = 20;

/// Value that unlocks the protected registers when written to the
/// protection register.
pub const UNLOCK_VALUE: u16 = 9876;

/// Value that starts a calibration when written to a calibration register.
pub const CALIBRATION_VALUE: u16 = 11111;

/// One thing to do on the serial line.
#[derive(Clone, Copy, Debug, PartialEq, Eq, Structural)]
pub enum Request {
    /// Open a session with the job's slave on the job's serial device.
    Open,
    /// Read one input register (function code 0x04).
    ReadInput {
        /// Address of the register.
        reg_nr: u16,
    },
    /// Read one holding register (function code 0x03).
    ReadHolding {
        /// Address of the register.
        reg_nr: u16,
    },
    /// Write one holding register (function code 0x06).
    Write {
        /// Address of the register.
        reg_nr: u16,
        /// Value to write.
        value: u16,
    },
    /// Let the given number of milliseconds pass.
    Settle {
        /// Time to wait, in milliseconds.
        millis: u64,
    },
    /// Release the session.
    Close,
}

/// Why a request could not be carried out.
#[derive(Clone, Copy, Debug, PartialEq, Eq, Structural)]
pub enum Failure {
    /// The serial device failed.
    Io,
    /// The slave answered with an error, or not as the protocol demands.
    Protocol,
    /// The transaction took longer than the fixed timeout.
    Timeout,
}

/// How a request ended.
#[derive(Clone, Copy, Debug, PartialEq, Eq, Structural)]
pub enum Reply {
    /// The request was carried out.
    Done,
    /// The register was read and holds this value.
    Value(u16),
    /// The request failed.
    Failed(Failure),
}

/// What a reply means for the job that made the request.
#[derive(Clone, Copy, Debug, PartialEq, Eq, Structural)]
pub enum Step {
    /// The request went through; the job goes on.
    Proceed,
    /// The register `reg_nr` was read and holds `value`.
    Read {
        /// Address of the register.
        reg_nr: u16,
        /// Value read.
        value: u16,
    },
    /// The request failed, and the job with it.
    Fail(ModbusMasterError),
}

/// The two classes of registers.
#[derive(Clone, Copy, Debug, PartialEq, Eq, Structural)]
pub enum RegisterClass {
    /// Read-only registers, read as input registers.
    Rreg,
    /// Read/write registers, read as holding registers.
    Rwreg,
}

/// One register to read.
#[derive(Clone, Copy, Debug, PartialEq, Eq, Structural)]
pub struct Access {
    /// Address of the register.
    pub reg_nr: u16,
    /// Whether the board must be unlocked before the register is read.
    pub protected: bool,
}

/// The error of a request that failed with `failure`, where `except` is the
/// error of a failure other than a timeout.
pub open spec fn failure_error(failure: Failure, except: ModbusMasterError) -> ModbusMasterError {
    if failure == Failure::Timeout {
        ModbusMasterError::ProtocolTimeout
    } else {
        except
    }
}

/// What `reply` means as the answer to `request`.
///
/// A timeout is a `ProtocolTimeout` whatever was asked for. Otherwise a
/// failed `Open` is a `ConnectionError`, a failed read a
/// `RegisterReadFailure` and a failed write a `RegisterWriteFailure` of the
/// register. A read that is answered without a value has failed. Waiting and
/// releasing the session cannot fail.
pub open spec fn step_of(request: Request, reply: Reply) -> Step {
    match request {
        Request::Open => match reply {
            Reply::Failed(Failure::Io) => Step::Fail(
                ModbusMasterError::ConnectionError(ContextError::Io),
            ),
            Reply::Failed(Failure::Protocol) => Step::Fail(
                ModbusMasterError::ConnectionError(ContextError::Protocol),
            ),
            Reply::Failed(Failure::Timeout) => Step::Fail(ModbusMasterError::ProtocolTimeout),
            _ => Step::Proceed,
        },
        Request::ReadInput { reg_nr } | Request::ReadHolding { reg_nr } => match reply {
            Reply::Value(value) => Step::Read { reg_nr, value },
            Reply::Failed(failure) => Step::Fail(
                failure_error(failure, ModbusMasterError::RegisterReadFailure { address: reg_nr }),
            ),
            Reply::Done => Step::Fail(ModbusMasterError::RegisterReadFailure { address: reg_nr }),
        },
        Request::Write { reg_nr, value } => match reply {
            Reply::Failed(failure) => Step::Fail(
                failure_error(failure, ModbusMasterError::RegisterWriteFailure { address: reg_nr }),
            ),
            _ => Step::Proceed,
        },
        Request::Settle { millis } => Step::Proceed,
        Request::Close => Step::Proceed,
    }
}

/// Tells what `reply` means as the answer to `request`.
pub fn step(request: Request, reply: Reply) -> (step: Step)
    ensures
        step == step_of(request, reply),
{
    match request {
        Request::Open => match reply {
            Reply::Failed(Failure::Io) => Step::Fail(
                ModbusMasterError::ConnectionError(ContextError::Io),
            ),
            Reply::Failed(Failure::Protocol) => Step::Fail(
                ModbusMasterError::ConnectionError(ContextError::Protocol),
            ),
            Reply::Failed(Failure::Timeout) => Step::Fail(ModbusMasterError::ProtocolTimeout),
            _ => Step::Proceed,
        },
        Request::ReadInput { reg_nr } | Request::ReadHolding { reg_nr } => match reply {
            Reply::Value(value) => Step::Read { reg_nr, value },
            Reply::Failed(Failure::Timeout) => Step::Fail(ModbusMasterError::ProtocolTimeout),
            _ => Step::Fail(ModbusMasterError::RegisterReadFailure { address: reg_nr }),
        },
        Request::Write { reg_nr, value } => match reply {
            Reply::Failed(Failure::Timeout) => Step::Fail(ModbusMasterError::ProtocolTimeout),
            Reply::Failed(_) => Step::Fail(
                ModbusMasterError::RegisterWriteFailure { address: reg_nr },
            ),
            _ => Step::Proceed,
        },
        Request::Settle { millis } => Step::Proceed,
        Request::Close => Step::Proceed,
    }
}

/// The request that reads the register `reg_nr` of class `class`.
pub open spec fn read_request(class: RegisterClass, reg_nr: u16) -> Request {
    match class {
        RegisterClass::Rreg => Request::ReadInput { reg_nr },
        RegisterClass::Rwreg => Request::ReadHolding { reg_nr },
    }
}

/// The request that unlocks the protected registers of a board whose
/// protection register is `reg_protection`.
pub open spec fn unlock_request(reg_protection: u16) -> Request {
    Request::Write { reg_nr: reg_protection, value: UNLOCK_VALUE }
}

/// The request that lets the hardware settle after the unlock write.
pub open spec fn settle_request() -> Request {
    Request::Settle { millis: LOCK_TIMEOUT }
}

/// What reading one register takes: a session of its own, in which a
/// protected register is preceded by the unlock write and the settle delay.
pub open spec fn access_script(class: RegisterClass, access: Access, reg_protection: u16) -> Seq<
    Request,
> {
    if access.protected {
        seq![
            Request::Open,
            unlock_request(reg_protection),
            settle_request(),
            read_request(class, access.reg_nr),
            Request::Close,
        ]
    } else {
        seq![Request::Open, read_request(class, access.reg_nr), Request::Close]
    }
}

/// What reading a list of registers takes: the registers one after the
/// other, in the order of the list.
pub open spec fn batch_script(
    class: RegisterClass,
    accesses: Seq<Access>,
    reg_protection: u16,
) -> Seq<Request>
    decreases accesses.len(),
{
    if accesses.len() == 0 {
        Seq::empty()
    } else {
        batch_script(class, accesses.drop_last(), reg_protection) + access_script(
            class,
            accesses.last(),
            reg_protection,
        )
    }
}

/// What a protected write of `value` to the register `reg_nr` takes: in one
/// session the unlock write, the settle delay, and the write itself.
pub open spec fn write_script(reg_protection: u16, reg_nr: u16, value: u16) -> Seq<Request> {
    seq![
        Request::Open,
        unlock_request(reg_protection),
        settle_request(),
        Request::Write { reg_nr, value },
        Request::Close,
    ]
}

/// How a read-only register is read: never protected.
pub open spec fn rreg_access(reg: Rreg) -> Access {
    Access { reg_nr: reg.spec_address(), protected: false }
}

/// How a read/write register is read.
pub open spec fn rwreg_access(reg: Rwreg) -> Access {
    Access { reg_nr: reg.spec_address(), protected: reg.spec_is_protected() }
}

/// How the registers of `regs` are read.
pub open spec fn rreg_accesses(regs: Seq<Rreg>) -> Seq<Access> {
    regs.map_values(|reg: Rreg| rreg_access(reg))
}

/// How the registers of `regs` are read.
pub open spec fn rwreg_accesses(regs: Seq<Rwreg>) -> Seq<Access> {
    regs.map_values(|reg: Rwreg| rwreg_access(reg))
}

/// A job as the contracts see it.
pub struct JobView {
    /// Path of the serial device.
    pub tty_path: Seq<char>,
    /// Address of the slave.
    pub slave: u8,
    /// The requests of the job, in the order in which it makes them while
    /// none fails.
    pub script: Seq<Request>,
    /// How many requests of the script went through.
    pub cursor: nat,
    /// Whether a request failed inside a session that is still to be
    /// released.
    pub closing: bool,
    /// The error of the request that failed, if one did.
    pub failure: Option<ModbusMasterError>,
    /// Registers read so far, each with its value, in the order of reading.
    pub values: Seq<(u16, u16)>,
}

impl JobView {
    /// The job that has made none of the requests of `script` yet.
    pub open spec fn fresh(tty_path: Seq<char>, slave: u8, script: Seq<Request>) -> JobView {
        JobView {
            tty_path,
            slave,
            script,
            cursor: 0,
            closing: false,
            failure: None,
            values: Seq::empty(),
        }
    }

    /// The request to carry out next, `None` once the job has ended.
    ///
    /// After a failure inside a session the session is released and nothing
    /// else is asked for. After a failed `Open` there is no session, and the
    /// job ends at once.
    pub open spec fn request(self) -> Option<Request> {
        if self.closing {
            Some(Request::Close)
        } else if self.failure is Some || self.cursor >= self.script.len() {
            None
        } else {
            Some(self.script[self.cursor as int])
        }
    }

    /// Whether the job has ended.
    pub open spec fn finished(self) -> bool {
        self.request() is None
    }

    /// The job after `reply` has answered its request. A job that has ended
    /// ignores replies.
    pub open spec fn respond(self, reply: Reply) -> JobView {
        if self.closing {
            JobView { closing: false, ..self }
        } else if self.failure is Some || self.cursor >= self.script.len() {
            self
        } else {
            let request = self.script[self.cursor as int];
            match step_of(request, reply) {
                Step::Proceed => JobView { cursor: self.cursor + 1, ..self },
                Step::Read { reg_nr, value } => JobView {
                    cursor: self.cursor + 1,
                    values: self.values.push((reg_nr, value)),
                    ..self
                },
                Step::Fail(error) => JobView {
                    failure: Some(error),
                    closing: request != Request::Open,
                    ..self
                },
            }
        }
    }

    /// What the job has come to, `None` while it has not ended: the error of
    /// the request that failed, or, if none failed, every register read with
    /// its value. After a failure the values read before it are not part of
    /// the result.
    pub open spec fn result(self) -> Option<Result<Seq<(u16, u16)>, ModbusMasterError>> {
        if !self.finished() {
            None
        } else {
            match self.failure {
                Some(error) => Some(Err(error)),
                None => Some(Ok(self.values)),
            }
        }
    }

    /// The job after its requests were answered by `replies`, one after the
    /// other.
    pub open spec fn after(self, replies: Seq<Reply>) -> JobView
        decreases replies.len(),
    {
        if replies.len() == 0 {
            self
        } else {
            self.respond(replies.first()).after(replies.drop_first())
        }
    }

    /// The requests that the job makes while `replies` answer them one after
    /// the other.
    pub open spec fn issued(self, replies: Seq<Reply>) -> Seq<Request>
        decreases replies.len(),
    {
        if replies.len() == 0 || self.finished() {
            Seq::empty()
        } else {
            seq![self.request().unwrap()] + self.respond(replies.first()).issued(
                replies.drop_first(),
            )
        }
    }
}

/// A conversation with a slave: a batch of register reads or one protected
/// write.
pub struct Job {
    tty_path: String,
    slave: u8,
    script: Vec<Request>,
    cursor: usize,
    closing: bool,
    failure: Option<ModbusMasterError>,
    values: Vec<(u16, u16)>,
}

impl View for Job {
    type V = JobView;

    closed spec fn view(&self) -> JobView {
        JobView {
            tty_path: self.tty_path@,
            slave: self.slave,
            script: self.script@,
            cursor: self.cursor as nat,
            closing: self.closing,
            failure: self.failure,
            values: self.values@,
        }
    }
}

impl Job {
    #[verifier::type_invariant]
    spec fn inv(self) -> bool {
        &&& self.cursor <= self.script.len()
        &&& self.closing ==> self.cursor < self.script.len()
    }

    fn new(tty_path: String, slave: u8, script: Vec<Request>) -> (job: Job)
        ensures
            job@ == JobView::fresh(tty_path@, slave, script@),
    {
        Job {
            tty_path,
            slave,
            script,
            cursor: 0,
            closing: false,
            failure: None,
            values: Vec::new(),
        }
    }

    /// Path of the serial device of the job's sessions.
    pub fn tty_path(&self) -> (path: &str)
        ensures
            path@ == self@.tty_path,
    {
        self.tty_path.as_str()
    }

    /// Address of the slave of the job's sessions.
    pub fn slave(&self) -> (slave: u8)
        ensures
            slave == self@.slave,
    {
        self.slave
    }

    /// The session to open when the job asks for one.
    pub fn connection(&self) -> (config: SerialConfig)
        ensures
            config.path@ == self@.tty_path,
            config.settings == fixed_settings(),
            config.slave == self@.slave,
    {
        ModbusRtuContext::new().context(self.tty_path.clone(), self.slave)
    }

    /// The request to carry out next, `None` once the job has ended.
    pub fn request(&self) -> (request: Option<Request>)
        ensures
            request == self@.request(),
    {
        proof {
            use_type_invariant(self);
        }
        if self.closing {
            Some(Request::Close)
        } else if self.failure.is_some() || self.cursor >= self.script.len() {
            None
        } else {
            Some(self.script[self.cursor])
        }
    }

    /// Whether the job has ended.
    pub fn is_finished(&self) -> (finished: bool)
        ensures
            finished == self@.finished(),
    {
        self.request().is_none()
    }

    /// Takes the answer to the request that the job made last.
    pub fn respond(self, reply: Reply) -> (next: Job)
        ensures
            next@ == self@.respond(reply),
    {
        proof {
            use_type_invariant(&self);
        }
        if self.closing {
            Job { closing: false, ..self }
        } else if self.failure.is_some() || self.cursor >= self.script.len() {
            self
        } else {
            let request = self.script[self.cursor];
            match step(request, reply) {
                Step::Proceed => Job { cursor: self.cursor + 1, ..self },
                Step::Read { reg_nr, value } => {
                    let mut values = self.values;
                    values.push((reg_nr, value));
                    Job {
                        tty_path: self.tty_path,
                        slave: self.slave,
                        script: self.script,
                        cursor: self.cursor + 1,
                        closing: self.closing,
                        failure: self.failure,
                        values,
                    }
                },
                Step::Fail(error) => Job {
                    failure: Some(error),
                    closing: request != Request::Open,
                    ..self
                },
            }
        }
    }

    /// What the job has come to, `None` while it has not ended.
    pub fn result(self) -> (result: Option<Result<Vec<(u16, u16)>, ModbusMasterError>>)
        ensures
            result_view(result) == self@.result(),
    {
        if !self.is_finished() {
            None
        } else {
            match self.failure {
                Some(error) => Some(Err(error)),
                None => Some(Ok(self.values)),
            }
        }
    }
}

/// A job's result as the contracts see it.
pub open spec fn result_view(
    result: Option<Result<Vec<(u16, u16)>, ModbusMasterError>>,
) -> Option<Result<Seq<(u16, u16)>, ModbusMasterError>> {
    match result {
        None => None,
        Some(Ok(values)) => Some(Ok(values@)),
        Some(Err(error)) => Some(Err(error)),
    }
}

/// Register that takes the calibration value for the zero point of the
/// measuring cell `sensor_num`: 10 for the first cell, 20 for any other.
pub open spec fn nullgas_register(sensor_num: u16) -> u16 {
    if sensor_num == 1 {
        10
    } else {
        20
    }
}

/// Register that takes the calibration value for the span gas of the
/// measuring cell `sensor_num`: 12 for the first cell, 22 for any other.
pub open spec fn messgas_register(sensor_num: u16) -> u16 {
    if sensor_num == 1 {
        12
    } else {
        22
    }
}

/// Register that holds the working mode of a board.
pub const WORKING_MODE_REGISTER: u16 = 99;

/// Register that holds the Modbus address of a board.
pub const MODBUS_ID_REGISTER: u16 = 80;

/// Register that holds the MCS bus address of a board.
pub const MCS_BUS_ID_REGISTER: u16 = 95;

fn push_access(script: &mut Vec<Request>, class: RegisterClass, access: Access, reg_protection: u16)
    ensures
        final(script)@ == old(script)@ + access_script(class, access, reg_protection),
{
    script.push(Request::Open);
    if access.protected {
        script.push(Request::Write { reg_nr: reg_protection, value: UNLOCK_VALUE });
        script.push(Request::Settle { millis: LOCK_TIMEOUT });
    }
    match class {
        RegisterClass::Rreg => script.push(Request::ReadInput { reg_nr: access.reg_nr }),
        RegisterClass::Rwreg => script.push(Request::ReadHolding { reg_nr: access.reg_nr }),
    }
    script.push(Request::Close);
}

/// Appending a register to a list appends its script to the list's.
pub proof fn lemma_batch_script_push(
    class: RegisterClass,
    accesses: Seq<Access>,
    access: Access,
    reg_protection: u16,
)
    ensures
        batch_script(class, accesses.push(access), reg_protection) == batch_script(
            class,
            accesses,
            reg_protection,
        ) + access_script(class, access, reg_protection),
{
    assert(accesses.push(access).drop_last() == accesses);
}

/// Starts the read of one read-only register.
pub fn read_input_register(tty_path: &str, slave: u8, reg: Rreg) -> (job: Job)
    ensures
        job@ == JobView::fresh(
            tty_path@,
            slave,
            access_script(RegisterClass::Rreg, rreg_access(reg), 0),
        ),
{
    let mut script: Vec<Request> = Vec::new();
    let access = Access { reg_nr: reg.address(), protected: false };
    push_access(&mut script, RegisterClass::Rreg, access, 0);
    Job::new(String::from_str(tty_path), slave, script)
}

/// Starts the read of one read/write register. A protected register is
/// unlocked through the protection register `reg_protection` first.
pub fn read_holding_register(
    tty_path: &str,
    slave: u8,
    reg: Rwreg,
    reg_protection: u16,
) -> (job: Job)
    ensures
        job@ == JobView::fresh(
            tty_path@,
            slave,
            access_script(RegisterClass::Rwreg, rwreg_access(reg), reg_protection),
        ),
{
    let mut script: Vec<Request> = Vec::new();
    let access = Access { reg_nr: reg.address(), protected: reg.is_protected() };
    push_access(&mut script, RegisterClass::Rwreg, access, reg_protection);
    Job::new(String::from_str(tty_path), slave, script)
}

/// Starts the read of the read-only registers `regs`, one after the other
/// in the order of the list.
pub fn read_rregs(tty_path: String, slave: u8, regs: &Vec<Rreg>) -> (job: Job)
    ensures
        job@ == JobView::fresh(
            tty_path@,
            slave,
            batch_script(RegisterClass::Rreg, rreg_accesses(regs@), 0),
        ),
{
    let mut script: Vec<Request> = Vec::new();
    let mut i: usize = 0;
    while i < regs.len()
        invariant
            i <= regs.len(),
            script@ == batch_script(RegisterClass::Rreg, rreg_accesses(regs@).take(i as int), 0),
        decreases regs.len() - i,
    {
        let access = Access { reg_nr: regs[i].address(), protected: false };
        proof {
            assert(rreg_accesses(regs@).take(i + 1) == rreg_accesses(regs@).take(i as int).push(
                access,
            ));
            lemma_batch_script_push(
                RegisterClass::Rreg,
                rreg_accesses(regs@).take(i as int),
                access,
                0,
            );
        }
        push_access(&mut script, RegisterClass::Rreg, access, 0);
        i += 1;
    }
    proof {
        assert(rreg_accesses(regs@).take(i as int) == rreg_accesses(regs@));
    }
    Job::new(tty_path, slave, script)
}

/// Starts the read of the read/write registers `regs`, one after the other
/// in the order of the list. Each protected register is unlocked through
/// the protection register `reg_protection` before it is read.
pub fn read_rwregs(
    tty_path: String,
    slave: u8,
    regs: &Vec<Rwreg>,
    reg_protection: u16,
) -> (job: Job)
    ensures
        job@ == JobView::fresh(
            tty_path@,
            slave,
            batch_script(RegisterClass::Rwreg, rwreg_accesses(regs@), reg_protection),
        ),
{
    let mut script: Vec<Request> = Vec::new();
    let mut i: usize = 0;
    while i < regs.len()
        invariant
            i <= regs.len(),
            script@ == batch_script(
                RegisterClass::Rwreg,
                rwreg_accesses(regs@).take(i as int),
                reg_protection,
            ),
        decreases regs.len() - i,
    {
        let access = Access { reg_nr: regs[i].address(), protected: regs[i].is_protected() };
        proof {
            assert(rwreg_accesses(regs@).take(i + 1) == rwreg_accesses(regs@).take(i as int).push(
                access,
            ));
            lemma_batch_script_push(
                RegisterClass::Rwreg,
                rwreg_accesses(regs@).take(i as int),
                access,
                reg_protection,
            );
        }
        push_access(&mut script, RegisterClass::Rwreg, access, reg_protection);
        i += 1;
    }
    proof {
        assert(rwreg_accesses(regs@).take(i as int) == rwreg_accesses(regs@));
    }
    Job::new(tty_path, slave, script)
}

/// Starts a protected write: unlocks the board through the protection
/// register `reg_protection`, lets it settle, and writes `value` to the
/// register `reg_nr`.
pub fn protected_write(
    tty_path: String,
    slave: u8,
    reg_protection: u16,
    reg_nr: u16,
    value: u16,
) -> (job: Job)
    ensures
        job@ == JobView::fresh(tty_path@, slave, write_script(reg_protection, reg_nr, value)),
{
    let mut script: Vec<Request> = Vec::new();
    script.push(Request::Open);
    script.push(Request::Write { reg_nr: reg_protection, value: UNLOCK_VALUE });
    script.push(Request::Settle { millis: LOCK_TIMEOUT });
    script.push(Request::Write { reg_nr, value });
    script.push(Request::Close);
    assert(script@ =~= write_script(reg_protection, reg_nr, value));
    Job::new(tty_path, slave, script)
}

/// Starts the write that sets the working mode of a board.
pub fn set_working_mode(
    tty_path: String,
    slave: u8,
    working_mode: u16,
    reg_protection: u16,
) -> (job: Job)
    ensures
        job@ == JobView::fresh(
            tty_path@,
            slave,
            write_script(reg_protection, WORKING_MODE_REGISTER, working_mode),
        ),
{
    protected_write(tty_path, slave, reg_protection, WORKING_MODE_REGISTER, working_mode)
}

/// Starts the write that calibrates the zero point of the measuring cell
/// `sensor_num`.
pub fn set_nullgas(tty_path: String, slave: u8, reg_protection: u16, sensor_num: u16) -> (job: Job)
    ensures
        job@ == JobView::fresh(
            tty_path@,
            slave,
            write_script(reg_protection, nullgas_register(sensor_num), CALIBRATION_VALUE),
        ),
{
    let nullgas_reg_nr: u16 = if sensor_num == 1 {
        10
    } else {
        20
    };
    protected_write(tty_path, slave, reg_protection, nullgas_reg_nr, CALIBRATION_VALUE)
}

/// Starts the write that calibrates the span of the measuring cell
/// `sensor_num`.
pub fn set_messgas(tty_path: String, slave: u8, reg_protection: u16, sensor_num: u16) -> (job: Job)
    ensures
        job@ == JobView::fresh(
            tty_path@,
            slave,
            write_script(reg_protection, messgas_register(sensor_num), CALIBRATION_VALUE),
        ),
{
    let messgas_reg_nr: u16 = if sensor_num == 1 {
        12
    } else {
        22
    };
    protected_write(tty_path, slave, reg_protection, messgas_reg_nr, CALIBRATION_VALUE)
}

/// Starts the write that gives a board the Modbus address `new_slave_id`.
pub fn set_new_modbus_id(
    tty_path: String,
    slave: u8,
    new_slave_id: u16,
    reg_protection: u16,
) -> (job: Job)
    ensures
        job@ == JobView::fresh(
            tty_path@,
            slave,
            write_script(reg_protection, MODBUS_ID_REGISTER, new_slave_id),
        ),
{
    protected_write(tty_path, slave, reg_protection, MODBUS_ID_REGISTER, new_slave_id)
}

/// Starts the write that gives a board the MCS bus address `new_slave_id`.
pub fn set_new_mcs_bus_id(
    tty_path: String,
    slave: u8,
    new_slave_id: u16,
    reg_protection: u16,
) -> (job: Job)
    ensures
        job@ == JobView::fresh(
            tty_path@,
            slave,
            write_script(reg_protection, MCS_BUS_ID_REGISTER, new_slave_id),
        ),
{
    protected_write(tty_path, slave, reg_protection, MCS_BUS_ID_REGISTER, new_slave_id)
}

/// Starts the write that sets the register `reg_nr` to `new_value`.
pub fn update_register(
    tty_path: String,
    slave: u8,
    reg_nr: u16,
    reg_protection: u16,
    new_value: u16,
) -> (job: Job)
    ensures
        job@ == JobView::fresh(tty_path@, slave, write_script(reg_protection, reg_nr, new_value)),
{
    protected_write(tty_path, slave, reg_protection, reg_nr, new_value)
}

} // verus!
