//! The control loop: polls the registers of a board while the master is
//! online.
//!
//! The loop decides, the caller acts. [`ControlLoop::step`] takes what
//! happened last and returns what to do next: wait for an instruction,
//! read the online flag, carry out a request on the bus, or send a report.

use crate::gui::{append_error, with_error, Report, ReportView};
use crate::modbus_master::bus::{
    batch_script, read_rregs, read_rwregs, rreg_accesses, rwreg_accesses, Job, JobView,
    RegisterClass, Reply, Request,
};
use crate::modbus_master::context::{fixed_settings, ModbusRtuContext, SerialConfig};
use crate::modbus_master::error::ModbusMasterError;
use crate::registers::{Rreg, Rwreg};
use vstd::pervasive::unreached;
use vstd::prelude::*;

verus! {

/// What a polling session reads, and where.
#[derive(Debug, PartialEq, Eq)]
pub struct PollConfig {
    /// Path of the serial device.
    pub tty_path: String,
    /// Address of the slave.
    pub slave_id: u8,
    /// The read-only registers, in the order in which they are read.
    pub rregs: Vec<Rreg>,
    /// The read/write registers, in the order in which they are read.
    pub rwregs: Vec<Rwreg>,
    /// The register that unlocks the protected registers.
    pub protection_register: u16,
}

/// An instruction to the control loop.
#[derive(Debug, PartialEq, Eq)]
pub enum MsgControlLoop {
    /// Start a polling session.
    Start(PollConfig),
}

/// What happened last.
#[derive(Debug, PartialEq, Eq)]
pub enum LoopEvent {
    /// The instruction to start a polling session has arrived.
    Start(PollConfig),
    /// The online flag was read and holds this value.
    Online(bool),
    /// The request on the bus was answered.
    Reply(Reply),
    /// The report was sent.
    Emitted,
}

/// What to do next.
#[derive(Debug, PartialEq, Eq)]
pub enum LoopAction {
    /// Wait for the next instruction.
    Receive,
    /// Read the online flag.
    CheckOnline,
    /// Carry out a request on the bus.
    Bus(Request),
    /// Send a report.
    Emit(Report),
}

/// What to do next, as the contracts see it.
pub enum LoopActionView {
    /// Wait for the next instruction.
    Receive,
    /// Read the online flag.
    CheckOnline,
    /// Carry out a request on the bus.
    Bus(Request),
    /// Send a report.
    Emit(ReportView),
}

impl View for LoopAction {
    type V = LoopActionView;

    open spec fn view(&self) -> LoopActionView {
        match self {
            LoopAction::Receive => LoopActionView::Receive,
            LoopAction::CheckOnline => LoopActionView::CheckOnline,
            LoopAction::Bus(request) => LoopActionView::Bus(*request),
            LoopAction::Emit(report) => LoopActionView::Emit(report@),
        }
    }
}

/// The control loop as the contracts see it.
pub enum LoopView {
    /// No polling session.
    Idle,
    /// Between two poll iterations: the online flag is being read.
    Boundary(PollConfig),
    /// The registers of one class are being read.
    Reading(RegisterClass, PollConfig, JobView),
    /// The read-only registers were reported; the sensor values are next.
    SensorValues(PollConfig, Seq<(u16, u16)>),
    /// The outcome of the read-only registers was reported.
    BeforeRwregs(PollConfig),
    /// The outcome of the read/write registers was reported.
    AfterRwregs(PollConfig),
}

/// The warning after the registers of `class` could not be read.
pub open spec fn read_warning(class: RegisterClass, error: ModbusMasterError) -> Seq<char> {
    match class {
        RegisterClass::Rreg => with_error("Konnte Lese-Register nicht lesen:\r\n"@, error),
        RegisterClass::Rwreg => with_error(
            "Konnte Schreib.-/ Lese-Register nicht lesen:\r\n"@,
            error,
        ),
    }
}

/// The script of the job that reads the registers of `class` of `config`.
pub open spec fn poll_script(class: RegisterClass, config: PollConfig) -> Seq<Request> {
    match class {
        RegisterClass::Rreg => batch_script(class, rreg_accesses(config.rregs@), 0),
        RegisterClass::Rwreg => batch_script(
            class,
            rwreg_accesses(config.rwregs@),
            config.protection_register,
        ),
    }
}

/// The job that reads the registers of `class` of `config`.
pub open spec fn poll_job(class: RegisterClass, config: PollConfig) -> JobView {
    JobView::fresh(config.tty_path@, config.slave_id, poll_script(class, config))
}

/// How the loop goes on after the job that read the registers of `class`
/// has ended. Values are reported, the read-only registers a second time as
/// sensor values; an error is reported as a warning that carries it, and
/// none of the values read before it is.
pub open spec fn after_batch(class: RegisterClass, config: PollConfig, job: JobView) -> (
    LoopView,
    LoopActionView,
) {
    match job.failure {
        Some(error) => (
            match class {
                RegisterClass::Rreg => LoopView::BeforeRwregs(config),
                RegisterClass::Rwreg => LoopView::AfterRwregs(config),
            },
            LoopActionView::Emit(ReportView::Warning(read_warning(class, error))),
        ),
        None => match class {
            RegisterClass::Rreg => (
                LoopView::SensorValues(config, job.values),
                LoopActionView::Emit(ReportView::Rregs(job.values)),
            ),
            RegisterClass::Rwreg => (
                LoopView::AfterRwregs(config),
                LoopActionView::Emit(ReportView::Rwregs(job.values)),
            ),
        },
    }
}

/// How the loop goes on with the job that reads the registers of `class`:
/// with the job's next request, or, once the job has ended, with the report
/// of its outcome.
pub open spec fn go_on(class: RegisterClass, config: PollConfig, job: JobView) -> (
    LoopView,
    LoopActionView,
) {
    match job.request() {
        Some(request) => (LoopView::Reading(class, config, job), LoopActionView::Bus(request)),
        None => after_batch(class, config, job),
    }
}

impl LoopView {
    /// The loop after `event`, and what to do next.
    ///
    /// An idle loop waits for the instruction to start. A polling session
    /// begins every iteration by reading the online flag, once. Offline, it
    /// ends without a report. Online, it reads the read-only registers and
    /// reports them twice, as registers and as sensor values, or reports a
    /// warning; then it reads the read/write registers and reports them or a
    /// warning; then the next iteration begins.
    ///
    /// While the loop waits for an instruction, for the online flag or for a
    /// reply from the bus, an event of another kind changes nothing, and the
    /// loop asks again. After a report, every event sends the loop on.
    pub open spec fn step(self, event: LoopEvent) -> (LoopView, LoopActionView) {
        match self {
            LoopView::Idle => match event {
                LoopEvent::Start(config) => (
                    LoopView::Boundary(config),
                    LoopActionView::CheckOnline,
                ),
                _ => (LoopView::Idle, LoopActionView::Receive),
            },
            LoopView::Boundary(config) => match event {
                LoopEvent::Online(true) => go_on(
                    RegisterClass::Rreg,
                    config,
                    poll_job(RegisterClass::Rreg, config),
                ),
                LoopEvent::Online(false) => (LoopView::Idle, LoopActionView::Receive),
                _ => (LoopView::Boundary(config), LoopActionView::CheckOnline),
            },
            LoopView::Reading(class, config, job) => match event {
                LoopEvent::Reply(reply) => go_on(class, config, job.respond(reply)),
                _ => go_on(class, config, job),
            },
            LoopView::SensorValues(config, values) => (
                LoopView::BeforeRwregs(config),
                LoopActionView::Emit(ReportView::SensorValues(values)),
            ),
            LoopView::BeforeRwregs(config) => go_on(
                RegisterClass::Rwreg,
                config,
                poll_job(RegisterClass::Rwreg, config),
            ),
            LoopView::AfterRwregs(config) => (
                LoopView::Boundary(config),
                LoopActionView::CheckOnline,
            ),
        }
    }

    /// The loop after `events`, one after the other, and what it asked for
    /// after each.
    pub open spec fn run(self, events: Seq<LoopEvent>) -> (LoopView, Seq<LoopActionView>)
        decreases events.len(),
    {
        if events.len() == 0 {
            (self, Seq::empty())
        } else {
            let (next, action) = self.step(events.first());
            let (end, actions) = next.run(events.drop_first());
            (end, seq![action] + actions)
        }
    }

    /// The polling session's configuration, `None` in an idle loop.
    pub open spec fn config(self) -> Option<PollConfig> {
        match self {
            LoopView::Idle => None,
            LoopView::Boundary(config) => Some(config),
            LoopView::Reading(_, config, _) => Some(config),
            LoopView::SensorValues(config, _) => Some(config),
            LoopView::BeforeRwregs(config) => Some(config),
            LoopView::AfterRwregs(config) => Some(config),
        }
    }
}

enum Phase {
    Idle,
    Boundary(PollConfig),
    Reading(RegisterClass, PollConfig, Job),
    SensorValues(PollConfig, Vec<(u16, u16)>),
    BeforeRwregs(PollConfig),
    AfterRwregs(PollConfig),
}

/// The control loop.
pub struct ControlLoop {
    phase: Phase,
}

impl View for ControlLoop {
    type V = LoopView;

    closed spec fn view(&self) -> LoopView {
        match self.phase {
            Phase::Idle => LoopView::Idle,
            Phase::Boundary(config) => LoopView::Boundary(config),
            Phase::Reading(class, config, job) => LoopView::Reading(class, config, job@),
            Phase::SensorValues(config, values) => LoopView::SensorValues(config, values@),
            Phase::BeforeRwregs(config) => LoopView::BeforeRwregs(config),
            Phase::AfterRwregs(config) => LoopView::AfterRwregs(config),
        }
    }
}

fn copy_values(values: &Vec<(u16, u16)>) -> (copy: Vec<(u16, u16)>)
    ensures
        copy@ == values@,
{
    let mut copy: Vec<(u16, u16)> = Vec::new();
    let mut i: usize = 0;
    while i < values.len()
        invariant
            i <= values.len(),
            copy@ == values@.take(i as int),
        decreases values.len() - i,
    {
        copy.push(values[i]);
        i += 1;
    }
    copy
}

fn read_warning_text(class: RegisterClass, error: &ModbusMasterError) -> (text: String)
    ensures
        text@ == read_warning(class, *error),
{
    match class {
        RegisterClass::Rreg => append_error("Konnte Lese-Register nicht lesen:\r\n", error),
        RegisterClass::Rwreg => append_error(
            "Konnte Schreib.-/ Lese-Register nicht lesen:\r\n",
            error,
        ),
    }
}

fn start_job(class: RegisterClass, config: &PollConfig) -> (job: Job)
    ensures
        job@ == poll_job(class, *config),
{
    match class {
        RegisterClass::Rreg => read_rregs(config.tty_path.clone(), config.slave_id, &config.rregs),
        RegisterClass::Rwreg => read_rwregs(
            config.tty_path.clone(),
            config.slave_id,
            &config.rwregs,
            config.protection_register,
        ),
    }
}

fn go_on_with(class: RegisterClass, config: PollConfig, job: Job) -> (next: (
    ControlLoop,
    LoopAction,
))
    ensures
        (next.0@, next.1@) == go_on(class, config, job@),
{
    match job.request() {
        Some(request) => (
            ControlLoop { phase: Phase::Reading(class, config, job) },
            LoopAction::Bus(request),
        ),
        None => match job.result() {
            Some(Err(error)) => {
                let warning = LoopAction::Emit(Report::Warning(read_warning_text(class, &error)));
                match class {
                    RegisterClass::Rreg => (
                        ControlLoop { phase: Phase::BeforeRwregs(config) },
                        warning,
                    ),
                    RegisterClass::Rwreg => (
                        ControlLoop { phase: Phase::AfterRwregs(config) },
                        warning,
                    ),
                }
            },
            Some(Ok(values)) => match class {
                RegisterClass::Rreg => {
                    let copy = copy_values(&values);
                    (
                        ControlLoop { phase: Phase::SensorValues(config, copy) },
                        LoopAction::Emit(Report::Rregs(values)),
                    )
                },
                RegisterClass::Rwreg => (
                    ControlLoop { phase: Phase::AfterRwregs(config) },
                    LoopAction::Emit(Report::Rwregs(values)),
                ),
            },
            None => unreached(),
        },
    }
}

impl ControlLoop {
    /// An idle control loop. It waits for its first instruction.
    pub fn new() -> (control_loop: Self)
        ensures
            control_loop@ == LoopView::Idle,
    {
        ControlLoop { phase: Phase::Idle }
    }

    /// Whether a polling session is running.
    pub fn is_polling(&self) -> (polling: bool)
        ensures
            polling == !(self@ is Idle),
    {
        match &self.phase {
            Phase::Idle => false,
            _ => true,
        }
    }

    /// The session to open when the loop asks for one on the bus, `None` in
    /// an idle loop.
    pub fn connection(&self) -> (connection: Option<SerialConfig>)
        ensures
            match self@.config() {
                None => connection is None,
                Some(config) => connection matches Some(connection) && connection.path
                    == config.tty_path && connection.settings == fixed_settings()
                    && connection.slave == config.slave_id,
            },
    {
        let config = match &self.phase {
            Phase::Idle => {
                return None;
            },
            Phase::Boundary(config) => config,
            Phase::Reading(_, config, _) => config,
            Phase::SensorValues(config, _) => config,
            Phase::BeforeRwregs(config) => config,
            Phase::AfterRwregs(config) => config,
        };
        Some(ModbusRtuContext::new().context(config.tty_path.clone(), config.slave_id))
    }

    /// Takes what happened last and tells what to do next.
    pub fn step(self, event: LoopEvent) -> (next: (ControlLoop, LoopAction))
        ensures
            (next.0@, next.1@) == self@.step(event),
    {
        match self.phase {
            Phase::Idle => match event {
                LoopEvent::Start(config) => (
                    ControlLoop { phase: Phase::Boundary(config) },
                    LoopAction::CheckOnline,
                ),
                _ => (ControlLoop { phase: Phase::Idle }, LoopAction::Receive),
            },
            Phase::Boundary(config) => match event {
                LoopEvent::Online(true) => {
                    let job = start_job(RegisterClass::Rreg, &config);
                    go_on_with(RegisterClass::Rreg, config, job)
                },
                LoopEvent::Online(false) => (
                    ControlLoop { phase: Phase::Idle },
                    LoopAction::Receive,
                ),
                _ => (ControlLoop { phase: Phase::Boundary(config) }, LoopAction::CheckOnline),
            },
            Phase::Reading(class, config, job) => match event {
                LoopEvent::Reply(reply) => go_on_with(class, config, job.respond(reply)),
                _ => go_on_with(class, config, job),
            },
            Phase::SensorValues(config, values) => (
                ControlLoop { phase: Phase::BeforeRwregs(config) },
                LoopAction::Emit(Report::SensorValues(values)),
            ),
            Phase::BeforeRwregs(config) => {
                let job = start_job(RegisterClass::Rwreg, &config);
                go_on_with(RegisterClass::Rwreg, config, job)
            },
            Phase::AfterRwregs(config) => (
                ControlLoop { phase: Phase::Boundary(config) },
                LoopAction::CheckOnline,
            ),
        }
    }
}

} // verus!
